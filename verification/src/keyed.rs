//! The identity composite: an address paired with any account representation.

use vstd::prelude::*;

use crate::{
    Epoch, AccountDataRef, BorrowConflict, Pubkey, ReadonlyAccountData,
    ReadonlyAccountIsExecutable, ReadonlyAccountLamports, ReadonlyAccountOwner,
    ReadonlyAccountPubkey, ReadonlyAccountRentEpoch,
};

verus! {

/// A pairing of an address with an account representation.
///
/// `Keyed<T>` adds the pubkey capability from its own `pubkey` field and
/// delegates every other capability to the wrapped `account`, so it
/// satisfies a capability exactly when `T` does.
#[derive(Clone, Copy, Debug, Default, PartialEq, Eq, Hash)]
pub struct Keyed<T> {
    pub pubkey: Pubkey,
    pub account: T,
}

impl<T> ReadonlyAccountPubkey for Keyed<T> {
    open spec fn spec_pubkey(&self) -> Pubkey {
        self.pubkey
    }

    fn pubkey(&self) -> (r: &Pubkey) {
        &self.pubkey
    }
}

impl<T: ReadonlyAccountLamports> ReadonlyAccountLamports for Keyed<T> {
    open spec fn spec_lamports(&self) -> u64 {
        self.account.spec_lamports()
    }

    fn lamports(&self) -> (r: u64) {
        self.account.lamports()
    }
}

impl<T: ReadonlyAccountData> ReadonlyAccountData for Keyed<T> {
    open spec fn spec_data(&self) -> Seq<u8> {
        self.account.spec_data()
    }

    open spec fn spec_data_available(&self) -> bool {
        self.account.spec_data_available()
    }

    fn data<'a>(&'a self) -> (r: Result<AccountDataRef<'a>, BorrowConflict>) {
        self.account.data()
    }
}

impl<T: ReadonlyAccountOwner> ReadonlyAccountOwner for Keyed<T> {
    open spec fn spec_owner(&self) -> Pubkey {
        self.account.spec_owner()
    }

    fn owner(&self) -> (r: &Pubkey) {
        self.account.owner()
    }
}

impl<T: ReadonlyAccountIsExecutable> ReadonlyAccountIsExecutable for Keyed<T> {
    open spec fn spec_executable(&self) -> bool {
        self.account.spec_executable()
    }

    fn executable(&self) -> (r: bool) {
        self.account.executable()
    }
}

impl<T: ReadonlyAccountRentEpoch> ReadonlyAccountRentEpoch for Keyed<T> {
    open spec fn spec_rent_epoch(&self) -> Epoch {
        self.account.spec_rent_epoch()
    }

    fn rent_epoch(&self) -> (r: Epoch) {
        self.account.rent_epoch()
    }
}

/// Composite identity: a `Keyed` reports exactly the address supplied at
/// construction.
pub proof fn lemma_keyed_pubkey<T>(k: &Keyed<T>)
    ensures
        k.spec_pubkey() == k.pubkey,
{
}

/// Composite pass-through for the lamports capability: a `Keyed` reports
/// the same balance as the representation it wraps.
pub proof fn lemma_keyed_lamports<T: ReadonlyAccountLamports>(k: &Keyed<T>)
    ensures
        k.spec_lamports() == k.account.spec_lamports(),
{
}

/// Composite pass-through for the data capability: a `Keyed` reports the
/// same payload as the representation it wraps, available exactly when the
/// wrapped payload is.
pub proof fn lemma_keyed_data<T: ReadonlyAccountData>(k: &Keyed<T>)
    ensures
        k.spec_data() == k.account.spec_data(),
        k.spec_data_available() == k.account.spec_data_available(),
{
}

/// Composite pass-through for the owner capability.
pub proof fn lemma_keyed_owner<T: ReadonlyAccountOwner>(k: &Keyed<T>)
    ensures
        k.spec_owner() == k.account.spec_owner(),
{
}

/// Composite pass-through for the executable capability.
pub proof fn lemma_keyed_executable<T: ReadonlyAccountIsExecutable>(k: &Keyed<T>)
    ensures
        k.spec_executable() == k.account.spec_executable(),
{
}

/// Composite pass-through for the rent epoch capability.
pub proof fn lemma_keyed_rent_epoch<T: ReadonlyAccountRentEpoch>(k: &Keyed<T>)
    ensures
        k.spec_rent_epoch() == k.account.spec_rent_epoch(),
{
}

} // verus!
