//! Owned account snapshots: representations that hold their byte payload
//! directly, so reading the data never fails.

use std::sync::Arc;
use vstd::prelude::*;

use crate::keyed::Keyed;
use crate::{
    Epoch, AccountDataRef, BorrowConflict, Pubkey, ReadonlyAccountData,
    ReadonlyAccountIsExecutable, ReadonlyAccountLamports, ReadonlyAccountOwner,
    ReadonlyAccountRentEpoch,
};

verus! {

/// An owned snapshot of an account. The payload is a plain owned buffer,
/// so the data accessor is the one-hop-collapsed shape and always
/// succeeds. The snapshot carries no address of its own; pair it with one
/// via [`Keyed`].
#[derive(Clone, Debug, PartialEq, Eq)]
pub struct Account {
    pub lamports: u64,
    pub data: Vec<u8>,
    pub owner: Pubkey,
    pub executable: bool,
    pub rent_epoch: Epoch,
}

/// An owned snapshot with an address attached.
pub type KeyedAccount = Keyed<Account>;

impl ReadonlyAccountLamports for Account {
    open spec fn spec_lamports(&self) -> u64 {
        self.lamports
    }

    fn lamports(&self) -> (r: u64) {
        self.lamports
    }
}

impl ReadonlyAccountData for Account {
    open spec fn spec_data(&self) -> Seq<u8> {
        self.data@
    }

    open spec fn spec_data_available(&self) -> bool {
        true
    }

    /// Never fails: the payload is stored directly.
    fn data<'a>(&'a self) -> (r: Result<AccountDataRef<'a>, BorrowConflict>) {
        Ok(AccountDataRef(self.data.as_slice()))
    }
}

impl ReadonlyAccountOwner for Account {
    open spec fn spec_owner(&self) -> Pubkey {
        self.owner
    }

    fn owner(&self) -> (r: &Pubkey) {
        &self.owner
    }
}

impl ReadonlyAccountIsExecutable for Account {
    open spec fn spec_executable(&self) -> bool {
        self.executable
    }

    fn executable(&self) -> (r: bool) {
        self.executable
    }
}

impl ReadonlyAccountRentEpoch for Account {
    open spec fn spec_rent_epoch(&self) -> Epoch {
        self.rent_epoch
    }

    fn rent_epoch(&self) -> (r: Epoch) {
        self.rent_epoch
    }
}

/// The collapsed data shape: an owned snapshot's guard can always be
/// taken, and it exposes exactly the stored payload.
pub proof fn lemma_owned_snapshot_data_total(a: &Account)
    ensures
        a.spec_data_available(),
        a.spec_data() == a.data@,
{
}

/// A shared, copy-on-write-capable owned snapshot. Its payload sits in a
/// reference-counted buffer and its fields are private, so all reads go
/// through its own read-only accessors. The capability set is the same as
/// [`Account`]'s: the data accessor never fails.
#[derive(Clone, Debug)]
pub struct AccountSharedData {
    lamports: u64,
    data: Arc<Vec<u8>>,
    owner: Pubkey,
    executable: bool,
    rent_epoch: Epoch,
}

impl AccountSharedData {
    /// Builds a snapshot from its attribute values.
    pub fn new(
        lamports: u64,
        data: Vec<u8>,
        owner: Pubkey,
        executable: bool,
        rent_epoch: Epoch,
    ) -> (r: AccountSharedData)
        ensures
            r.spec_lamports() == lamports,
            r.spec_data() == data@,
            r.spec_data_available(),
            r.spec_owner() == owner,
            r.spec_executable() == executable,
            r.spec_rent_epoch() == rent_epoch,
    {
        AccountSharedData { lamports, data: Arc::new(data), owner, executable, rent_epoch }
    }

    /// Read-only accessor for the balance.
    pub fn lamports(&self) -> (r: u64)
        ensures
            r == <Self as ReadonlyAccountLamports>::spec_lamports(self),
    {
        self.lamports
    }

    /// Read-only accessor for the payload bytes.
    pub fn data(&self) -> (r: &[u8])
        ensures
            r@ == <Self as ReadonlyAccountData>::spec_data(self),
    {
        self.data.as_slice()
    }

    /// Read-only accessor for the owning program's address.
    pub fn owner(&self) -> (r: &Pubkey)
        ensures
            *r == <Self as ReadonlyAccountOwner>::spec_owner(self),
    {
        &self.owner
    }

    /// Read-only accessor for the executability flag.
    pub fn executable(&self) -> (r: bool)
        ensures
            r == <Self as ReadonlyAccountIsExecutable>::spec_executable(self),
    {
        self.executable
    }

    /// Read-only accessor for the rent epoch.
    pub fn rent_epoch(&self) -> (r: Epoch)
        ensures
            r == <Self as ReadonlyAccountRentEpoch>::spec_rent_epoch(self),
    {
        self.rent_epoch
    }
}

impl From<Account> for AccountSharedData {
    /// Converts a plain snapshot into the shared form, keeping every
    /// attribute; what the result reports is given by
    /// [`lemma_shared_data_from_account`].
    fn from(a: Account) -> (r: AccountSharedData) {
        AccountSharedData {
            lamports: a.lamports,
            data: Arc::new(a.data),
            owner: a.owner,
            executable: a.executable,
            rent_epoch: a.rent_epoch,
        }
    }
}

impl vstd::std_specs::convert::FromSpecImpl<Account> for AccountSharedData {
    open spec fn obeys_from_spec() -> bool {
        true
    }

    closed spec fn from_spec(a: Account) -> AccountSharedData {
        AccountSharedData {
            lamports: a.lamports,
            data: Arc::new(a.data),
            owner: a.owner,
            executable: a.executable,
            rent_epoch: a.rent_epoch,
        }
    }
}

/// Conversion keeps every attribute: the shared snapshot built from a
/// plain snapshot reports the same balance, payload, owner, executability
/// and rent epoch, and its payload is always available.
pub proof fn lemma_shared_data_from_account(a: Account)
    ensures
        ({
            let r = <AccountSharedData as vstd::std_specs::convert::FromSpec<
                Account,
            >>::from_spec(a);
            &&& r.spec_lamports() == a.spec_lamports()
            &&& r.spec_data() == a.spec_data()
            &&& r.spec_data_available()
            &&& r.spec_owner() == a.spec_owner()
            &&& r.spec_executable() == a.spec_executable()
            &&& r.spec_rent_epoch() == a.spec_rent_epoch()
        }),
{
}

impl ReadonlyAccountLamports for AccountSharedData {
    closed spec fn spec_lamports(&self) -> u64 {
        self.lamports
    }

    fn lamports(&self) -> (r: u64) {
        AccountSharedData::lamports(self)
    }
}

impl ReadonlyAccountData for AccountSharedData {
    closed spec fn spec_data(&self) -> Seq<u8> {
        self.data@
    }

    open spec fn spec_data_available(&self) -> bool {
        true
    }

    /// Never fails: the payload is stored directly.
    fn data<'a>(&'a self) -> (r: Result<AccountDataRef<'a>, BorrowConflict>) {
        Ok(AccountDataRef(AccountSharedData::data(self)))
    }
}

impl ReadonlyAccountOwner for AccountSharedData {
    closed spec fn spec_owner(&self) -> Pubkey {
        self.owner
    }

    fn owner(&self) -> (r: &Pubkey) {
        AccountSharedData::owner(self)
    }
}

impl ReadonlyAccountIsExecutable for AccountSharedData {
    closed spec fn spec_executable(&self) -> bool {
        self.executable
    }

    fn executable(&self) -> (r: bool) {
        AccountSharedData::executable(self)
    }
}

impl ReadonlyAccountRentEpoch for AccountSharedData {
    closed spec fn spec_rent_epoch(&self) -> Epoch {
        self.rent_epoch
    }

    fn rent_epoch(&self) -> (r: Epoch) {
        AccountSharedData::rent_epoch(self)
    }
}

} // verus!
