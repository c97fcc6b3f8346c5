//! Read-only capability interfaces for ledger accounts.
//!
//! Generic code can read the attributes of an account (address, balance,
//! byte payload, owning program, executability, rent epoch) without knowing
//! which concrete in-memory representation backs it. Each attribute is its
//! own single-method trait; a caller asks only for the capabilities it
//! needs, and every trait is implemented both by the concrete
//! representations and, by delegation, by references to them and by the
//! [`keyed::Keyed`] identity composite.

use vstd::prelude::*;

pub mod keyed;
pub mod program;
pub mod sdk;

verus! {

/// An account address: an opaque fixed-size value.
#[derive(Clone, Copy, Debug, PartialEq, Eq, Hash)]
pub struct Pubkey {
    pub bytes: [u8; 32],
}

impl View for Pubkey {
    type V = Seq<u8>;

    open spec fn view(&self) -> Seq<u8> {
        self.bytes@
    }
}

impl Pubkey {
    /// Builds an address from its raw bytes.
    pub fn new(bytes: [u8; 32]) -> (r: Pubkey)
        ensures
            r.bytes == bytes,
    {
        Pubkey { bytes }
    }
}

impl Default for Pubkey {
    /// The all-zero address.
    fn default() -> (r: Pubkey)
        ensures
            r@ == Seq::<u8>::new(32, |i: int| 0u8),
    {
        Pubkey { bytes: [0u8; 32] }
    }
}

/// An account's staleness epoch.
pub type Epoch = u64;

/// Failure of a data access: the backing shared cell is exclusively held
/// elsewhere, so no shared borrow can be handed out right now.
#[derive(Clone, Copy, Debug, PartialEq, Eq)]
pub struct BorrowConflict;

/// A borrowed view of an account's byte payload.
///
/// This is the guard value every [`ReadonlyAccountData`] accessor returns:
/// it borrows from the account and yields the payload bytes through
/// [`AccountDataRef::as_bytes`]. Its view is the byte sequence it exposes.
#[derive(Clone, Copy, Debug)]
pub struct AccountDataRef<'a>(pub &'a [u8]);

impl View for AccountDataRef<'_> {
    type V = Seq<u8>;

    open spec fn view(&self) -> Seq<u8> {
        self.0@
    }
}

impl<'a> AccountDataRef<'a> {
    /// The payload bytes this guard gives access to.
    pub fn as_bytes(&self) -> (r: &'a [u8])
        ensures
            r@ == self@,
    {
        self.0
    }
}

/// A readonly account that you can read the pubkey of.
pub trait ReadonlyAccountPubkey {
    /// The address this account reports.
    spec fn spec_pubkey(&self) -> Pubkey;

    /// Returns the pubkey of this account.
    fn pubkey(&self) -> (r: &Pubkey)
        ensures
            *r == self.spec_pubkey(),
    ;
}

impl<T: ReadonlyAccountPubkey + ?Sized> ReadonlyAccountPubkey for &T {
    open spec fn spec_pubkey(&self) -> Pubkey {
        T::spec_pubkey(*self)
    }

    fn pubkey(&self) -> (r: &Pubkey) {
        T::pubkey(*self)
    }
}

/// A readonly account that you can read the lamports of.
pub trait ReadonlyAccountLamports {
    /// The balance this account reports.
    spec fn spec_lamports(&self) -> u64;

    /// Returns the lamports of this account.
    fn lamports(&self) -> (r: u64)
        ensures
            r == self.spec_lamports(),
    ;
}

impl<T: ReadonlyAccountLamports + ?Sized> ReadonlyAccountLamports for &T {
    open spec fn spec_lamports(&self) -> u64 {
        T::spec_lamports(*self)
    }

    fn lamports(&self) -> (r: u64) {
        T::lamports(*self)
    }
}

/// A readonly account that you can read the data of.
///
/// The accessor reconciles two storage shapes behind one signature. A
/// representation whose bytes sit behind a runtime-checked shared cell
/// hands out a guard only while no exclusive hold is active, so the
/// accessor returns a `Result`; a representation that stores its bytes
/// directly always succeeds. `spec_data_available` says which case the
/// receiver is in, and the accessor fails, with [`BorrowConflict`], exactly
/// when it is false.
pub trait ReadonlyAccountData {
    /// The byte payload of this account.
    spec fn spec_data(&self) -> Seq<u8>;

    /// Whether a shared borrow of the payload can currently be taken.
    /// Always true for representations without a runtime check.
    spec fn spec_data_available(&self) -> bool;

    /// Returns a guard for the data buffer of this account, or
    /// [`BorrowConflict`] if the backing cell is exclusively held.
    fn data<'a>(&'a self) -> (r: Result<AccountDataRef<'a>, BorrowConflict>)
        ensures
            r is Ok <==> self.spec_data_available(),
            r matches Ok(d) ==> d@ == self.spec_data(),
    ;
}

impl<T: ReadonlyAccountData + ?Sized> ReadonlyAccountData for &T {
    open spec fn spec_data(&self) -> Seq<u8> {
        T::spec_data(*self)
    }

    open spec fn spec_data_available(&self) -> bool {
        T::spec_data_available(*self)
    }

    fn data<'a>(&'a self) -> (r: Result<AccountDataRef<'a>, BorrowConflict>) {
        T::data(*self)
    }
}

/// A readonly account that you can read the owner program of.
pub trait ReadonlyAccountOwner {
    /// The owning program's address this account reports.
    spec fn spec_owner(&self) -> Pubkey;

    /// Returns the pubkey of the program owning this account.
    fn owner(&self) -> (r: &Pubkey)
        ensures
            *r == self.spec_owner(),
    ;
}

impl<T: ReadonlyAccountOwner + ?Sized> ReadonlyAccountOwner for &T {
    open spec fn spec_owner(&self) -> Pubkey {
        T::spec_owner(*self)
    }

    fn owner(&self) -> (r: &Pubkey) {
        T::owner(*self)
    }
}

/// A readonly account that you can read whether it's executable or not.
pub trait ReadonlyAccountIsExecutable {
    /// The executability flag this account reports.
    spec fn spec_executable(&self) -> bool;

    /// Returns true if this is an executable account, false otherwise.
    fn executable(&self) -> (r: bool)
        ensures
            r == self.spec_executable(),
    ;
}

impl<T: ReadonlyAccountIsExecutable + ?Sized> ReadonlyAccountIsExecutable for &T {
    open spec fn spec_executable(&self) -> bool {
        T::spec_executable(*self)
    }

    fn executable(&self) -> (r: bool) {
        T::executable(*self)
    }
}

/// A readonly account that you can read the rent epoch of.
pub trait ReadonlyAccountRentEpoch {
    /// The rent epoch this account reports.
    spec fn spec_rent_epoch(&self) -> Epoch;

    /// Returns the rent epoch of this account.
    fn rent_epoch(&self) -> (r: Epoch)
        ensures
            r == self.spec_rent_epoch(),
    ;
}

impl<T: ReadonlyAccountRentEpoch + ?Sized> ReadonlyAccountRentEpoch for &T {
    open spec fn spec_rent_epoch(&self) -> Epoch {
        T::spec_rent_epoch(*self)
    }

    fn rent_epoch(&self) -> (r: Epoch) {
        T::rent_epoch(*self)
    }
}

/// Delegation equivalence for the pubkey capability: a reference reports
/// the same address as the value it points to, so `value.pubkey()` and
/// `(&value).pubkey()` agree.
pub proof fn lemma_ref_delegation_pubkey<T: ReadonlyAccountPubkey + ?Sized>(t: &T)
    ensures
        <&T as ReadonlyAccountPubkey>::spec_pubkey(&t) == T::spec_pubkey(t),
{
}

/// Delegation equivalence for the lamports capability.
pub proof fn lemma_ref_delegation_lamports<T: ReadonlyAccountLamports + ?Sized>(t: &T)
    ensures
        <&T as ReadonlyAccountLamports>::spec_lamports(&t) == T::spec_lamports(t),
{
}

/// Delegation equivalence for the data capability: a reference reports the
/// same payload, and its payload is available exactly when the referent's
/// is.
pub proof fn lemma_ref_delegation_data<T: ReadonlyAccountData + ?Sized>(t: &T)
    ensures
        <&T as ReadonlyAccountData>::spec_data(&t) == T::spec_data(t),
        <&T as ReadonlyAccountData>::spec_data_available(&t) == T::spec_data_available(t),
{
}

/// Delegation equivalence for the owner capability.
pub proof fn lemma_ref_delegation_owner<T: ReadonlyAccountOwner + ?Sized>(t: &T)
    ensures
        <&T as ReadonlyAccountOwner>::spec_owner(&t) == T::spec_owner(t),
{
}

/// Delegation equivalence for the executable capability.
pub proof fn lemma_ref_delegation_executable<T: ReadonlyAccountIsExecutable + ?Sized>(t: &T)
    ensures
        <&T as ReadonlyAccountIsExecutable>::spec_executable(&t) == T::spec_executable(t),
{
}

/// Delegation equivalence for the rent epoch capability.
pub proof fn lemma_ref_delegation_rent_epoch<T: ReadonlyAccountRentEpoch + ?Sized>(t: &T)
    ensures
        <&T as ReadonlyAccountRentEpoch>::spec_rent_epoch(&t) == T::spec_rent_epoch(t),
{
}

} // verus!
