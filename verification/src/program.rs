//! The live shared view: an account representation supplied by the running
//! ledger runtime, whose byte payload sits behind a runtime-checked shared
//! cell.

use vstd::prelude::*;

use crate::{
    Epoch, AccountDataRef, BorrowConflict, Pubkey, ReadonlyAccountData,
    ReadonlyAccountIsExecutable, ReadonlyAccountLamports, ReadonlyAccountOwner,
    ReadonlyAccountPubkey, ReadonlyAccountRentEpoch,
};

verus! {

/// A byte buffer governed by a single-writer-or-multiple-readers
/// discipline.
///
/// The owning runtime may take an exclusive hold of the buffer to mutate
/// it; while such a hold is active no shared borrow can be handed out, and
/// [`SharedByteCell::try_borrow`] fails with [`BorrowConflict`]. Acquiring
/// a borrow never blocks: it succeeds or fails immediately, and the
/// returned slice's borrow ends before the runtime can take the next
/// exclusive hold.
pub struct SharedByteCell {
    bytes: Vec<u8>,
    exclusively_held: bool,
}

impl SharedByteCell {
    /// The bytes currently stored in the cell.
    pub closed spec fn spec_bytes(&self) -> Seq<u8> {
        self.bytes@
    }

    /// Whether an exclusive hold is currently active.
    pub closed spec fn spec_exclusively_held(&self) -> bool {
        self.exclusively_held
    }

    /// A fresh cell with no hold active.
    pub fn new(bytes: Vec<u8>) -> (r: SharedByteCell)
        ensures
            r.spec_bytes() == bytes@,
            !r.spec_exclusively_held(),
    {
        SharedByteCell { bytes, exclusively_held: false }
    }

    /// Attempts a shared borrow of the buffer. Succeeds exactly when no
    /// exclusive hold is active.
    pub fn try_borrow<'a>(&'a self) -> (r: Result<&'a [u8], BorrowConflict>)
        ensures
            r is Ok <==> !self.spec_exclusively_held(),
            r matches Ok(b) ==> b@ == self.spec_bytes(),
    {
        if self.exclusively_held {
            Err(BorrowConflict)
        } else {
            Ok(self.bytes.as_slice())
        }
    }

    /// Takes the runtime's exclusive hold of the buffer.
    pub fn hold_exclusive(&mut self)
        requires
            !old(self).spec_exclusively_held(),
        ensures
            final(self).spec_exclusively_held(),
            final(self).spec_bytes() == old(self).spec_bytes(),
    {
        self.exclusively_held = true;
    }

    /// Releases the runtime's exclusive hold.
    pub fn release_exclusive(&mut self)
        requires
            old(self).spec_exclusively_held(),
        ensures
            !final(self).spec_exclusively_held(),
            final(self).spec_bytes() == old(self).spec_bytes(),
    {
        self.exclusively_held = false;
    }

    /// Overwrites the buffer. Only the holder of the exclusive hold may
    /// write, so this requires the hold to be active.
    pub fn store(&mut self, bytes: Vec<u8>)
        requires
            old(self).spec_exclusively_held(),
        ensures
            final(self).spec_exclusively_held(),
            final(self).spec_bytes() == bytes@,
    {
        self.bytes = bytes;
    }
}

/// A live view of an account inside an executing operation, handed to the
/// program by the ledger runtime. Its byte payload is reachable only
/// through the runtime-checked [`SharedByteCell`], so reading the data can
/// fail with [`BorrowConflict`] while the runtime holds the cell
/// exclusively.
pub struct AccountInfo {
    pub key: Pubkey,
    pub lamports: u64,
    pub data: SharedByteCell,
    pub owner: Pubkey,
    pub executable: bool,
    pub rent_epoch: Epoch,
}

impl ReadonlyAccountPubkey for AccountInfo {
    open spec fn spec_pubkey(&self) -> Pubkey {
        self.key
    }

    fn pubkey(&self) -> (r: &Pubkey) {
        &self.key
    }
}

impl ReadonlyAccountLamports for AccountInfo {
    open spec fn spec_lamports(&self) -> u64 {
        self.lamports
    }

    fn lamports(&self) -> (r: u64) {
        self.lamports
    }
}

impl ReadonlyAccountData for AccountInfo {
    open spec fn spec_data(&self) -> Seq<u8> {
        self.data.spec_bytes()
    }

    open spec fn spec_data_available(&self) -> bool {
        !self.data.spec_exclusively_held()
    }

    /// Fails with [`BorrowConflict`] exactly while the runtime holds the
    /// cell exclusively; the returned guard's borrow ends before the next
    /// exclusive hold can be taken.
    fn data<'a>(&'a self) -> (r: Result<AccountDataRef<'a>, BorrowConflict>) {
        match self.data.try_borrow() {
            Ok(b) => Ok(AccountDataRef(b)),
            Err(e) => Err(e),
        }
    }
}

impl ReadonlyAccountOwner for AccountInfo {
    open spec fn spec_owner(&self) -> Pubkey {
        self.owner
    }

    fn owner(&self) -> (r: &Pubkey) {
        &self.owner
    }
}

impl ReadonlyAccountIsExecutable for AccountInfo {
    open spec fn spec_executable(&self) -> bool {
        self.executable
    }

    fn executable(&self) -> (r: bool) {
        self.executable
    }
}

impl ReadonlyAccountRentEpoch for AccountInfo {
    open spec fn spec_rent_epoch(&self) -> Epoch {
        self.rent_epoch
    }

    fn rent_epoch(&self) -> (r: Epoch) {
        self.rent_epoch
    }
}

/// The guarded data shape: a live view's payload is exactly the bytes of
/// its shared cell, and a data access succeeds exactly while no exclusive
/// hold is active on that cell. With the accessor's contract this pins
/// the borrow discipline: every access during a hold fails with
/// [`BorrowConflict`], and once the hold is released an access succeeds
/// and exposes the cell's current bytes.
pub proof fn lemma_live_view_borrow_discipline(info: &AccountInfo)
    ensures
        info.spec_data() == info.data.spec_bytes(),
        info.spec_data_available() <==> !info.data.spec_exclusively_held(),
{
}

} // verus!
