use crate::identity::Identity;
use vstd::prelude::*;

verus! {

/// The record kept for one custodial account.
///
/// `name` and `owner` are written once, when the record is created. `balance` is the
/// value the record tracks; only a settled deposit or withdrawal changes it.
#[derive(Clone, Debug, PartialEq, Eq)]
pub struct Bank {
    pub name: String,
    pub balance: u64,
    pub owner: Identity,
}

/// Why an operation was refused. Every refusal leaves the record as it was.
#[derive(Clone, Copy, Debug, PartialEq, Eq, Structural)]
pub enum BankError {
    /// `create` found a record in the slot already.
    AlreadyExists,
    /// `create` could not get the storage for the new record paid for.
    AllocationFailed,
    /// `withdraw` was asked for by someone other than the owner.
    NotOwner,
    /// `withdraw` would take the backing value below the reserve.
    InsufficientFunds,
    /// The value ledger refused to move the amount.
    TransferFailed,
}

impl Bank {
    /// Whether `caller` may take value out of this record: only its owner may.
    pub fn is_authorized(&self, caller: &Identity) -> (r: bool)
        ensures
            r == (*caller == self.owner),
    {
        *caller == self.owner
    }

    /// The display label given at creation.
    pub fn name(&self) -> (r: &String)
        ensures
            *r == self.name,
    {
        &self.name
    }

    /// The tracked value.
    pub fn balance(&self) -> (r: u64)
        ensures
            r == self.balance,
    {
        self.balance
    }

    /// The identity that created the record.
    pub fn owner(&self) -> (r: Identity)
        ensures
            r == self.owner,
    {
        self.owner
    }
}

} // verus!
