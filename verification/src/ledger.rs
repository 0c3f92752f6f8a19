use crate::identity::Identity;
use vstd::prelude::*;

verus! {

/// One movement of value that the engine asks the value ledger to carry out.
///
/// The ledger moves all of `amount` from `from` to `to`, or nothing at all.
#[derive(Clone, Copy, Debug, PartialEq, Eq)]
pub struct Transfer {
    pub from: Identity,
    pub to: Identity,
    pub amount: u64,
}

/// The ledger's refusal: `from` does not hold the amount, so nothing moved.
#[derive(Clone, Copy, Debug, PartialEq, Eq, Structural)]
pub struct InsufficientValue;

/// The storage that `create` asks for: `space` bytes, paid for by `payer`.
#[derive(Clone, Copy, Debug, PartialEq, Eq)]
pub struct Allocation {
    pub payer: Identity,
    pub space: usize,
}

/// The store's refusal: `payer` cannot fund the storage, so nothing was allocated.
#[derive(Clone, Copy, Debug, PartialEq, Eq, Structural)]
pub struct Unfunded;

} // verus!
