//! The state-transition engine of a small bank: one record per owner, which tracks a
//! balance, and three operations on it.
//!
//! * [`create::create`] opens a record for its creator.
//! * [`deposit::deposit`] puts value in; anyone may.
//! * [`withdraw::withdraw`] takes value out; only the owner may, and never below the
//!   reserve that keeps the record in storage.
//!
//! The value itself lives in a ledger outside this crate. Each operation decides first,
//! then asks the ledger to move the value, and touches the balance only once the ledger
//! has done so. The ledger is handed in as a function; the two halves of each operation,
//! `request` and `settle`, are there for callers that talk to the ledger themselves.
//! [`laws`] proves that the balance is conserved over any run of successful operations.

pub mod create;
pub mod deposit;
pub mod identity;
pub mod instruction;
pub mod laws;
pub mod ledger;
pub mod record;
pub mod withdraw;
