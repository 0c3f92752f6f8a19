use crate::deposit::Deposit;
use crate::identity::Identity;
use crate::record::Bank;
use crate::withdraw::Withdraw;
use vstd::prelude::*;

verus! {

/// One operation of a history: what it was asked with, and what was read of the pool
/// when it was asked.
pub enum Operation {
    Deposit { pool: Identity, user: Identity, amount: u64 },
    Withdraw { pool: Identity, user: Identity, backing_value: u64, reserve: u64, amount: u64 },
}

impl Operation {
    /// Whether the operation succeeds on `bank`, provided the ledger moves the value: it
    /// is not refused, and the new balance can be held.
    pub open spec fn succeeds_on(self, bank: Bank) -> bool {
        match self {
            Operation::Deposit { pool, user, amount } => {
                let ctx = Deposit { bank, pool, user };
                ctx.outcome(Ok(())) is Ok && ctx.within_limits(amount)
            },
            Operation::Withdraw { pool, user, backing_value, reserve, amount } => {
                let ctx = Withdraw { bank, pool, user, backing_value, reserve };
                ctx.outcome(amount, Ok(())) is Ok && ctx.within_limits(amount)
            },
        }
    }

    /// The record after the operation has succeeded on `bank`.
    pub open spec fn apply(self, bank: Bank) -> Bank {
        match self {
            Operation::Deposit { pool, user, amount } => {
                Deposit { bank, pool, user }.settled(amount, Ok(())).bank
            },
            Operation::Withdraw { pool, user, backing_value, reserve, amount } => {
                Withdraw { bank, pool, user, backing_value, reserve }.settled(amount, Ok(())).bank
            },
        }
    }

    /// What the operation puts in.
    pub open spec fn deposited(self) -> int {
        match self {
            Operation::Deposit { amount, .. } => amount as int,
            Operation::Withdraw { .. } => 0,
        }
    }

    /// What the operation takes out.
    pub open spec fn withdrawn(self) -> int {
        match self {
            Operation::Deposit { .. } => 0,
            Operation::Withdraw { amount, .. } => amount as int,
        }
    }
}

/// The record after the operations of `history` have been applied to `bank` in order.
pub open spec fn replay(bank: Bank, history: Seq<Operation>) -> Bank
    decreases history.len(),
{
    if history.len() == 0 {
        bank
    } else {
        history.last().apply(replay(bank, history.drop_last()))
    }
}

/// Whether every operation of `history` succeeds on the record it meets, starting from
/// `bank`.
pub open spec fn all_succeed(bank: Bank, history: Seq<Operation>) -> bool
    decreases history.len(),
{
    history.len() == 0 || (all_succeed(bank, history.drop_last()) && history.last().succeeds_on(
        replay(bank, history.drop_last()),
    ))
}

/// The sum of the amounts that the deposits of `history` put in.
pub open spec fn total_deposited(history: Seq<Operation>) -> int
    decreases history.len(),
{
    if history.len() == 0 {
        0
    } else {
        total_deposited(history.drop_last()) + history.last().deposited()
    }
}

/// The sum of the amounts that the withdrawals of `history` take out.
pub open spec fn total_withdrawn(history: Seq<Operation>) -> int
    decreases history.len(),
{
    if history.len() == 0 {
        0
    } else {
        total_withdrawn(history.drop_last()) + history.last().withdrawn()
    }
}

/// Conservation: after any history of successful deposits and withdrawals the balance is
/// what it was at the start, plus all that was deposited, minus all that was withdrawn.
/// The name and the owner are those of the start.
pub proof fn lemma_conservation(bank: Bank, history: Seq<Operation>)
    requires
        all_succeed(bank, history),
    ensures
        replay(bank, history).balance == bank.balance + total_deposited(history)
            - total_withdrawn(history),
        replay(bank, history).owner == bank.owner,
        replay(bank, history).name == bank.name,
    decreases history.len(),
{
    if history.len() > 0 {
        lemma_conservation(bank, history.drop_last());
    }
}

/// Conservation from creation: a record that starts empty holds, after any history of
/// successful deposits and withdrawals, the deposits minus the withdrawals.
pub proof fn lemma_conservation_from_creation(bank: Bank, history: Seq<Operation>)
    requires
        bank.balance == 0,
        all_succeed(bank, history),
    ensures
        replay(bank, history).balance == total_deposited(history) - total_withdrawn(history),
{
    lemma_conservation(bank, history);
}

} // verus!
