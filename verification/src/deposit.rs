use crate::identity::Identity;
use crate::ledger::{InsufficientValue, Transfer};
use crate::record::{Bank, BankError};
use vstd::prelude::*;

verus! {

/// What a deposit works on: the record, the pool that backs it, and the depositor.
///
/// Anyone may deposit into any record: the depositor need not be the owner.
#[derive(Clone, Debug, PartialEq, Eq)]
pub struct Deposit {
    pub bank: Bank,
    /// The value-holder that backs the record.
    pub pool: Identity,
    /// Who gives the value.
    pub user: Identity,
}

impl Deposit {
    /// The movement a deposit asks of the ledger: `amount` from the depositor to the pool.
    pub open spec fn movement(self, amount: u64) -> Transfer {
        Transfer { from: self.user, to: self.pool, amount }
    }

    /// How the deposit ends, given what the ledger answered.
    pub open spec fn outcome(self, moved: Result<(), InsufficientValue>) -> Result<(), BankError> {
        if moved is Ok {
            Ok(())
        } else {
            Err(BankError::TransferFailed)
        }
    }

    /// The state after the deposit: the balance has grown by `amount` if the value moved,
    /// otherwise nothing has changed.
    pub open spec fn settled(self, amount: u64, moved: Result<(), InsufficientValue>) -> Deposit {
        if moved is Ok {
            Deposit {
                bank: Bank { balance: (self.bank.balance + amount) as u64, ..self.bank },
                ..self
            }
        } else {
            self
        }
    }

    /// The balance after the deposit must still fit in sixty-four bits.
    pub open spec fn within_limits(self, amount: u64) -> bool {
        self.bank.balance + amount <= u64::MAX
    }

    /// Tests `within_limits`, for callers that cannot know it beforehand.
    pub fn is_within_limits(&self, amount: u64) -> (r: bool)
        ensures
            r == self.within_limits(amount),
    {
        amount <= u64::MAX - self.bank.balance
    }

    /// Names the movement to ask of the ledger. A deposit is never refused beforehand,
    /// whoever makes it and whatever the amount, zero included.
    pub fn request(&self, amount: u64) -> (r: Transfer)
        ensures
            r == self.movement(amount),
    {
        Transfer { from: self.user, to: self.pool, amount }
    }

    /// Finishes the deposit once the ledger has answered. The balance goes up only when
    /// the value has moved.
    pub fn settle(&mut self, amount: u64, moved: Result<(), InsufficientValue>) -> (r: Result<
        (),
        BankError,
    >)
        requires
            moved is Ok ==> old(self).within_limits(amount),
        ensures
            r == old(self).outcome(moved),
            *final(self) == old(self).settled(amount, moved),
            // The balance grows by exactly the amount, and only when the value has moved.
            moved is Ok ==> r is Ok && final(self).bank.balance == old(self).bank.balance
                + amount,
            moved is Err ==> r == Err::<(), BankError>(BankError::TransferFailed) && *final(self)
                == *old(self),
            // Whatever the outcome, of the record only the balance may differ.
            final(self).bank.name == old(self).bank.name,
            final(self).bank.owner == old(self).bank.owner,
            final(self).pool == old(self).pool,
            final(self).user == old(self).user,
    {
        match moved {
            Err(_) => Err(BankError::TransferFailed),
            Ok(()) => {
                self.bank.balance = self.bank.balance + amount;
                Ok(())
            },
        }
    }
}

/// Puts `amount` into the record.
///
/// The order is fixed: first the movement of value through `move_value`, which is called
/// exactly once with the movement from the depositor to the pool, and only after it has
/// succeeded the balance. When the ledger refuses, the context is left as it was. An
/// amount that the balance cannot hold may be given only where the ledger cannot move it.
pub fn deposit<F: FnOnce(Transfer) -> Result<(), InsufficientValue>>(
    ctx: &mut Deposit,
    amount: u64,
    move_value: F,
) -> (r: Result<(), BankError>)
    requires
        call_requires(move_value, (old(ctx).movement(amount),)),
        forall|moved: Result<(), InsufficientValue>|
            call_ensures(move_value, (old(ctx).movement(amount),), moved) && moved is Ok
                ==> old(ctx).within_limits(amount),
    ensures
        exists|moved: Result<(), InsufficientValue>|
            #![trigger old(ctx).outcome(moved)]
            call_ensures(move_value, (old(ctx).movement(amount),), moved) && r == old(
                ctx,
            ).outcome(moved),
        r is Ok ==> *final(ctx) == old(ctx).settled(amount, Ok(())),
        r is Ok ==> final(ctx).bank.balance == old(ctx).bank.balance + amount,
        r is Err ==> r == Err::<(), BankError>(BankError::TransferFailed),
        r is Err ==> *final(ctx) == *old(ctx),
        // Whatever the outcome, of the record only the balance may differ.
        final(ctx).bank.name == old(ctx).bank.name,
        final(ctx).bank.owner == old(ctx).bank.owner,
        final(ctx).pool == old(ctx).pool,
        final(ctx).user == old(ctx).user,
{
    let transfer = ctx.request(amount);
    let moved = move_value(transfer);
    ctx.settle(amount, moved)
}

} // verus!
