use crate::identity::Identity;
use crate::ledger::{InsufficientValue, Transfer};
use crate::record::{Bank, BankError};
use vstd::prelude::*;

verus! {

/// What a withdrawal works on: the record, the pool that backs it, the caller, and
/// what was read of the pool when the withdrawal was asked for.
#[derive(Clone, Debug, PartialEq, Eq)]
pub struct Withdraw {
    pub bank: Bank,
    /// The value-holder that backs the record.
    pub pool: Identity,
    /// Who asks for the withdrawal, and who receives the value.
    pub user: Identity,
    /// The value held in `pool` now.
    pub backing_value: u64,
    /// The least value `pool` must keep for the record to stay in storage, at today's price.
    pub reserve: u64,
}

impl Withdraw {
    /// What can leave the pool: the backing value beyond the reserve. Negative when the
    /// pool is already below its reserve.
    pub open spec fn available(self) -> int {
        self.backing_value - self.reserve
    }

    /// Why `amount` may not leave, if it may not. The owner check comes first.
    pub open spec fn refusal(self, amount: u64) -> Option<BankError> {
        if self.user != self.bank.owner {
            Some(BankError::NotOwner)
        } else if self.available() < amount {
            Some(BankError::InsufficientFunds)
        } else {
            None
        }
    }

    /// The movement an admitted withdrawal asks of the ledger: `amount` from the pool to
    /// the caller.
    pub open spec fn movement(self, amount: u64) -> Transfer {
        Transfer { from: self.pool, to: self.user, amount }
    }

    /// How the withdrawal ends, given what the ledger answered.
    pub open spec fn outcome(self, amount: u64, moved: Result<(), InsufficientValue>) -> Result<
        (),
        BankError,
    > {
        match self.refusal(amount) {
            Some(e) => Err(e),
            None => if moved is Ok {
                Ok(())
            } else {
                Err(BankError::TransferFailed)
            },
        }
    }

    /// The state after the withdrawal: on success `amount` has left both the balance and
    /// the backing value, otherwise nothing has changed.
    pub open spec fn settled(self, amount: u64, moved: Result<(), InsufficientValue>) -> Withdraw {
        if self.outcome(amount, moved) is Ok {
            Withdraw {
                bank: Bank { balance: (self.bank.balance - amount) as u64, ..self.bank },
                backing_value: (self.backing_value - amount) as u64,
                ..self
            }
        } else {
            self
        }
    }

    /// An admitted withdrawal must not ask for more than the balance: the balance cannot
    /// go below zero.
    pub open spec fn within_limits(self, amount: u64) -> bool {
        self.refusal(amount) is None ==> amount <= self.bank.balance
    }

    /// Tests `within_limits`, for callers that cannot know it beforehand.
    pub fn is_within_limits(&self, amount: u64) -> (r: bool)
        ensures
            r == self.within_limits(amount),
    {
        self.request(amount).is_err() || amount <= self.bank.balance
    }

    /// Decides whether `amount` may leave, before any value moves. Refuses a caller who is
    /// not the owner, then an amount that would breach the reserve; otherwise names the
    /// movement to ask of the ledger. An amount of zero is treated like any other: it is
    /// let through whenever the pool holds its reserve.
    pub fn request(&self, amount: u64) -> (r: Result<Transfer, BankError>)
        ensures
            r == match self.refusal(amount) {
                Some(e) => Err::<Transfer, BankError>(e),
                None => Ok(self.movement(amount)),
            },
    {
        if !self.bank.is_authorized(&self.user) {
            return Err(BankError::NotOwner);
        }
        if self.backing_value < self.reserve || self.backing_value - self.reserve < amount {
            return Err(BankError::InsufficientFunds);
        }
        Ok(Transfer { from: self.pool, to: self.user, amount })
    }

    /// Finishes the withdrawal once the ledger has answered. The balance goes down only
    /// when the withdrawal was admitted and the value has moved.
    pub fn settle(&mut self, amount: u64, moved: Result<(), InsufficientValue>) -> (r: Result<
        (),
        BankError,
    >)
        requires
            moved is Ok ==> old(self).within_limits(amount),
        ensures
            r == old(self).outcome(amount, moved),
            *final(self) == old(self).settled(amount, moved),
            // Only the owner withdraws.
            old(self).user != old(self).bank.owner ==> r == Err::<(), BankError>(
                BankError::NotOwner,
            ),
            // The reserve stays in the pool.
            old(self).user == old(self).bank.owner && old(self).backing_value - amount < old(
                self,
            ).reserve ==> r == Err::<(), BankError>(BankError::InsufficientFunds),
            r is Ok ==> final(self).backing_value >= final(self).reserve,
            // A balance that was backed in full beyond the reserve stays so.
            old(self).available() >= old(self).bank.balance ==> final(self).available()
                >= final(self).bank.balance,
            // Balance and backing value move together, by exactly the amount.
            r is Ok ==> final(self).bank.balance == old(self).bank.balance - amount,
            r is Ok ==> final(self).backing_value == old(self).backing_value - amount,
            // A refusal, by the engine or by the ledger, changes nothing.
            moved is Err ==> r is Err,
            r is Err ==> *final(self) == *old(self),
            // Whatever the outcome, name and owner stay.
            final(self).bank.name == old(self).bank.name,
            final(self).bank.owner == old(self).bank.owner,
    {
        match self.request(amount) {
            Err(e) => Err(e),
            Ok(_) => match moved {
                Err(_) => Err(BankError::TransferFailed),
                Ok(()) => {
                    self.backing_value = self.backing_value - amount;
                    self.bank.balance = self.bank.balance - amount;
                    Ok(())
                },
            },
        }
    }
}

/// Takes `amount` out of the record for its owner.
///
/// The order is fixed: the owner check, then the reserve check, then the movement of
/// value through `move_value`, and only after that the balance. `move_value` is called
/// at most once, with the movement from the pool to the caller, and not at all when the
/// withdrawal is refused. On every failure the context is left as it was. An amount that
/// passes the checks and exceeds the balance may be given only where the ledger cannot
/// move it.
pub fn withdraw<F: FnOnce(Transfer) -> Result<(), InsufficientValue>>(
    ctx: &mut Withdraw,
    amount: u64,
    move_value: F,
) -> (r: Result<(), BankError>)
    requires
        old(ctx).refusal(amount) is None ==> call_requires(
            move_value,
            (old(ctx).movement(amount),),
        ),
        forall|moved: Result<(), InsufficientValue>|
            call_ensures(move_value, (old(ctx).movement(amount),), moved) && moved is Ok
                ==> old(ctx).within_limits(amount),
    ensures
        old(ctx).refusal(amount) matches Some(e) ==> r == Err::<(), BankError>(e),
        old(ctx).refusal(amount) is None ==> exists|moved: Result<(), InsufficientValue>|
            #![trigger old(ctx).outcome(amount, moved)]
            call_ensures(move_value, (old(ctx).movement(amount),), moved) && r == old(
                ctx,
            ).outcome(amount, moved),
        r is Ok ==> *final(ctx) == old(ctx).settled(amount, Ok(())),
        // Only the owner withdraws.
        old(ctx).user != old(ctx).bank.owner ==> r == Err::<(), BankError>(BankError::NotOwner),
        // The reserve stays in the pool.
        old(ctx).user == old(ctx).bank.owner && old(ctx).backing_value - amount < old(
            ctx,
        ).reserve ==> r == Err::<(), BankError>(BankError::InsufficientFunds),
        r is Ok ==> final(ctx).backing_value >= final(ctx).reserve,
        // A balance that was backed in full beyond the reserve stays so.
        old(ctx).available() >= old(ctx).bank.balance ==> final(ctx).available()
            >= final(ctx).bank.balance,
        // Balance and backing value move together, by exactly the amount.
        r is Ok ==> final(ctx).bank.balance == old(ctx).bank.balance - amount,
        r is Ok ==> final(ctx).backing_value == old(ctx).backing_value - amount,
        // A refusal, by the engine or by the ledger, changes nothing.
        r is Err ==> *final(ctx) == *old(ctx),
        // Whatever the outcome, name and owner stay.
        final(ctx).bank.name == old(ctx).bank.name,
        final(ctx).bank.owner == old(ctx).bank.owner,
{
    match ctx.request(amount) {
        Err(e) => Err(e),
        Ok(transfer) => {
            let moved = move_value(transfer);
            ctx.settle(amount, moved)
        },
    }
}

} // verus!
