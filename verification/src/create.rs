use crate::identity::Identity;
use crate::ledger::{Allocation, Unfunded};
use crate::record::{Bank, BankError};
use vstd::prelude::*;

verus! {

/// The size in bytes of the storage that every record is given, whatever it holds.
pub const RECORD_SPACE: usize = 256;

/// The most bytes a record's name may take. Of the `RECORD_SPACE` bytes of storage, 8 tag
/// the record, 4 hold the length of the name, 8 the balance and 32 the owner; the other
/// 204 are for the name.
pub const NAME_CAPACITY: usize = 204;

/// Whether a name can be stored: in UTF-8 it takes no more than `NAME_CAPACITY` bytes.
/// A longer name is not cut short; no record is created under it.
pub open spec fn fits(name: Seq<char>) -> bool {
    vstd::utf8::encode_utf8(name).len() <= NAME_CAPACITY
}

/// Tests `fits`, for callers that cannot know it beforehand.
pub fn name_fits(name: &str) -> (r: bool)
    ensures
        r == fits(name@),
{
    name.as_bytes().len() <= NAME_CAPACITY
}

/// What a creation works on: the slot that belongs to the creator, and the creator.
#[derive(Clone, Debug, PartialEq, Eq)]
pub struct Create {
    /// What the slot holds: `None` while it is free.
    pub bank: Option<Bank>,
    /// Who creates the record, pays for its storage, and becomes its owner.
    pub user: Identity,
}

impl Create {
    /// Why no record may be created, if none may: the slot is taken.
    pub open spec fn refusal(self) -> Option<BankError> {
        if self.bank is Some {
            Some(BankError::AlreadyExists)
        } else {
            None
        }
    }

    /// The storage a creation asks of the store: the fixed record size, paid by the
    /// creator.
    pub open spec fn allocation(self) -> Allocation {
        Allocation { payer: self.user, space: RECORD_SPACE }
    }

    /// How the creation ends, given what the store answered.
    pub open spec fn outcome(self, allocated: Result<(), Unfunded>) -> Result<(), BankError> {
        match self.refusal() {
            Some(e) => Err(e),
            None => if allocated is Ok {
                Ok(())
            } else {
                Err(BankError::AllocationFailed)
            },
        }
    }

    /// The record a successful creation writes: nothing in it yet, owned by the creator.
    pub open spec fn fresh(self, name: String) -> Bank {
        Bank { name, balance: 0, owner: self.user }
    }

    /// The state after the creation: the slot holds the fresh record on success,
    /// otherwise nothing has changed.
    pub open spec fn settled(self, name: String, allocated: Result<(), Unfunded>) -> Create {
        if self.outcome(allocated) is Ok {
            Create { bank: Some(self.fresh(name)), ..self }
        } else {
            self
        }
    }

    /// Decides whether a record may be created, before any storage is asked for. Refuses
    /// when the slot is taken; otherwise names the storage to ask of the store.
    pub fn request(&self) -> (r: Result<Allocation, BankError>)
        ensures
            r == match self.refusal() {
                Some(e) => Err::<Allocation, BankError>(e),
                None => Ok(self.allocation()),
            },
    {
        if self.bank.is_some() {
            return Err(BankError::AlreadyExists);
        }
        Ok(Allocation { payer: self.user, space: RECORD_SPACE })
    }

    /// Finishes the creation once the store has answered. The record is written only when
    /// the slot was free and the storage has been allocated; the name must then fit it.
    pub fn settle(&mut self, name: String, allocated: Result<(), Unfunded>) -> (r: Result<
        (),
        BankError,
    >)
        requires
            old(self).bank is None && allocated is Ok ==> fits(name@),
        ensures
            r == old(self).outcome(allocated),
            *final(self) == old(self).settled(name, allocated),
            old(self).bank is Some ==> r == Err::<(), BankError>(BankError::AlreadyExists),
            old(self).bank is None && allocated is Err ==> r == Err::<(), BankError>(
                BankError::AllocationFailed,
            ),
            r is Ok ==> final(self).bank == Some(
                Bank { name, balance: 0, owner: old(self).user },
            ),
            // What is stored fits the storage.
            r is Ok ==> fits(final(self).bank->0.name@),
            r is Err ==> *final(self) == *old(self),
    {
        match self.request() {
            Err(e) => Err(e),
            Ok(_) => match allocated {
                Err(_) => Err(BankError::AllocationFailed),
                Ok(()) => {
                    self.bank = Some(Bank { name, balance: 0, owner: self.user });
                    Ok(())
                },
            },
        }
    }
}

/// Opens the record of `ctx.user` under the label `name`.
///
/// The order is fixed: the slot check, then the allocation of storage through `allocate`,
/// which is called at most once and not at all when the slot is taken, and only after it
/// has succeeded the record. On every failure the context is left as it was. A name that
/// does not fit the storage may be given only where `allocate` cannot succeed.
pub fn create<F: FnOnce(Allocation) -> Result<(), Unfunded>>(
    ctx: &mut Create,
    name: String,
    allocate: F,
) -> (r: Result<(), BankError>)
    requires
        old(ctx).refusal() is None ==> call_requires(allocate, (old(ctx).allocation(),)),
        old(ctx).refusal() is None ==> forall|allocated: Result<(), Unfunded>|
            call_ensures(allocate, (old(ctx).allocation(),), allocated) && allocated is Ok
                ==> fits(name@),
    ensures
        old(ctx).refusal() matches Some(e) ==> r == Err::<(), BankError>(e),
        old(ctx).refusal() is None ==> exists|allocated: Result<(), Unfunded>|
            #![trigger old(ctx).outcome(allocated)]
            call_ensures(allocate, (old(ctx).allocation(),), allocated) && r == old(
                ctx,
            ).outcome(allocated),
        r is Ok ==> *final(ctx) == old(ctx).settled(name, Ok(())),
        r is Ok ==> final(ctx).bank == Some(Bank { name, balance: 0, owner: old(ctx).user }),
        // What is stored fits the storage.
        r is Ok ==> fits(final(ctx).bank->0.name@),
        r is Err ==> *final(ctx) == *old(ctx),
{
    match ctx.request() {
        Err(e) => Err(e),
        Ok(allocation) => {
            let allocated = allocate(allocation);
            ctx.settle(name, allocated)
        },
    }
}

} // verus!
