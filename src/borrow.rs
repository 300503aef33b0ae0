//! The borrow pool: shared capital lent to leveraged positions.
use vstd::prelude::*;
use crate::errors::CustomError;
use crate::identity::Identity;

verus! {

pub struct BorrowPool {
    total_deposited: u64,
    initialized: bool,
}

impl BorrowPool {
    /// Capital the pool holds and can lend.
    pub closed spec fn deposited(&self) -> u64 {
        self.total_deposited
    }

    pub closed spec fn is_initialized(&self) -> bool {
        self.initialized
    }

    /// A pool not yet initialized, holding nothing.
    pub fn new() -> (r: BorrowPool)
        ensures
            r.deposited() == 0,
            !r.is_initialized(),
    {
        BorrowPool { total_deposited: 0, initialized: false }
    }

    /// Rebuilds a pool from its stored fields.
    pub fn from_parts(total_deposited: u64, initialized: bool) -> (r: BorrowPool)
        ensures
            r.deposited() == total_deposited,
            r.is_initialized() == initialized,
    {
        BorrowPool { total_deposited, initialized }
    }

    pub fn total_deposited(&self) -> (r: u64)
        ensures
            r == self.deposited(),
    {
        self.total_deposited
    }

    pub fn initialized(&self) -> (r: bool)
        ensures
            r == self.is_initialized(),
    {
        self.initialized
    }

    /// Marks the pool initialized, holding nothing; once only.
    pub fn initialize_borrow_pool(&mut self) -> (r: Result<(), CustomError>)
        ensures
            old(self).is_initialized() ==> r == Err::<(), CustomError>(
                CustomError::AlreadyInitialized,
            ) && *final(self) == *old(self),
            !old(self).is_initialized() ==> r is Ok && final(self).is_initialized()
                && final(self).deposited() == 0,
    {
        if self.initialized {
            return Err(CustomError::AlreadyInitialized);
        }
        self.total_deposited = 0;
        self.initialized = true;
        Ok(())
    }

    /// The team adds `amount` to the pool.
    pub fn deposit_to_borrow_pool(&mut self, caller: Identity, team: Identity, amount: u64) -> (r:
        Result<(), CustomError>)
        ensures
            caller != team ==> r == Err::<(), CustomError>(CustomError::Unauthorized),
            caller == team && old(self).deposited() + amount > u64::MAX ==> r == Err::<
                (),
                CustomError,
            >(CustomError::MathOverflow),
            caller == team && old(self).deposited() + amount <= u64::MAX ==> r is Ok
                && final(self).deposited() == old(self).deposited() + amount,
            final(self).is_initialized() == old(self).is_initialized(),
            r is Err ==> *final(self) == *old(self),
    {
        if caller != team {
            return Err(CustomError::Unauthorized);
        }
        match self.total_deposited.checked_add(amount) {
            Some(t) => {
                self.total_deposited = t;
                Ok(())
            },
            None => Err(CustomError::MathOverflow),
        }
    }

    /// The team takes `amount` out of the pool; the recorded total stops at zero.
    pub fn withdraw_from_borrow_pool(&mut self, caller: Identity, team: Identity, amount: u64) -> (r:
        Result<(), CustomError>)
        ensures
            caller != team ==> r == Err::<(), CustomError>(CustomError::Unauthorized)
                && *final(self) == *old(self),
            caller == team ==> r is Ok && final(self).deposited() == (if old(self).deposited()
                >= amount {
                old(self).deposited() - amount
            } else {
                0
            }),
            final(self).is_initialized() == old(self).is_initialized(),
    {
        if caller != team {
            return Err(CustomError::Unauthorized);
        }
        self.total_deposited = self.total_deposited.saturating_sub(amount);
        Ok(())
    }

    /// Takes `borrow_amount` out of the pool to fund a leveraged position.
    pub fn reserve_for_leverage(&mut self, borrow_amount: u64) -> (r: Result<(), CustomError>)
        ensures
            old(self).deposited() < borrow_amount ==> r == Err::<(), CustomError>(
                CustomError::InsufficientBorrowPool,
            ) && *final(self) == *old(self),
            old(self).deposited() >= borrow_amount ==> r is Ok && final(self).deposited()
                == old(self).deposited() - borrow_amount,
            final(self).is_initialized() == old(self).is_initialized(),
    {
        if self.total_deposited < borrow_amount {
            return Err(CustomError::InsufficientBorrowPool);
        }
        self.total_deposited = self.total_deposited - borrow_amount;
        Ok(())
    }

    /// Returns `borrow_amount` to the pool; the recorded total stops at its maximum.
    pub fn repay(&mut self, borrow_amount: u64)
        ensures
            final(self).deposited() == (if old(self).deposited() + borrow_amount <= u64::MAX {
                (old(self).deposited() + borrow_amount) as u64
            } else {
                u64::MAX
            }),
            final(self).is_initialized() == old(self).is_initialized(),
    {
        self.total_deposited = self.total_deposited.saturating_add(borrow_amount);
    }
}

} // verus!
