//! The operations on positions: open, claim at unlock, and early exit.
//!
//! Each operation checks every condition before it changes anything: on an
//! error, every record it was handed is left as it was.
use vstd::prelude::*;
use crate::borrow::BorrowPool;
use crate::errors::{CustomError, ErrorKind};
use crate::fees::{split_of, team_payout, FeeSchedule};
use crate::founders::FoundersPool;
use crate::identity::Identity;
use crate::position::{
    check_referral, referral_error, LeveragePosition, LockedTokenState, OpenReceipt, PoolState,
    SettleReceipt,
};
use crate::pricing::{compute_mint, compute_value, mint_quantity, settlement_value};

verus! {

/// The part of a team fee that goes to a bound referral.
pub open spec fn referral_part(team: u64, referral_bound: bool) -> u64 {
    if referral_bound {
        team / 2
    } else {
        0
    }
}

/// Lock end for `tier` opened at `now`, if it fits a timestamp.
pub open spec fn lock_end(schedule: FeeSchedule, tier: u64, now: i64) -> Option<i64> {
    let end = now + schedule.lock_seconds(tier);
    if i64::MIN <= end <= i64::MAX {
        Some(end as i64)
    } else {
        None
    }
}

/// Opening a locked purchase of `amount` quote units at `tier`.
pub open spec fn open_lock_spec(
    lock: LockedTokenState,
    founders_total: u64,
    schedule: FeeSchedule,
    pool: PoolState,
    user: Identity,
    amount: u64,
    tier: u64,
    referral: Option<Identity>,
    referral_owner: Option<Identity>,
    now: i64,
) -> Result<(LockedTokenState, OpenReceipt), CustomError> {
    let s = split_of(schedule.rates(tier, false), amount as int);
    let q = mint_quantity(pool.reserve as int, pool.supply as int, s.net_for_mint as int, s.locked as int);
    if lock.initialized {
        Err(CustomError::AlreadyInitialized)
    } else if !schedule.recognizes(tier) {
        Err(CustomError::InvalidLockPeriod)
    } else if q == 0 {
        Err(CustomError::InsufficientAmount)
    } else if q > u64::MAX {
        Err(CustomError::MathOverflow)
    } else if referral_error(referral, referral_owner) is Some {
        Err(referral_error(referral, referral_owner).unwrap())
    } else if lock_end(schedule, tier, now) is None {
        Err(CustomError::MathOverflow)
    } else if founders_total + s.founder > u64::MAX {
        Err(CustomError::MathOverflow)
    } else {
        let to_referral = referral_part(s.team, referral is Some);
        Ok((
            LockedTokenState {
                user,
                amount: q as u64,
                unlock_time: lock_end(schedule, tier, now).unwrap(),
                referral,
                initialized: true,
                lock_days: tier,
            },
            OpenReceipt {
                to_referral,
                to_team: (s.team - to_referral) as u64,
                founder_fee: s.founder,
                to_reserve: (s.net_for_mint + s.locked) as u64,
                from_borrow_pool: 0,
                minted: q as u64,
            },
        ))
    }
}

/// Settling a locked purchase: at or after unlock, or early with the penalty.
pub open spec fn settle_lock_spec(
    lock: LockedTokenState,
    founders_total: u64,
    schedule: FeeSchedule,
    pool: PoolState,
    now: i64,
    early_exit: bool,
    referral_owner: Option<Identity>,
) -> Result<(LockedTokenState, SettleReceipt), CustomError> {
    let v = settlement_value(pool.reserve as int, pool.supply as int, lock.amount as int);
    let s = split_of(schedule.rates(lock.lock_days, early_exit), v);
    if !lock.initialized {
        Err(CustomError::AlreadyClaimed)
    } else if !early_exit && now < lock.unlock_time {
        Err(CustomError::LockPeriodNotOver)
    } else if v > u64::MAX {
        Err(CustomError::MathOverflow)
    } else if referral_error(lock.referral, referral_owner) is Some {
        Err(referral_error(lock.referral, referral_owner).unwrap())
    } else if founders_total + s.founder > u64::MAX {
        Err(CustomError::MathOverflow)
    } else {
        let to_referral = referral_part(s.team, lock.referral is Some);
        Ok((
            LockedTokenState::spec_empty(),
            SettleReceipt {
                burned: lock.amount,
                value: v as u64,
                to_borrow_pool: 0,
                founder_fee: s.founder,
                to_referral,
                to_team: (s.team - to_referral) as u64,
                liquidity_fee: s.locked,
                to_owner: (v - s.fees()) as u64,
            },
        ))
    }
}

/// Buys governed tokens with `amount` quote units and locks them in the
/// buyer's vault until the end of `lock_days`.
pub fn buy_and_lock_token(
    lock: &mut LockedTokenState,
    founders: &mut FoundersPool,
    schedule: FeeSchedule,
    pool: PoolState,
    user: Identity,
    amount: u64,
    lock_days: u64,
    referral: Option<Identity>,
    referral_owner: Option<Identity>,
    now: i64,
) -> (r: Result<OpenReceipt, CustomError>)
    requires
        old(lock).wf(),
        old(founders).wf(),
    ensures
        final(lock).wf(),
        final(founders).wf(),
        match open_lock_spec(
            *old(lock),
            old(founders).total(),
            schedule,
            pool,
            user,
            amount,
            lock_days,
            referral,
            referral_owner,
            now,
        ) {
            Ok((l, rc)) => r == Ok::<OpenReceipt, CustomError>(rc) && *final(lock) == l
                && final(founders).total() == old(founders).total() + rc.founder_fee
                && final(founders).roster() == old(founders).roster() && final(founders).claimed()
                == old(founders).claimed(),
            Err(e) => r == Err::<OpenReceipt, CustomError>(e) && *final(lock) == *old(lock)
                && *final(founders) == *old(founders),
        },
        old(lock).initialized ==> (r matches Err(e) && e.kind_of() == ErrorKind::State),
{
    if lock.initialized {
        return Err(CustomError::AlreadyInitialized);
    }
    if !schedule.is_recognized_tier(lock_days) {
        return Err(CustomError::InvalidLockPeriod);
    }
    let s = schedule.split(amount, lock_days, false);
    let minted = compute_mint(pool.reserve, pool.supply, s.net_for_mint, s.locked)?;
    check_referral(referral, referral_owner)?;
    let unlock_time = match schedule.unlock_time(lock_days, now) {
        Some(t) => t,
        None => {
            return Err(CustomError::MathOverflow);
        },
    };
    if founders.total_collected() > u64::MAX - s.founder {
        return Err(CustomError::MathOverflow);
    }
    let (to_referral, to_team) = team_payout(s.team, referral.is_some());
    founders.record_fee(s.founder);
    *lock = LockedTokenState {
        user,
        amount: minted,
        unlock_time,
        referral,
        initialized: true,
        lock_days,
    };
    Ok(OpenReceipt {
        to_referral,
        to_team,
        founder_fee: s.founder,
        to_reserve: s.net_for_mint + s.locked,
        from_borrow_pool: 0,
        minted,
    })
}

fn settle_lock(
    lock: &mut LockedTokenState,
    founders: &mut FoundersPool,
    schedule: FeeSchedule,
    pool: PoolState,
    now: i64,
    early_exit: bool,
    referral_owner: Option<Identity>,
) -> (r: Result<SettleReceipt, CustomError>)
    requires
        old(lock).wf(),
        old(founders).wf(),
    ensures
        final(lock).wf(),
        final(founders).wf(),
        match settle_lock_spec(
            *old(lock),
            old(founders).total(),
            schedule,
            pool,
            now,
            early_exit,
            referral_owner,
        ) {
            Ok((l, rc)) => r == Ok::<SettleReceipt, CustomError>(rc) && *final(lock) == l
                && final(founders).total() == old(founders).total() + rc.founder_fee
                && final(founders).roster() == old(founders).roster() && final(founders).claimed()
                == old(founders).claimed(),
            Err(e) => r == Err::<SettleReceipt, CustomError>(e) && *final(lock) == *old(lock)
                && *final(founders) == *old(founders),
        },
{
    if !lock.initialized {
        return Err(CustomError::AlreadyClaimed);
    }
    if !early_exit && now < lock.unlock_time {
        return Err(CustomError::LockPeriodNotOver);
    }
    let value = compute_value(pool.reserve, pool.supply, lock.amount)?;
    let s = schedule.split(value, lock.lock_days, early_exit);
    check_referral(lock.referral, referral_owner)?;
    if founders.total_collected() > u64::MAX - s.founder {
        return Err(CustomError::MathOverflow);
    }
    let (to_referral, to_team) = team_payout(s.team, lock.referral.is_some());
    let burned = lock.amount;
    founders.record_fee(s.founder);
    *lock = LockedTokenState::empty();
    Ok(SettleReceipt {
        burned,
        value,
        to_borrow_pool: 0,
        founder_fee: s.founder,
        to_referral,
        to_team,
        liquidity_fee: s.locked,
        to_owner: value - s.team - s.founder - s.locked,
    })
}

/// Settles a locked purchase once its lock has ended: burns the vault's
/// tokens and pays their value, less the scheduled fees, to the owner.
pub fn claim_locked_tokens(
    lock: &mut LockedTokenState,
    founders: &mut FoundersPool,
    schedule: FeeSchedule,
    pool: PoolState,
    now: i64,
    referral_owner: Option<Identity>,
) -> (r: Result<SettleReceipt, CustomError>)
    requires
        old(lock).wf(),
        old(founders).wf(),
    ensures
        final(lock).wf(),
        final(founders).wf(),
        match settle_lock_spec(*old(lock), old(founders).total(), schedule, pool, now, false, referral_owner) {
            Ok((l, rc)) => r == Ok::<SettleReceipt, CustomError>(rc) && *final(lock) == l
                && final(founders).total() == old(founders).total() + rc.founder_fee
                && final(founders).roster() == old(founders).roster() && final(founders).claimed()
                == old(founders).claimed(),
            Err(e) => r == Err::<SettleReceipt, CustomError>(e) && *final(lock) == *old(lock)
                && *final(founders) == *old(founders),
        },
        !old(lock).initialized ==> (r matches Err(e) && e.kind_of() == ErrorKind::State),
        old(lock).initialized && now < old(lock).unlock_time ==> r == Err::<SettleReceipt, CustomError>(
            CustomError::LockPeriodNotOver,
        ),
        r is Ok ==> *final(lock) == LockedTokenState::spec_empty(),
{
    settle_lock(lock, founders, schedule, pool, now, false, referral_owner)
}

/// Settles a locked purchase before its lock ends, with the early-exit
/// penalty added to the team fee.
pub fn early_unlock_tokens(
    lock: &mut LockedTokenState,
    founders: &mut FoundersPool,
    schedule: FeeSchedule,
    pool: PoolState,
    referral_owner: Option<Identity>,
) -> (r: Result<SettleReceipt, CustomError>)
    requires
        old(lock).wf(),
        old(founders).wf(),
    ensures
        final(lock).wf(),
        final(founders).wf(),
        match settle_lock_spec(*old(lock), old(founders).total(), schedule, pool, 0, true, referral_owner) {
            Ok((l, rc)) => r == Ok::<SettleReceipt, CustomError>(rc) && *final(lock) == l
                && final(founders).total() == old(founders).total() + rc.founder_fee
                && final(founders).roster() == old(founders).roster() && final(founders).claimed()
                == old(founders).claimed(),
            Err(e) => r == Err::<SettleReceipt, CustomError>(e) && *final(lock) == *old(lock)
                && *final(founders) == *old(founders),
        },
        !old(lock).initialized ==> (r matches Err(e) && e.kind_of() == ErrorKind::State),
{
    settle_lock(lock, founders, schedule, pool, 0, true, referral_owner)
}


/// Opening a leveraged purchase: `amount` from the buyer, `amount *
/// (multiplier - 1)` borrowed from the borrow pool holding `borrow_deposited`.
pub open spec fn open_leverage_spec(
    position: LeveragePosition,
    founders_total: u64,
    borrow_deposited: u64,
    schedule: FeeSchedule,
    pool: PoolState,
    user: Identity,
    amount: u64,
    multiplier: u64,
    tier: u64,
    referral: Option<Identity>,
    referral_owner: Option<Identity>,
    now: i64,
) -> Result<(LeveragePosition, OpenReceipt), CustomError> {
    let total = amount * multiplier;
    let borrowed = total - amount;
    let s = split_of(schedule.rates(tier, false), total);
    let q = mint_quantity(pool.reserve as int, pool.supply as int, s.net_for_mint as int, s.locked as int);
    if !(1 <= multiplier <= 5) {
        Err(CustomError::InvalidLeverageMultiplier)
    } else if position.initialized {
        Err(CustomError::AlreadyInitialized)
    } else if !schedule.recognizes(tier) {
        Err(CustomError::InvalidLockPeriod)
    } else if total > u64::MAX {
        Err(CustomError::MathOverflow)
    } else if borrow_deposited < borrowed {
        Err(CustomError::InsufficientBorrowPool)
    } else if amount < s.fees() {
        Err(CustomError::InsufficientAmount)
    } else if q == 0 {
        Err(CustomError::InsufficientAmount)
    } else if q > u64::MAX {
        Err(CustomError::MathOverflow)
    } else if referral_error(referral, referral_owner) is Some {
        Err(referral_error(referral, referral_owner).unwrap())
    } else if lock_end(schedule, tier, now) is None {
        Err(CustomError::MathOverflow)
    } else if founders_total + s.founder > u64::MAX {
        Err(CustomError::MathOverflow)
    } else {
        let to_referral = referral_part(s.team, referral is Some);
        Ok((
            LeveragePosition {
                user,
                amount_user_paid: amount,
                amount_borrowed: borrowed as u64,
                unlock_time: lock_end(schedule, tier, now).unwrap(),
                referral,
                initialized: true,
                lock_days: tier,
                amount_minted: q as u64,
            },
            OpenReceipt {
                to_referral,
                to_team: (s.team - to_referral) as u64,
                founder_fee: s.founder,
                to_reserve: (amount - s.team - s.founder) as u64,
                from_borrow_pool: borrowed as u64,
                minted: q as u64,
            },
        ))
    }
}

/// Settling a leveraged position: the borrowed capital goes back to the
/// borrow pool first, and the value must cover it and the fees.
pub open spec fn settle_leverage_spec(
    position: LeveragePosition,
    founders_total: u64,
    schedule: FeeSchedule,
    pool: PoolState,
    now: i64,
    early_exit: bool,
    referral_owner: Option<Identity>,
) -> Result<(LeveragePosition, SettleReceipt), CustomError> {
    let v = settlement_value(pool.reserve as int, pool.supply as int, position.amount_minted as int);
    let s = split_of(schedule.rates(position.lock_days, early_exit), v);
    if !position.initialized {
        Err(CustomError::AlreadyClaimed)
    } else if !early_exit && now < position.unlock_time {
        Err(CustomError::LockPeriodNotOver)
    } else if v > u64::MAX {
        Err(CustomError::MathOverflow)
    } else if v < position.amount_borrowed + s.fees() {
        Err(CustomError::InsufficientAmount)
    } else if referral_error(position.referral, referral_owner) is Some {
        Err(referral_error(position.referral, referral_owner).unwrap())
    } else if founders_total + s.founder > u64::MAX {
        Err(CustomError::MathOverflow)
    } else {
        let to_referral = referral_part(s.team, position.referral is Some);
        Ok((
            LeveragePosition::spec_empty(),
            SettleReceipt {
                burned: position.amount_minted,
                value: v as u64,
                to_borrow_pool: position.amount_borrowed,
                founder_fee: s.founder,
                to_referral,
                to_team: (s.team - to_referral) as u64,
                liquidity_fee: s.locked,
                to_owner: (v - position.amount_borrowed - s.fees()) as u64,
            },
        ))
    }
}

/// The borrow pool after a settlement returns `amount` to it.
pub open spec fn repaid(deposited: u64, amount: u64) -> u64 {
    if deposited + amount <= u64::MAX {
        (deposited + amount) as u64
    } else {
        u64::MAX
    }
}

/// Buys governed tokens with `amount` quote units times `leverage_multiplier`,
/// borrowing all but `amount` from the borrow pool, and locks them in the
/// buyer's leverage vault until the end of `lock_days`.
pub fn leverage(
    position: &mut LeveragePosition,
    founders: &mut FoundersPool,
    borrow_pool: &mut BorrowPool,
    schedule: FeeSchedule,
    pool: PoolState,
    user: Identity,
    amount: u64,
    leverage_multiplier: u64,
    lock_days: u64,
    referral: Option<Identity>,
    referral_owner: Option<Identity>,
    now: i64,
) -> (r: Result<OpenReceipt, CustomError>)
    requires
        old(position).wf(),
        old(founders).wf(),
    ensures
        final(position).wf(),
        final(founders).wf(),
        final(borrow_pool).is_initialized() == old(borrow_pool).is_initialized(),
        match open_leverage_spec(
            *old(position),
            old(founders).total(),
            old(borrow_pool).deposited(),
            schedule,
            pool,
            user,
            amount,
            leverage_multiplier,
            lock_days,
            referral,
            referral_owner,
            now,
        ) {
            Ok((p, rc)) => r == Ok::<OpenReceipt, CustomError>(rc) && *final(position) == p
                && final(founders).total() == old(founders).total() + rc.founder_fee
                && final(founders).roster() == old(founders).roster() && final(founders).claimed()
                == old(founders).claimed() && final(borrow_pool).deposited()
                == old(borrow_pool).deposited() - rc.from_borrow_pool,
            Err(e) => r == Err::<OpenReceipt, CustomError>(e) && *final(position) == *old(position)
                && *final(founders) == *old(founders) && final(borrow_pool).deposited()
                == old(borrow_pool).deposited(),
        },
        old(position).initialized && 1 <= leverage_multiplier <= 5 ==> (r matches Err(e)
            && e.kind_of() == ErrorKind::State),
{
    if leverage_multiplier < 1 || leverage_multiplier > 5 {
        return Err(CustomError::InvalidLeverageMultiplier);
    }
    if position.initialized {
        return Err(CustomError::AlreadyInitialized);
    }
    if !schedule.is_recognized_tier(lock_days) {
        return Err(CustomError::InvalidLockPeriod);
    }
    let total = match amount.checked_mul(leverage_multiplier) {
        Some(t) => t,
        None => {
            return Err(CustomError::MathOverflow);
        },
    };
    assert(total >= amount) by (nonlinear_arith)
        requires
            total == amount * leverage_multiplier,
            leverage_multiplier >= 1,
            amount >= 0,
    ;
    let borrowed = total - amount;
    if borrow_pool.total_deposited() < borrowed {
        return Err(CustomError::InsufficientBorrowPool);
    }
    let s = schedule.split(total, lock_days, false);
    if amount < s.team || amount - s.team < s.founder || amount - s.team - s.founder < s.locked {
        return Err(CustomError::InsufficientAmount);
    }
    let minted = compute_mint(pool.reserve, pool.supply, s.net_for_mint, s.locked)?;
    check_referral(referral, referral_owner)?;
    let unlock_time = match schedule.unlock_time(lock_days, now) {
        Some(t) => t,
        None => {
            return Err(CustomError::MathOverflow);
        },
    };
    if founders.total_collected() > u64::MAX - s.founder {
        return Err(CustomError::MathOverflow);
    }
    let (to_referral, to_team) = team_payout(s.team, referral.is_some());
    let reserved = borrow_pool.reserve_for_leverage(borrowed);
    founders.record_fee(s.founder);
    *position = LeveragePosition {
        user,
        amount_user_paid: amount,
        amount_borrowed: borrowed,
        unlock_time,
        referral,
        initialized: true,
        lock_days,
        amount_minted: minted,
    };
    Ok(OpenReceipt {
        to_referral,
        to_team,
        founder_fee: s.founder,
        to_reserve: amount - s.team - s.founder,
        from_borrow_pool: borrowed,
        minted,
    })
}

fn settle_leverage(
    position: &mut LeveragePosition,
    founders: &mut FoundersPool,
    borrow_pool: &mut BorrowPool,
    schedule: FeeSchedule,
    pool: PoolState,
    now: i64,
    early_exit: bool,
    referral_owner: Option<Identity>,
) -> (r: Result<SettleReceipt, CustomError>)
    requires
        old(position).wf(),
        old(founders).wf(),
    ensures
        final(position).wf(),
        final(founders).wf(),
        final(borrow_pool).is_initialized() == old(borrow_pool).is_initialized(),
        match settle_leverage_spec(
            *old(position),
            old(founders).total(),
            schedule,
            pool,
            now,
            early_exit,
            referral_owner,
        ) {
            Ok((p, rc)) => r == Ok::<SettleReceipt, CustomError>(rc) && *final(position) == p
                && final(founders).total() == old(founders).total() + rc.founder_fee
                && final(founders).roster() == old(founders).roster() && final(founders).claimed()
                == old(founders).claimed() && final(borrow_pool).deposited() == repaid(
                old(borrow_pool).deposited(),
                rc.to_borrow_pool,
            ),
            Err(e) => r == Err::<SettleReceipt, CustomError>(e) && *final(position) == *old(position)
                && *final(founders) == *old(founders) && final(borrow_pool).deposited()
                == old(borrow_pool).deposited(),
        },
{
    if !position.initialized {
        return Err(CustomError::AlreadyClaimed);
    }
    if !early_exit && now < position.unlock_time {
        return Err(CustomError::LockPeriodNotOver);
    }
    let value = compute_value(pool.reserve, pool.supply, position.amount_minted)?;
    let s = schedule.split(value, position.lock_days, early_exit);
    let borrowed = position.amount_borrowed;
    if s.net_for_mint < borrowed {
        return Err(CustomError::InsufficientAmount);
    }
    check_referral(position.referral, referral_owner)?;
    if founders.total_collected() > u64::MAX - s.founder {
        return Err(CustomError::MathOverflow);
    }
    let (to_referral, to_team) = team_payout(s.team, position.referral.is_some());
    let burned = position.amount_minted;
    borrow_pool.repay(borrowed);
    founders.record_fee(s.founder);
    *position = LeveragePosition::empty();
    Ok(SettleReceipt {
        burned,
        value,
        to_borrow_pool: borrowed,
        founder_fee: s.founder,
        to_referral,
        to_team,
        liquidity_fee: s.locked,
        to_owner: s.net_for_mint - borrowed,
    })
}

/// Settles a leveraged position once its lock has ended: burns the vault's
/// tokens, returns the borrowed capital to the borrow pool and pays the
/// rest of the value, less the scheduled fees, to the owner.
pub fn claim_leverage_tokens(
    position: &mut LeveragePosition,
    founders: &mut FoundersPool,
    borrow_pool: &mut BorrowPool,
    schedule: FeeSchedule,
    pool: PoolState,
    now: i64,
    referral_owner: Option<Identity>,
) -> (r: Result<SettleReceipt, CustomError>)
    requires
        old(position).wf(),
        old(founders).wf(),
    ensures
        final(position).wf(),
        final(founders).wf(),
        final(borrow_pool).is_initialized() == old(borrow_pool).is_initialized(),
        match settle_leverage_spec(*old(position), old(founders).total(), schedule, pool, now, false, referral_owner) {
            Ok((p, rc)) => r == Ok::<SettleReceipt, CustomError>(rc) && *final(position) == p
                && final(founders).total() == old(founders).total() + rc.founder_fee
                && final(founders).roster() == old(founders).roster() && final(founders).claimed()
                == old(founders).claimed() && final(borrow_pool).deposited() == repaid(
                old(borrow_pool).deposited(),
                rc.to_borrow_pool,
            ),
            Err(e) => r == Err::<SettleReceipt, CustomError>(e) && *final(position) == *old(position)
                && *final(founders) == *old(founders) && final(borrow_pool).deposited()
                == old(borrow_pool).deposited(),
        },
        !old(position).initialized ==> (r matches Err(e) && e.kind_of() == ErrorKind::State),
        old(position).initialized && now < old(position).unlock_time ==> r == Err::<
            SettleReceipt,
            CustomError,
        >(CustomError::LockPeriodNotOver),
{
    settle_leverage(position, founders, borrow_pool, schedule, pool, now, false, referral_owner)
}

/// Settles a leveraged position before its lock ends, with the early-exit
/// penalty added to the team fee.
pub fn early_close_leverage(
    position: &mut LeveragePosition,
    founders: &mut FoundersPool,
    borrow_pool: &mut BorrowPool,
    schedule: FeeSchedule,
    pool: PoolState,
    referral_owner: Option<Identity>,
) -> (r: Result<SettleReceipt, CustomError>)
    requires
        old(position).wf(),
        old(founders).wf(),
    ensures
        final(position).wf(),
        final(founders).wf(),
        final(borrow_pool).is_initialized() == old(borrow_pool).is_initialized(),
        match settle_leverage_spec(*old(position), old(founders).total(), schedule, pool, 0, true, referral_owner) {
            Ok((p, rc)) => r == Ok::<SettleReceipt, CustomError>(rc) && *final(position) == p
                && final(founders).total() == old(founders).total() + rc.founder_fee
                && final(founders).roster() == old(founders).roster() && final(founders).claimed()
                == old(founders).claimed() && final(borrow_pool).deposited() == repaid(
                old(borrow_pool).deposited(),
                rc.to_borrow_pool,
            ),
            Err(e) => r == Err::<SettleReceipt, CustomError>(e) && *final(position) == *old(position)
                && *final(founders) == *old(founders) && final(borrow_pool).deposited()
                == old(borrow_pool).deposited(),
        },
        !old(position).initialized ==> (r matches Err(e) && e.kind_of() == ErrorKind::State),
{
    settle_leverage(position, founders, borrow_pool, schedule, pool, 0, true, referral_owner)
}

/// Opening over an active position fails with a state error, and so does
/// settling an inactive one, for locked and for leveraged positions alike.
pub proof fn lemma_state_errors(
    lock: LockedTokenState,
    position: LeveragePosition,
    founders_total: u64,
    borrow_deposited: u64,
    schedule: FeeSchedule,
    pool: PoolState,
    user: Identity,
    amount: u64,
    multiplier: u64,
    tier: u64,
    referral: Option<Identity>,
    referral_owner: Option<Identity>,
    now: i64,
    early_exit: bool,
)
    ensures
        lock.initialized ==> (open_lock_spec(
            lock,
            founders_total,
            schedule,
            pool,
            user,
            amount,
            tier,
            referral,
            referral_owner,
            now,
        ) matches Err(e) && e.kind_of() == ErrorKind::State),
        !lock.initialized ==> (settle_lock_spec(
            lock,
            founders_total,
            schedule,
            pool,
            now,
            early_exit,
            referral_owner,
        ) matches Err(e) && e.kind_of() == ErrorKind::State),
        position.initialized && 1 <= multiplier <= 5 ==> (open_leverage_spec(
            position,
            founders_total,
            borrow_deposited,
            schedule,
            pool,
            user,
            amount,
            multiplier,
            tier,
            referral,
            referral_owner,
            now,
        ) matches Err(e) && e.kind_of() == ErrorKind::State),
        !position.initialized ==> (settle_leverage_spec(
            position,
            founders_total,
            schedule,
            pool,
            now,
            early_exit,
            referral_owner,
        ) matches Err(e) && e.kind_of() == ErrorKind::State),
{
}

/// Opening a lock on an empty record and claiming it at or after its unlock
/// time burns exactly the minted tokens, pays the owner the value less the
/// founder, team and liquidity fees, and leaves the record empty. The claim
/// can fail only on arithmetic overflow.
pub proof fn lemma_lock_round_trip(
    founders_total: u64,
    schedule: FeeSchedule,
    pool: PoolState,
    user: Identity,
    amount: u64,
    tier: u64,
    referral: Option<Identity>,
    referral_owner: Option<Identity>,
    now: i64,
    founders_total_at_claim: u64,
    pool_at_claim: PoolState,
    claim_time: i64,
)
    ensures
        open_lock_spec(
            LockedTokenState::spec_empty(),
            founders_total,
            schedule,
            pool,
            user,
            amount,
            tier,
            referral,
            referral_owner,
            now,
        ) matches Ok((lock, opened)) ==> (claim_time >= lock.unlock_time ==> match settle_lock_spec(
            lock,
            founders_total_at_claim,
            schedule,
            pool_at_claim,
            claim_time,
            false,
            referral_owner,
        ) {
            Ok((after, settled)) => {
                &&& settled.burned == opened.minted
                &&& settled.burned == lock.amount
                &&& settled.to_owner == settled.value - settled.founder_fee - (settled.to_team
                    + settled.to_referral) - settled.liquidity_fee
                &&& after == LockedTokenState::spec_empty()
                &&& !after.initialized && after.amount == 0 && after.unlock_time == 0
                    && after.lock_days == 0
            },
            Err(e) => e == CustomError::MathOverflow,
        }),
{
    let opened = open_lock_spec(
        LockedTokenState::spec_empty(),
        founders_total,
        schedule,
        pool,
        user,
        amount,
        tier,
        referral,
        referral_owner,
        now,
    );
    if let Ok((lock, _)) = opened {
        let v = settlement_value(pool_at_claim.reserve as int, pool_at_claim.supply as int, lock.amount as int);
        crate::fees::lemma_rates_leave_residual(schedule, lock.lock_days, false, v as u64);
        if v <= u64::MAX {
            crate::fees::lemma_split_leaves_residual(schedule.rates(lock.lock_days, false), v);
        }
    }
}

/// An active lock claimed at or after its unlock time is settled and its
/// record emptied, unless its value or the founders' total overflows or the
/// bound referral's account does not match.
pub proof fn lemma_claim_at_unlock(
    lock: LockedTokenState,
    founders_total: u64,
    schedule: FeeSchedule,
    pool: PoolState,
    now: i64,
    referral_owner: Option<Identity>,
)
    requires
        lock.initialized,
        now >= lock.unlock_time,
        settlement_value(pool.reserve as int, pool.supply as int, lock.amount as int) <= u64::MAX,
        referral_error(lock.referral, referral_owner) is None,
        founders_total + split_of(
            schedule.rates(lock.lock_days, false),
            settlement_value(pool.reserve as int, pool.supply as int, lock.amount as int),
        ).founder <= u64::MAX,
    ensures
        settle_lock_spec(lock, founders_total, schedule, pool, now, false, referral_owner) matches Ok(
            (after, settled),
        ) && after == LockedTokenState::spec_empty() && settled.burned == lock.amount,
{
}

/// Every unit of a purchase or a settlement is accounted for: the legs of an
/// opening receipt add up to what the buyer pays, and the legs of a
/// settlement receipt add up to the value of the burned tokens.
pub proof fn lemma_receipts_conserve_funds(
    lock: LockedTokenState,
    position: LeveragePosition,
    founders_total: u64,
    borrow_deposited: u64,
    schedule: FeeSchedule,
    pool: PoolState,
    user: Identity,
    amount: u64,
    multiplier: u64,
    tier: u64,
    referral: Option<Identity>,
    referral_owner: Option<Identity>,
    now: i64,
    early_exit: bool,
)
    ensures
        open_lock_spec(lock, founders_total, schedule, pool, user, amount, tier, referral, referral_owner, now)
            matches Ok((_, rc)) ==> rc.to_referral + rc.to_team + rc.founder_fee + rc.to_reserve
            == amount,
        open_leverage_spec(
            position,
            founders_total,
            borrow_deposited,
            schedule,
            pool,
            user,
            amount,
            multiplier,
            tier,
            referral,
            referral_owner,
            now,
        ) matches Ok((_, rc)) ==> rc.to_referral + rc.to_team + rc.founder_fee + rc.to_reserve
            == amount,
        settle_lock_spec(lock, founders_total, schedule, pool, now, early_exit, referral_owner)
            matches Ok((_, rc)) ==> rc.to_borrow_pool + rc.founder_fee + rc.to_referral + rc.to_team
            + rc.liquidity_fee + rc.to_owner == rc.value,
        settle_leverage_spec(position, founders_total, schedule, pool, now, early_exit, referral_owner)
            matches Ok((_, rc)) ==> rc.to_borrow_pool + rc.founder_fee + rc.to_referral + rc.to_team
            + rc.liquidity_fee + rc.to_owner == rc.value,
{
    crate::fees::lemma_split_leaves_residual(schedule.rates(tier, false), amount as int);
    if amount * multiplier <= u64::MAX {
        crate::fees::lemma_split_leaves_residual(schedule.rates(tier, false), amount * multiplier);
    }
    let v = settlement_value(pool.reserve as int, pool.supply as int, lock.amount as int);
    if 0 <= v <= u64::MAX {
        crate::fees::lemma_split_leaves_residual(schedule.rates(lock.lock_days, early_exit), v);
    }
    let w = settlement_value(pool.reserve as int, pool.supply as int, position.amount_minted as int);
    if 0 <= w <= u64::MAX {
        crate::fees::lemma_split_leaves_residual(schedule.rates(position.lock_days, early_exit), w);
    }
}

} // verus!
