//! Fee tiers and the split of a gross quote-asset amount into fee legs.
use vstd::prelude::*;

verus! {

/// One basis point is a ten-thousandth.
pub const BPS_DENOMINATOR: u64 = 10_000;

/// Extra team fee, in basis points, charged when a position is closed early.
pub const EARLY_EXIT_PENALTY_BPS: u64 = 50;

/// Fee rates, in basis points, for one tier.
#[derive(Clone, Copy, Debug, PartialEq, Eq, Structural)]
pub struct LockFeeConfig {
    pub liquidity_bps: u64,
    pub team_bps: u64,
    pub founder_bps: u64,
}

impl LockFeeConfig {
    pub open spec fn total_bps(self) -> int {
        self.liquidity_bps + self.team_bps + self.founder_bps
    }

    /// The same rates with the early-exit penalty added to the team share.
    pub open spec fn penalized(self) -> LockFeeConfig {
        LockFeeConfig {
            liquidity_bps: self.liquidity_bps,
            team_bps: (self.team_bps + EARLY_EXIT_PENALTY_BPS) as u64,
            founder_bps: self.founder_bps,
        }
    }

    pub fn with_early_exit_penalty(&self) -> (r: LockFeeConfig)
        requires
            self.team_bps + EARLY_EXIT_PENALTY_BPS <= u64::MAX,
        ensures
            r == self.penalized(),
    {
        LockFeeConfig {
            liquidity_bps: self.liquidity_bps,
            team_bps: self.team_bps + EARLY_EXIT_PENALTY_BPS,
            founder_bps: self.founder_bps,
        }
    }

    /// Splits `gross` into the team, founder and locked-liquidity legs and
    /// what is left for the purchase.
    pub fn split(&self, gross: u64) -> (r: FeeSplit)
        requires
            self.total_bps() < BPS_DENOMINATOR,
        ensures
            r == split_of(*self, gross as int),
            r.net_for_mint == gross - r.fees(),
            r.net_for_mint > 0 <== gross > 0,
    {
        proof {
            lemma_split_leaves_residual(*self, gross as int);
        }
        let team = bps_amount(gross, self.team_bps);
        let founder = bps_amount(gross, self.founder_bps);
        let locked = bps_amount(gross, self.liquidity_bps);
        FeeSplit { team, founder, locked, net_for_mint: gross - team - founder - locked }
    }
}

/// The legs of a split amount.
#[derive(Clone, Copy, Debug, PartialEq, Eq, Structural)]
pub struct FeeSplit {
    pub team: u64,
    pub founder: u64,
    pub locked: u64,
    pub net_for_mint: u64,
}

impl FeeSplit {
    pub open spec fn fees(self) -> int {
        self.team + self.founder + self.locked
    }
}

/// `gross * bps / 10000`, rounded down.
pub open spec fn bps_share(gross: int, bps: int) -> int {
    gross * bps / BPS_DENOMINATOR as int
}

pub open spec fn split_of(c: LockFeeConfig, gross: int) -> FeeSplit {
    let team = bps_share(gross, c.team_bps as int);
    let founder = bps_share(gross, c.founder_bps as int);
    let locked = bps_share(gross, c.liquidity_bps as int);
    FeeSplit {
        team: team as u64,
        founder: founder as u64,
        locked: locked as u64,
        net_for_mint: (gross - team - founder - locked) as u64,
    }
}

proof fn lemma_bps_share_bounds(gross: int, bps: int)
    requires
        0 <= gross,
        0 <= bps,
    ensures
        0 <= bps_share(gross, bps),
        bps_share(gross, bps) * 10000 <= gross * bps,
        bps <= 10000 ==> bps_share(gross, bps) <= gross,
{
    assert(0 <= gross * bps) by (nonlinear_arith)
        requires
            0 <= gross,
            0 <= bps,
    ;
    assert(bps <= 10000 ==> gross * bps <= gross * 10000) by (nonlinear_arith)
        requires
            0 <= gross,
            0 <= bps,
    ;
}

/// Every leg of a split fits its type, and for `gross > 0` the residual left
/// for the purchase is positive whenever the rates sum below 10000.
pub proof fn lemma_split_leaves_residual(c: LockFeeConfig, gross: int)
    requires
        0 <= gross <= u64::MAX,
        c.total_bps() < BPS_DENOMINATOR,
    ensures
        0 <= bps_share(gross, c.team_bps as int) <= gross,
        0 <= bps_share(gross, c.founder_bps as int) <= gross,
        0 <= bps_share(gross, c.liquidity_bps as int) <= gross,
        0 <= gross - bps_share(gross, c.team_bps as int) - bps_share(gross, c.founder_bps as int)
            - bps_share(gross, c.liquidity_bps as int),
        gross > 0 ==> gross - bps_share(gross, c.team_bps as int) - bps_share(
            gross,
            c.founder_bps as int,
        ) - bps_share(gross, c.liquidity_bps as int) > 0,
{
    let t = c.team_bps as int;
    let f = c.founder_bps as int;
    let l = c.liquidity_bps as int;
    lemma_bps_share_bounds(gross, t);
    lemma_bps_share_bounds(gross, f);
    lemma_bps_share_bounds(gross, l);
    let st = bps_share(gross, t);
    let sf = bps_share(gross, f);
    let sl = bps_share(gross, l);
    assert(gross * t + gross * f + gross * l == gross * (t + f + l)) by (nonlinear_arith);
    assert(gross > 0 ==> gross * (t + f + l) < gross * 10000) by (nonlinear_arith)
        requires
            t + f + l < 10000,
    ;
    assert(gross * (t + f + l) <= gross * 10000) by (nonlinear_arith)
        requires
            t + f + l < 10000,
            gross >= 0,
    ;
}

/// `gross * bps / 10000`, rounded down.
pub fn bps_amount(gross: u64, bps: u64) -> (r: u64)
    requires
        bps <= BPS_DENOMINATOR,
    ensures
        r == bps_share(gross as int, bps as int),
{
    proof {
        lemma_bps_share_bounds(gross as int, bps as int);
        assert((gross as int) * (bps as int) <= u64::MAX * 10000) by (nonlinear_arith)
            requires
                gross <= u64::MAX,
                bps <= 10000,
        ;
    }
    let wide = (gross as u128) * (bps as u128) / (BPS_DENOMINATOR as u128);
    wide as u64
}

/// How a team fee is paid out: half to a bound referral (rounded down), the
/// rest to the team; all of it to the team when no referral is bound.
pub fn team_payout(team: u64, referral_bound: bool) -> (r: (u64, u64))
    ensures
        r.0 == (if referral_bound { team / 2 } else { 0 }),
        r.0 + r.1 == team,
{
    if referral_bound {
        (team / 2, team - team / 2)
    } else {
        (0, team)
    }
}


/// Fee rates by lock length in days, with the longest-lock rates for anything
/// past 90 days (and for 31).
pub open spec fn daily_config(lock_days: u64) -> LockFeeConfig {
    if lock_days <= 3 {
        LockFeeConfig { liquidity_bps: 150, team_bps: 75, founder_bps: 25 }
    } else if lock_days <= 7 {
        LockFeeConfig { liquidity_bps: 225, team_bps: 100, founder_bps: 25 }
    } else if lock_days <= 14 {
        LockFeeConfig { liquidity_bps: 300, team_bps: 125, founder_bps: 25 }
    } else if lock_days <= 30 {
        LockFeeConfig { liquidity_bps: 375, team_bps: 150, founder_bps: 25 }
    } else if 32 <= lock_days <= 60 {
        LockFeeConfig { liquidity_bps: 450, team_bps: 175, founder_bps: 25 }
    } else if 61 <= lock_days <= 90 {
        LockFeeConfig { liquidity_bps: 550, team_bps: 200, founder_bps: 25 }
    } else {
        LockFeeConfig { liquidity_bps: 725, team_bps: 250, founder_bps: 25 }
    }
}

/// Fee rates by lock length in hours; unlisted lengths pay the highest rates.
pub open spec fn hourly_config(lock_hours: u64) -> LockFeeConfig {
    if lock_hours == 1 {
        LockFeeConfig { liquidity_bps: 150, team_bps: 75, founder_bps: 25 }
    } else if lock_hours == 2 {
        LockFeeConfig { liquidity_bps: 225, team_bps: 100, founder_bps: 25 }
    } else if lock_hours == 3 {
        LockFeeConfig { liquidity_bps: 300, team_bps: 125, founder_bps: 25 }
    } else if lock_hours == 4 {
        LockFeeConfig { liquidity_bps: 375, team_bps: 150, founder_bps: 25 }
    } else if lock_hours == 6 {
        LockFeeConfig { liquidity_bps: 450, team_bps: 175, founder_bps: 25 }
    } else if lock_hours == 8 {
        LockFeeConfig { liquidity_bps: 550, team_bps: 200, founder_bps: 25 }
    } else if lock_hours == 12 {
        LockFeeConfig { liquidity_bps: 725, team_bps: 250, founder_bps: 25 }
    } else {
        instant_config()
    }
}

/// The rates of an immediate buy or sell.
pub open spec fn instant_config() -> LockFeeConfig {
    LockFeeConfig { liquidity_bps: 925, team_bps: 300, founder_bps: 25 }
}

/// The rates of the schedule without lock periods.
pub open spec fn flat_config() -> LockFeeConfig {
    LockFeeConfig { liquidity_bps: 725, team_bps: 250, founder_bps: 25 }
}

/// The fee table of a lock length in days.
pub fn get_lock_fee_config(lock_days: u64) -> (r: LockFeeConfig)
    ensures
        r == daily_config(lock_days),
{
    if lock_days <= 3 {
        LockFeeConfig { liquidity_bps: 150, team_bps: 75, founder_bps: 25 }
    } else if lock_days <= 7 {
        LockFeeConfig { liquidity_bps: 225, team_bps: 100, founder_bps: 25 }
    } else if lock_days <= 14 {
        LockFeeConfig { liquidity_bps: 300, team_bps: 125, founder_bps: 25 }
    } else if lock_days <= 30 {
        LockFeeConfig { liquidity_bps: 375, team_bps: 150, founder_bps: 25 }
    } else if 32 <= lock_days && lock_days <= 60 {
        LockFeeConfig { liquidity_bps: 450, team_bps: 175, founder_bps: 25 }
    } else if 61 <= lock_days && lock_days <= 90 {
        LockFeeConfig { liquidity_bps: 550, team_bps: 200, founder_bps: 25 }
    } else {
        LockFeeConfig { liquidity_bps: 725, team_bps: 250, founder_bps: 25 }
    }
}

/// The rates of an immediate buy or sell.
pub fn instant_fee_config() -> (r: LockFeeConfig)
    ensures
        r == instant_config(),
{
    LockFeeConfig { liquidity_bps: 925, team_bps: 300, founder_bps: 25 }
}

/// Which tiers a market offers, what each costs and how long it locks.
#[derive(Clone, Copy, Debug, PartialEq, Eq, Structural)]
pub enum FeeSchedule {
    /// Tiers are lock lengths of 3, 7, 14, 30, 60, 90 or 180 days.
    Daily,
    /// Tiers are lock lengths of 1, 2, 3, 4, 6, 8 or 12 hours.
    Hourly,
    /// One tier, 0, with no lock period and a single set of rates.
    Flat,
}

pub const SECONDS_PER_DAY: u64 = 86_400;

pub const SECONDS_PER_HOUR: u64 = 3_600;

impl FeeSchedule {
    pub open spec fn recognizes(self, tier: u64) -> bool {
        match self {
            FeeSchedule::Daily => tier == 3 || tier == 7 || tier == 14 || tier == 30 || tier == 60
                || tier == 90 || tier == 180,
            FeeSchedule::Hourly => tier == 1 || tier == 2 || tier == 3 || tier == 4 || tier == 6
                || tier == 8 || tier == 12,
            FeeSchedule::Flat => tier == 0,
        }
    }

    /// The scheduled rates of a tier.
    pub open spec fn config(self, tier: u64) -> LockFeeConfig {
        match self {
            FeeSchedule::Daily => daily_config(tier),
            FeeSchedule::Hourly => hourly_config(tier),
            FeeSchedule::Flat => flat_config(),
        }
    }

    /// The rates that apply: the scheduled ones, with the penalty on an early exit.
    pub open spec fn rates(self, tier: u64, early_exit: bool) -> LockFeeConfig {
        if early_exit {
            self.config(tier).penalized()
        } else {
            self.config(tier)
        }
    }

    /// The length of a tier's lock, in seconds.
    pub open spec fn lock_seconds(self, tier: u64) -> int {
        match self {
            FeeSchedule::Daily => tier * SECONDS_PER_DAY,
            FeeSchedule::Hourly => tier * SECONDS_PER_HOUR,
            FeeSchedule::Flat => 0,
        }
    }

    pub fn is_recognized_tier(&self, tier: u64) -> (r: bool)
        ensures
            r == self.recognizes(tier),
    {
        match self {
            FeeSchedule::Daily => tier == 3 || tier == 7 || tier == 14 || tier == 30 || tier == 60
                || tier == 90 || tier == 180,
            FeeSchedule::Hourly => tier == 1 || tier == 2 || tier == 3 || tier == 4 || tier == 6
                || tier == 8 || tier == 12,
            FeeSchedule::Flat => tier == 0,
        }
    }

    pub fn config_for(&self, tier: u64) -> (r: LockFeeConfig)
        ensures
            r == self.config(tier),
            r.total_bps() <= 1250,
            r.team_bps <= 300,
    {
        match self {
            FeeSchedule::Daily => get_lock_fee_config(tier),
            FeeSchedule::Hourly => {
                if tier == 1 {
                    LockFeeConfig { liquidity_bps: 150, team_bps: 75, founder_bps: 25 }
                } else if tier == 2 {
                    LockFeeConfig { liquidity_bps: 225, team_bps: 100, founder_bps: 25 }
                } else if tier == 3 {
                    LockFeeConfig { liquidity_bps: 300, team_bps: 125, founder_bps: 25 }
                } else if tier == 4 {
                    LockFeeConfig { liquidity_bps: 375, team_bps: 150, founder_bps: 25 }
                } else if tier == 6 {
                    LockFeeConfig { liquidity_bps: 450, team_bps: 175, founder_bps: 25 }
                } else if tier == 8 {
                    LockFeeConfig { liquidity_bps: 550, team_bps: 200, founder_bps: 25 }
                } else if tier == 12 {
                    LockFeeConfig { liquidity_bps: 725, team_bps: 250, founder_bps: 25 }
                } else {
                    instant_fee_config()
                }
            },
            FeeSchedule::Flat => LockFeeConfig { liquidity_bps: 725, team_bps: 250, founder_bps: 25 },
        }
    }

    /// The rates that apply to a tier, with the early-exit penalty if asked.
    pub fn rates_for(&self, tier: u64, early_exit: bool) -> (r: LockFeeConfig)
        ensures
            r == self.rates(tier, early_exit),
            r.total_bps() < BPS_DENOMINATOR,
    {
        let c = self.config_for(tier);
        if early_exit {
            c.with_early_exit_penalty()
        } else {
            c
        }
    }

    /// Splits `gross` by the rates of `tier`.
    pub fn split(&self, gross: u64, tier: u64, early_exit: bool) -> (r: FeeSplit)
        ensures
            r == split_of(self.rates(tier, early_exit), gross as int),
            r.net_for_mint == gross - r.fees(),
            gross > 0 ==> r.net_for_mint > 0,
    {
        let c = self.rates_for(tier, early_exit);
        c.split(gross)
    }

    /// The moment a lock of `tier` opened at `now` ends; `None` if it does not
    /// fit a timestamp.
    pub fn unlock_time(&self, tier: u64, now: i64) -> (r: Option<i64>)
        ensures
            r == (if i64::MIN <= now + self.lock_seconds(tier) <= i64::MAX {
                Some((now + self.lock_seconds(tier)) as i64)
            } else {
                None::<i64>
            }),
    {
        let secs: u64 = match self {
            FeeSchedule::Daily => SECONDS_PER_DAY,
            FeeSchedule::Hourly => SECONDS_PER_HOUR,
            FeeSchedule::Flat => 0,
        };
        proof {
            assert((tier as int) * (secs as int) <= u64::MAX * SECONDS_PER_DAY) by (nonlinear_arith)
                requires
                    secs <= SECONDS_PER_DAY,
            ;
            assert(self.lock_seconds(tier) == (tier as int) * (secs as int));
        }
        let end = (now as i128) + ((tier as i128) * (secs as i128));
        if end < i64::MIN as i128 || end > i64::MAX as i128 {
            None
        } else {
            Some(end as i64)
        }
    }
}

/// Every tier of every schedule keeps its rates, with or without the
/// early-exit penalty, below 10000 basis points, so that any positive amount
/// leaves a positive residual for the purchase.
pub proof fn lemma_rates_leave_residual(schedule: FeeSchedule, tier: u64, early_exit: bool, gross: u64)
    ensures
        schedule.config(tier).total_bps() < BPS_DENOMINATOR,
        schedule.rates(tier, early_exit).total_bps() < BPS_DENOMINATOR,
        gross > 0 ==> split_of(schedule.rates(tier, early_exit), gross as int).net_for_mint > 0,
{
    lemma_split_leaves_residual(schedule.rates(tier, early_exit), gross as int);
}

/// An early exit adds exactly the penalty to the team rate and leaves the
/// founder and liquidity rates, and so their legs, as scheduled.
pub proof fn lemma_early_exit_penalty(schedule: FeeSchedule, tier: u64, gross: u64)
    ensures
        schedule.rates(tier, true).team_bps == schedule.rates(tier, false).team_bps
            + EARLY_EXIT_PENALTY_BPS,
        schedule.rates(tier, true).founder_bps == schedule.rates(tier, false).founder_bps,
        schedule.rates(tier, true).liquidity_bps == schedule.rates(tier, false).liquidity_bps,
        split_of(schedule.rates(tier, true), gross as int).founder == split_of(
            schedule.rates(tier, false),
            gross as int,
        ).founder,
        split_of(schedule.rates(tier, true), gross as int).locked == split_of(
            schedule.rates(tier, false),
            gross as int,
        ).locked,
{
}

} // verus!
