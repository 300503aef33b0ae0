use up_only::errors::{CustomError, ErrorKind};
use up_only::fees::{get_lock_fee_config, instant_fee_config, team_payout, FeeSchedule, LockFeeConfig};

#[test]
fn tier_fee_split_of_one_usdc() {
    let config = get_lock_fee_config(30);
    assert_eq!(config, LockFeeConfig { liquidity_bps: 375, team_bps: 150, founder_bps: 25 });
    let split = FeeSchedule::Daily.split(1_000_000, 30, false);
    assert_eq!(split.team, 15_000);
    assert_eq!(split.founder, 2_500);
    assert_eq!(split.locked, 37_500);
    assert_eq!(split.net_for_mint, 945_000);
}

#[test]
fn every_tier_keeps_rates_below_whole() {
    let schedules = [FeeSchedule::Daily, FeeSchedule::Hourly, FeeSchedule::Flat];
    for schedule in schedules.iter() {
        for tier in 0u64..200 {
            for early in [false, true] {
                let c = schedule.rates_for(tier, early);
                assert!(c.liquidity_bps + c.team_bps + c.founder_bps < 10_000);
                for gross in [1u64, 7, 10_000, 1_000_000, u64::MAX] {
                    let s = schedule.split(gross, tier, early);
                    assert!(s.net_for_mint > 0);
                    assert_eq!(s.team + s.founder + s.locked + s.net_for_mint, gross);
                }
            }
        }
    }
}

#[test]
fn zero_gross_splits_to_zero() {
    let s = FeeSchedule::Daily.split(0, 7, false);
    assert_eq!((s.team, s.founder, s.locked, s.net_for_mint), (0, 0, 0, 0));
}

#[test]
fn early_exit_adds_fifty_bps_to_team_only() {
    for tier in [3u64, 7, 14, 30, 60, 90, 180] {
        let base = FeeSchedule::Daily.rates_for(tier, false);
        let early = FeeSchedule::Daily.rates_for(tier, true);
        assert_eq!(early.team_bps, base.team_bps + 50);
        assert_eq!(early.founder_bps, base.founder_bps);
        assert_eq!(early.liquidity_bps, base.liquidity_bps);
    }
    let base = FeeSchedule::Daily.split(945_017, 30, false);
    let early = FeeSchedule::Daily.split(945_017, 30, true);
    assert_eq!(base.team, 14_175);
    assert_eq!(early.team, 18_900);
    assert_eq!(early.founder, base.founder);
    assert_eq!(early.locked, base.locked);
}

#[test]
fn daily_table_rows() {
    assert_eq!(get_lock_fee_config(3).liquidity_bps, 150);
    assert_eq!(get_lock_fee_config(7).team_bps, 100);
    assert_eq!(get_lock_fee_config(14).liquidity_bps, 300);
    assert_eq!(get_lock_fee_config(60).team_bps, 175);
    assert_eq!(get_lock_fee_config(90).liquidity_bps, 550);
    assert_eq!(get_lock_fee_config(180), LockFeeConfig { liquidity_bps: 725, team_bps: 250, founder_bps: 25 });
    assert_eq!(get_lock_fee_config(31).liquidity_bps, 725);
}

#[test]
fn hourly_and_flat_tables() {
    assert_eq!(FeeSchedule::Hourly.config_for(1).team_bps, 75);
    assert_eq!(FeeSchedule::Hourly.config_for(12).liquidity_bps, 725);
    assert_eq!(FeeSchedule::Hourly.config_for(5), instant_fee_config());
    assert_eq!(FeeSchedule::Flat.config_for(0), LockFeeConfig { liquidity_bps: 725, team_bps: 250, founder_bps: 25 });
    assert_eq!(instant_fee_config(), LockFeeConfig { liquidity_bps: 925, team_bps: 300, founder_bps: 25 });
}

#[test]
fn recognized_tiers() {
    for t in [3u64, 7, 14, 30, 60, 90, 180] {
        assert!(FeeSchedule::Daily.is_recognized_tier(t));
    }
    assert!(!FeeSchedule::Daily.is_recognized_tier(1));
    assert!(!FeeSchedule::Daily.is_recognized_tier(31));
    for t in [1u64, 2, 3, 4, 6, 8, 12] {
        assert!(FeeSchedule::Hourly.is_recognized_tier(t));
    }
    assert!(!FeeSchedule::Hourly.is_recognized_tier(5));
    assert!(FeeSchedule::Flat.is_recognized_tier(0));
    assert!(!FeeSchedule::Flat.is_recognized_tier(3));
}

#[test]
fn unlock_times() {
    assert_eq!(FeeSchedule::Daily.unlock_time(3, 1_000), Some(1_000 + 3 * 86_400));
    assert_eq!(FeeSchedule::Hourly.unlock_time(2, 1_000), Some(1_000 + 7_200));
    assert_eq!(FeeSchedule::Flat.unlock_time(0, 1_000), Some(1_000));
    assert_eq!(FeeSchedule::Daily.unlock_time(180, i64::MAX - 10), None);
}

#[test]
fn referral_takes_half_of_team_fee() {
    assert_eq!(team_payout(15_001, true), (7_500, 7_501));
    assert_eq!(team_payout(15_001, false), (0, 15_001));
}

#[test]
fn error_kinds() {
    assert_eq!(CustomError::AlreadyInitialized.kind(), ErrorKind::State);
    assert_eq!(CustomError::AlreadyClaimed.kind(), ErrorKind::State);
    assert_eq!(CustomError::LockPeriodNotOver.kind(), ErrorKind::State);
    assert_eq!(CustomError::InvalidLockPeriod.kind(), ErrorKind::Validation);
    assert_eq!(CustomError::Unauthorized.kind(), ErrorKind::Authorization);
    assert_eq!(CustomError::InsufficientBorrowPool.kind(), ErrorKind::Resource);
    assert_eq!(CustomError::MissingReferralAccount.kind(), ErrorKind::Reference);
    assert_eq!(CustomError::MathOverflow.kind(), ErrorKind::Arithmetic);
}
