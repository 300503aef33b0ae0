use up_only::errors::CustomError;
use up_only::founders::FoundersPool;
use up_only::identity::Identity;
use up_only::market::{buy_pass, buy_token, give_pass, sell_token, PassPayment, TokenMetadata, UserState};
use up_only::position::{validate_token_mint, PoolState};

fn id(n: u64) -> Identity {
    Identity::new(n, 0, 0, 0)
}

fn with_pass() -> UserState {
    let mut u = UserState::new();
    give_pass(&mut u).unwrap();
    u
}

const POOL: PoolState = PoolState { reserve: 1_000_000, supply: 1_000_000_000 };

#[test]
fn buy_token_at_instant_rates() {
    let mut founders = FoundersPool::initialize_founders_pool();
    let r = buy_token(&with_pass(), &mut founders, POOL, id(7), id(7), 1_000_000, None).unwrap();
    assert_eq!(r.to_team, 30_000);
    assert_eq!(r.founder_fee, 2_500);
    assert_eq!(r.to_reserve, 967_500);
    assert_eq!(r.minted, 853_935_962);
    assert_eq!(founders.total_collected(), 2_500);
}

#[test]
fn buy_token_needs_pass_and_team_account() {
    let mut founders = FoundersPool::initialize_founders_pool();
    assert_eq!(buy_token(&UserState::new(), &mut founders, POOL, id(7), id(7), 1_000_000, None), Err(CustomError::NoPass));
    assert_eq!(buy_token(&with_pass(), &mut founders, POOL, id(8), id(7), 1_000_000, None), Err(CustomError::InvalidDeployerAccount));
    assert_eq!(founders.total_collected(), 0);
}

#[test]
fn sell_token_pays_value_less_fees() {
    let mut founders = FoundersPool::initialize_founders_pool();
    let r = sell_token(&UserState::new(), &mut founders, POOL, 500_000_000, None).unwrap();
    assert_eq!(r.value, 500_000);
    assert_eq!(r.to_team, 15_000);
    assert_eq!(r.founder_fee, 1_250);
    assert_eq!(r.liquidity_fee, 46_250);
    assert_eq!(r.to_owner, 437_500);
    assert_eq!(r.burned, 500_000_000);
}

#[test]
fn pass_with_referral_splits_price() {
    let mut u = UserState::new();
    let r = buy_pass(&mut u, id(5), Some(id(9)), id(7), id(7), Some(id(9)));
    assert_eq!(r, Ok(PassPayment { to_referral: 5_000_000_000, to_team: 5_000_000_000 }));
    assert!(u.has_pass);
    assert!(u.referral_set);
    assert_eq!(u.bound(), Some(id(9)));
    assert_eq!(buy_pass(&mut u, id(5), None, id(7), id(7), None), Err(CustomError::AlreadyHasPass));
    let mut founders = FoundersPool::initialize_founders_pool();
    let r = buy_token(&u, &mut founders, POOL, id(7), id(7), 1_000_000, Some(id(9))).unwrap();
    assert_eq!((r.to_referral, r.to_team), (15_000, 15_000));
    assert_eq!(buy_token(&u, &mut founders, POOL, id(7), id(7), 1_000_000, None), Err(CustomError::MissingReferralAccount));
}

#[test]
fn pass_without_referral_goes_to_team() {
    let mut u = UserState::new();
    let r = buy_pass(&mut u, id(5), None, id(7), id(7), None);
    assert_eq!(r, Ok(PassPayment { to_referral: 0, to_team: 10_000_000_000 }));
    assert_eq!(u.bound(), None);
}

#[test]
fn pass_refuses_self_referral_and_wrong_team() {
    let mut u = UserState::new();
    assert_eq!(buy_pass(&mut u, id(5), Some(id(5)), id(7), id(7), Some(id(5))), Err(CustomError::InvalidReferral));
    assert_eq!(buy_pass(&mut u, id(5), None, id(8), id(7), None), Err(CustomError::InvalidDeployerAccount));
    assert_eq!(u, UserState::new());
    assert_eq!(give_pass(&mut u), Ok(()));
    assert_eq!(give_pass(&mut u), Err(CustomError::AlreadyHasPass));
}

#[test]
fn metadata_is_set_once() {
    let mut m = TokenMetadata::new();
    assert_eq!(m.initialize(id(1), id(2), id(3), id(4), id(5)), Ok(()));
    assert_eq!(m.team, id(5));
    assert!(m.initialized);
    assert_eq!(m.initialize(id(9), id(9), id(9), id(9), id(9)), Err(CustomError::AlreadyInitialized));
    assert_eq!(m.mint, id(1));
}

#[test]
fn token_mint_check() {
    assert_eq!(validate_token_mint(id(3), id(3)), Ok(()));
    assert_eq!(validate_token_mint(id(3), id(4)), Err(CustomError::InvalidTokenMint));
}
