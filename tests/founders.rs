use up_only::borrow::BorrowPool;
use up_only::errors::CustomError;
use up_only::founders::FoundersPool;
use up_only::identity::Identity;

fn id(n: u64) -> Identity {
    Identity::new(n, 0, 0, 0)
}

#[test]
fn fixed_divisor_of_sixty_with_two_founders() {
    let deployer = id(1);
    let mut pool = FoundersPool::initialize_founders_pool();
    assert_eq!(pool.add_founder(deployer, deployer, id(10)), Ok(()));
    assert_eq!(pool.add_founder(deployer, deployer, id(11)), Ok(()));
    assert_eq!(pool.founder_count(), 2);
    pool.record_fee(120);
    assert_eq!(pool.total_collected(), 120);
    assert_eq!(pool.claim_founder_share(id(10)), Ok(2));
    assert_eq!(pool.claim_founder_share(id(11)), Ok(2));
    assert_eq!(pool.claimed_by(id(10)), Some(2));
    assert_eq!(pool.claim_founder_share(id(10)), Err(CustomError::NothingToClaim));
}

#[test]
fn claims_grow_with_collected_fees() {
    let deployer = id(1);
    let mut pool = FoundersPool::initialize_founders_pool();
    pool.add_founder(deployer, deployer, id(10)).unwrap();
    pool.record_fee(59);
    assert_eq!(pool.claim_founder_share(id(10)), Err(CustomError::NothingToClaim));
    pool.record_fee(1);
    assert_eq!(pool.claim_founder_share(id(10)), Ok(1));
    pool.record_fee(600);
    assert_eq!(pool.claim_founder_share(id(10)), Ok(10));
    assert_eq!(pool.claimed_by(id(10)), Some(11));
}

#[test]
fn non_founder_cannot_claim() {
    let mut pool = FoundersPool::initialize_founders_pool();
    pool.record_fee(6_000);
    assert_eq!(pool.claim_founder_share(id(10)), Err(CustomError::NotFounder));
    assert_eq!(pool.claimed_by(id(10)), None);
}

#[test]
fn only_deployer_adds_founders() {
    let mut pool = FoundersPool::initialize_founders_pool();
    assert_eq!(pool.add_founder(id(2), id(1), id(10)), Err(CustomError::Unauthorized));
    assert_eq!(pool.founder_count(), 0);
}

#[test]
fn duplicate_founder_rejected() {
    let mut pool = FoundersPool::initialize_founders_pool();
    pool.add_founder(id(1), id(1), id(10)).unwrap();
    assert_eq!(pool.add_founder(id(1), id(1), id(10)), Err(CustomError::DuplicateFounder));
    assert_eq!(pool.founder_count(), 1);
}

#[test]
fn roster_holds_sixty() {
    let mut pool = FoundersPool::initialize_founders_pool();
    for n in 0..60u64 {
        assert_eq!(pool.add_founder(id(1), id(1), id(100 + n)), Ok(()));
    }
    assert_eq!(pool.founder_count(), 60);
    assert_eq!(pool.add_founder(id(1), id(1), id(999)), Err(CustomError::FounderLimitReached));
    assert_eq!(pool.add_founder(id(1), id(1), id(100)), Err(CustomError::DuplicateFounder));
    assert_eq!(pool.find_founder(id(159)), Some(59));
}

#[test]
fn borrow_pool_accounting() {
    let team = id(7);
    let mut pool = BorrowPool::new();
    assert!(!pool.initialized());
    assert_eq!(pool.initialize_borrow_pool(), Ok(()));
    assert_eq!(pool.initialize_borrow_pool(), Err(CustomError::AlreadyInitialized));
    assert_eq!(pool.deposit_to_borrow_pool(id(8), team, 500), Err(CustomError::Unauthorized));
    assert_eq!(pool.deposit_to_borrow_pool(team, team, 500), Ok(()));
    assert_eq!(pool.total_deposited(), 500);
    assert_eq!(pool.reserve_for_leverage(600), Err(CustomError::InsufficientBorrowPool));
    assert_eq!(pool.reserve_for_leverage(200), Ok(()));
    assert_eq!(pool.total_deposited(), 300);
    pool.repay(200);
    assert_eq!(pool.total_deposited(), 500);
    assert_eq!(pool.withdraw_from_borrow_pool(id(8), team, 1), Err(CustomError::Unauthorized));
    assert_eq!(pool.withdraw_from_borrow_pool(team, team, 800), Ok(()));
    assert_eq!(pool.total_deposited(), 0);
    assert_eq!(pool.deposit_to_borrow_pool(team, team, u64::MAX), Ok(()));
    assert_eq!(pool.deposit_to_borrow_pool(team, team, 1), Err(CustomError::MathOverflow));
    pool.repay(5);
    assert_eq!(pool.total_deposited(), u64::MAX);
}

#[test]
fn pool_rebuilt_from_valid_parts() {
    let pool = FoundersPool::from_parts(120, vec![id(10), id(11)], vec![2, 0]).unwrap();
    assert_eq!(pool.total_collected(), 120);
    assert_eq!(pool.founder_count(), 2);
    assert_eq!(pool.claimed_by(id(10)), Some(2));
    let (total, founders, claimed) = pool.into_parts();
    assert_eq!(total, 120);
    assert_eq!(founders, vec![id(10), id(11)]);
    assert_eq!(claimed, vec![2, 0]);
}

#[test]
fn pool_parts_must_be_well_formed() {
    assert!(FoundersPool::from_parts(120, vec![id(10), id(10)], vec![0, 0]).is_none());
    assert!(FoundersPool::from_parts(120, vec![id(10)], vec![3]).is_none());
    assert!(FoundersPool::from_parts(120, vec![id(10)], vec![]).is_none());
    let many: Vec<Identity> = (0..61u64).map(id).collect();
    assert!(FoundersPool::from_parts(0, many, vec![0; 61]).is_none());
}

#[test]
fn borrow_pool_from_parts() {
    let pool = BorrowPool::from_parts(42, true);
    assert_eq!(pool.total_deposited(), 42);
    assert!(pool.initialized());
}
