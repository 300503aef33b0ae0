use up_only::errors::CustomError;
use up_only::pricing::{compute_mint, compute_value};

#[test]
fn mint_at_one_usdc_per_token() {
    assert_eq!(compute_mint(1_000_000, 1_000_000_000, 875_000, 92_500), Ok(853_935_962));
    assert_eq!(compute_mint(1_000_000_000, 1_000_000_000_000, 945_000, 37_500), Ok(944_982_045));
}

#[test]
fn mint_of_nothing_is_insufficient() {
    assert_eq!(compute_mint(1_000_000, 1_000_000_000, 0, 0), Err(CustomError::InsufficientAmount));
}

#[test]
fn mint_on_empty_market_prices_at_one() {
    // No reserve and no supply: the start price is floored to one.
    let r = compute_mint(0, 0, 1_000, 0);
    assert!(r.is_ok());
}

#[test]
fn mint_too_large_overflows() {
    assert_eq!(compute_mint(0, u64::MAX, u64::MAX, 0), Err(CustomError::MathOverflow));
}

#[test]
fn value_of_half_a_token() {
    assert_eq!(compute_value(1_000_000, 1_000_000_000, 500_000_000), Ok(500_000));
    assert_eq!(compute_value(1_000_982_500, 1_000_944_982_045, 944_982_045), Ok(945_017));
}

#[test]
fn value_rounds_half_up() {
    assert_eq!(compute_value(1, 2, 1), Ok(1));
    assert_eq!(compute_value(1, 3, 1), Ok(0));
}

#[test]
fn value_with_zero_supply_divides_by_one() {
    assert_eq!(compute_value(1_000_000, 0, 0), Ok(0));
}

#[test]
fn value_too_large_overflows() {
    assert_eq!(compute_value(u64::MAX, 1, u64::MAX), Err(CustomError::MathOverflow));
    assert_eq!(compute_value(u64::MAX, 1, 1), Ok(u64::MAX));
    assert_eq!(compute_value(u64::MAX, 1, 2), Err(CustomError::MathOverflow));
}
