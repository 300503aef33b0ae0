//! Pricing, fee distribution and position accounting for a bonding-curve
//! token market with time locks, leverage and a founders' revenue pool.
//!
//! Every operation works on plain values: the records it may change, a
//! snapshot of the market, and the caller's inputs. It changes the records
//! only when it succeeds, and returns a receipt of the fund movements that
//! the custody layer must carry out.
pub mod borrow;
pub mod errors;
pub mod fees;
pub mod founders;
pub mod identity;
pub mod ledger;
pub mod market;
pub mod position;
pub mod pricing;
