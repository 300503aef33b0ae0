//! Position records and the receipts of the operations on them.
use vstd::prelude::*;
use crate::errors::CustomError;
use crate::identity::Identity;

verus! {

/// What the custody layer reports of the market when an operation starts.
#[derive(Clone, Copy, Debug, PartialEq, Eq, Structural)]
pub struct PoolState {
    /// Quote base units in the trading reserve.
    pub reserve: u64,
    /// Governed-token base units in circulation.
    pub supply: u64,
}

/// A time-locked purchase, held in the owner's vault until settled.
#[derive(Clone, Copy, Debug)]
pub struct LockedTokenState {
    pub user: Identity,
    /// Tokens minted into the vault.
    pub amount: u64,
    pub unlock_time: i64,
    pub referral: Option<Identity>,
    pub initialized: bool,
    pub lock_days: u64,
}

impl LockedTokenState {
    pub open spec fn spec_empty() -> LockedTokenState {
        LockedTokenState {
            user: Identity::spec_zero(),
            amount: 0,
            unlock_time: 0,
            referral: None,
            initialized: false,
            lock_days: 0,
        }
    }

    /// Either active, or entirely zero.
    pub open spec fn wf(self) -> bool {
        self.initialized || self == LockedTokenState::spec_empty()
    }

    /// Whether the record is active or entirely zero.
    pub fn is_well_formed(&self) -> (r: bool)
        ensures
            r == self.wf(),
    {
        self.initialized || (self.user == Identity::zero() && self.amount == 0 && self.unlock_time
            == 0 && self.referral.is_none() && self.lock_days == 0)
    }

    /// The empty record of an owner with no locked purchase.
    pub fn empty() -> (r: LockedTokenState)
        ensures
            r == LockedTokenState::spec_empty(),
    {
        LockedTokenState {
            user: Identity::zero(),
            amount: 0,
            unlock_time: 0,
            referral: None,
            initialized: false,
            lock_days: 0,
        }
    }
}

/// A leveraged purchase: the owner's principal plus capital borrowed from
/// the borrow pool, held in the owner's leverage vault until settled.
#[derive(Clone, Copy, Debug)]
pub struct LeveragePosition {
    pub user: Identity,
    pub amount_user_paid: u64,
    pub amount_borrowed: u64,
    pub unlock_time: i64,
    pub referral: Option<Identity>,
    pub initialized: bool,
    pub lock_days: u64,
    pub amount_minted: u64,
}

impl LeveragePosition {
    pub open spec fn spec_empty() -> LeveragePosition {
        LeveragePosition {
            user: Identity::spec_zero(),
            amount_user_paid: 0,
            amount_borrowed: 0,
            unlock_time: 0,
            referral: None,
            initialized: false,
            lock_days: 0,
            amount_minted: 0,
        }
    }

    /// Either active, or entirely zero.
    pub open spec fn wf(self) -> bool {
        self.initialized || self == LeveragePosition::spec_empty()
    }

    /// Whether the record is active or entirely zero.
    pub fn is_well_formed(&self) -> (r: bool)
        ensures
            r == self.wf(),
    {
        self.initialized || (self.user == Identity::zero() && self.amount_user_paid == 0
            && self.amount_borrowed == 0 && self.unlock_time == 0 && self.referral.is_none()
            && self.lock_days == 0 && self.amount_minted == 0)
    }

    /// The empty record of an owner with no leveraged position.
    pub fn empty() -> (r: LeveragePosition)
        ensures
            r == LeveragePosition::spec_empty(),
    {
        LeveragePosition {
            user: Identity::zero(),
            amount_user_paid: 0,
            amount_borrowed: 0,
            unlock_time: 0,
            referral: None,
            initialized: false,
            lock_days: 0,
            amount_minted: 0,
        }
    }
}

/// The fund movements of a purchase, for the custody layer to carry out.
#[derive(Clone, Copy, Debug, PartialEq, Eq, Structural)]
pub struct OpenReceipt {
    /// Buyer to the bound referral's account.
    pub to_referral: u64,
    /// Buyer to the team's account.
    pub to_team: u64,
    /// Buyer to the founders' pool account.
    pub founder_fee: u64,
    /// Buyer to the trading reserve.
    pub to_reserve: u64,
    /// Borrow pool to the trading reserve.
    pub from_borrow_pool: u64,
    /// Governed tokens minted to the buyer or the buyer's vault.
    pub minted: u64,
}

/// The fund movements of a sale or a settlement, for the custody layer to
/// carry out. Every transfer is from the trading reserve.
#[derive(Clone, Copy, Debug, PartialEq, Eq, Structural)]
pub struct SettleReceipt {
    /// Governed tokens burned from the seller or the vault.
    pub burned: u64,
    /// What the burned tokens are worth, in quote base units.
    pub value: u64,
    /// Back to the borrow pool.
    pub to_borrow_pool: u64,
    /// To the founders' pool account.
    pub founder_fee: u64,
    pub to_referral: u64,
    pub to_team: u64,
    /// Stays in the reserve.
    pub liquidity_fee: u64,
    /// To the owner; no transfer when zero.
    pub to_owner: u64,
}

/// The error, if any, of paying a bound referral through an account owned by
/// `account_owner` (`None` when no account was supplied).
pub open spec fn referral_error(referral: Option<Identity>, account_owner: Option<Identity>) -> Option<
    CustomError,
> {
    match referral {
        None => None,
        Some(r) => match account_owner {
            None => Some(CustomError::MissingReferralAccount),
            Some(o) => if o == r {
                None
            } else {
                Some(CustomError::InvalidReferral)
            },
        },
    }
}

pub fn check_referral(referral: Option<Identity>, account_owner: Option<Identity>) -> (r: Result<
    (),
    CustomError,
>)
    ensures
        r == (match referral_error(referral, account_owner) {
            Some(e) => Err::<(), CustomError>(e),
            None => Ok::<(), CustomError>(()),
        }),
{
    match referral {
        None => Ok(()),
        Some(r) => match account_owner {
            None => Err(CustomError::MissingReferralAccount),
            Some(o) => if o == r {
                Ok(())
            } else {
                Err(CustomError::InvalidReferral)
            },
        },
    }
}

/// Checks that an account holds the expected mint.
pub fn validate_token_mint(account_mint: Identity, expected_mint: Identity) -> (r: Result<
    (),
    CustomError,
>)
    ensures
        r == (if account_mint == expected_mint {
            Ok::<(), CustomError>(())
        } else {
            Err::<(), CustomError>(CustomError::InvalidTokenMint)
        }),
{
    if account_mint == expected_mint {
        Ok(())
    } else {
        Err(CustomError::InvalidTokenMint)
    }
}

} // verus!
