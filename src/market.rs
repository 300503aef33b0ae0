//! Immediate buys and sells, access passes, and the market's metadata.
use vstd::prelude::*;
use crate::errors::CustomError;
use crate::fees::{instant_config, instant_fee_config, split_of, team_payout};
use crate::founders::FoundersPool;
use crate::identity::Identity;
use crate::ledger::referral_part;
use crate::position::{check_referral, referral_error, OpenReceipt, PoolState, SettleReceipt};
use crate::pricing::{compute_mint, compute_value, mint_quantity, settlement_value};

verus! {

/// Price of an access pass: 10000 whole units of the quote asset.
pub const PASS_PRICE: u64 = 10_000_000_000;

/// The market's identities, set once.
#[derive(Clone, Copy, Debug, PartialEq, Eq, Structural)]
pub struct TokenMetadata {
    /// The governed token's mint.
    pub mint: Identity,
    /// The mint authority of the governed token.
    pub authority: Identity,
    /// The quote asset's mint.
    pub payment_token: Identity,
    pub deployer: Identity,
    pub team: Identity,
    pub initialized: bool,
}

impl TokenMetadata {
    pub fn new() -> (r: TokenMetadata)
        ensures
            !r.initialized,
    {
        TokenMetadata {
            mint: Identity::zero(),
            authority: Identity::zero(),
            payment_token: Identity::zero(),
            deployer: Identity::zero(),
            team: Identity::zero(),
            initialized: false,
        }
    }

    /// Records the market's identities, once.
    pub fn initialize(
        &mut self,
        mint: Identity,
        authority: Identity,
        payment_token: Identity,
        deployer: Identity,
        team: Identity,
    ) -> (r: Result<(), CustomError>)
        ensures
            old(self).initialized ==> r == Err::<(), CustomError>(CustomError::AlreadyInitialized)
                && *final(self) == *old(self),
            !old(self).initialized ==> r is Ok && *final(self) == (TokenMetadata {
                mint,
                authority,
                payment_token,
                deployer,
                team,
                initialized: true,
            }),
    {
        if self.initialized {
            return Err(CustomError::AlreadyInitialized);
        }
        *self = TokenMetadata { mint, authority, payment_token, deployer, team, initialized: true };
        Ok(())
    }
}

/// A buyer's access pass and the referral bound to the buyer.
#[derive(Clone, Copy, Debug, PartialEq, Eq, Structural)]
pub struct UserState {
    pub has_pass: bool,
    pub referral: Identity,
    pub referral_set: bool,
}

/// How the price of a pass is paid out.
#[derive(Clone, Copy, Debug, PartialEq, Eq, Structural)]
pub struct PassPayment {
    pub to_referral: u64,
    pub to_team: u64,
}

impl UserState {
    pub open spec fn bound_referral(self) -> Option<Identity> {
        if self.referral_set {
            Some(self.referral)
        } else {
            None
        }
    }

    pub fn new() -> (r: UserState)
        ensures
            !r.has_pass,
            !r.referral_set,
    {
        UserState { has_pass: false, referral: Identity::zero(), referral_set: false }
    }

    pub fn bound(&self) -> (r: Option<Identity>)
        ensures
            r == self.bound_referral(),
    {
        if self.referral_set {
            Some(self.referral)
        } else {
            None
        }
    }
}

/// Buying a pass: binds `referral` if none is bound yet, then pays half the
/// price to the bound referral and the rest to the team.
pub open spec fn buy_pass_spec(
    state: UserState,
    user: Identity,
    referral: Option<Identity>,
    team_account_owner: Identity,
    team: Identity,
    referral_owner: Option<Identity>,
) -> Result<(UserState, PassPayment), CustomError> {
    let binds = !state.referral_set && referral is Some;
    let next = UserState {
        has_pass: true,
        referral: if binds {
            referral.unwrap()
        } else {
            state.referral
        },
        referral_set: state.referral_set || binds,
    };
    if state.has_pass {
        Err(CustomError::AlreadyHasPass)
    } else if binds && referral.unwrap() == user {
        Err(CustomError::InvalidReferral)
    } else if team_account_owner != team {
        Err(CustomError::InvalidDeployerAccount)
    } else if referral_error(next.bound_referral(), referral_owner) is Some {
        Err(referral_error(next.bound_referral(), referral_owner).unwrap())
    } else if next.referral_set {
        Ok((next, PassPayment { to_referral: PASS_PRICE / 2, to_team: PASS_PRICE / 2 }))
    } else {
        Ok((next, PassPayment { to_referral: 0, to_team: PASS_PRICE }))
    }
}

/// Sells `user` an access pass.
pub fn buy_pass(
    state: &mut UserState,
    user: Identity,
    referral: Option<Identity>,
    team_account_owner: Identity,
    team: Identity,
    referral_owner: Option<Identity>,
) -> (r: Result<PassPayment, CustomError>)
    ensures
        match buy_pass_spec(*old(state), user, referral, team_account_owner, team, referral_owner) {
            Ok((s, p)) => r == Ok::<PassPayment, CustomError>(p) && *final(state) == s,
            Err(e) => r == Err::<PassPayment, CustomError>(e) && *final(state) == *old(state),
        },
{
    if state.has_pass {
        return Err(CustomError::AlreadyHasPass);
    }
    let mut next = *state;
    next.has_pass = true;
    if !state.referral_set {
        if let Some(r) = referral {
            if r == user {
                return Err(CustomError::InvalidReferral);
            }
            next.referral = r;
            next.referral_set = true;
        }
    }
    if team_account_owner != team {
        return Err(CustomError::InvalidDeployerAccount);
    }
    check_referral(next.bound(), referral_owner)?;
    *state = next;
    if next.referral_set {
        Ok(PassPayment { to_referral: PASS_PRICE / 2, to_team: PASS_PRICE / 2 })
    } else {
        Ok(PassPayment { to_referral: 0, to_team: PASS_PRICE })
    }
}

/// Grants a pass without payment.
pub fn give_pass(state: &mut UserState) -> (r: Result<(), CustomError>)
    ensures
        old(state).has_pass ==> r == Err::<(), CustomError>(CustomError::AlreadyHasPass)
            && *final(state) == *old(state),
        !old(state).has_pass ==> r is Ok && *final(state) == (UserState {
            has_pass: true,
            ..*old(state)
        }),
{
    if state.has_pass {
        return Err(CustomError::AlreadyHasPass);
    }
    state.has_pass = true;
    Ok(())
}

/// An immediate purchase of governed tokens for `amount` quote units.
pub open spec fn buy_token_spec(
    state: UserState,
    founders_total: u64,
    pool: PoolState,
    team_account_owner: Identity,
    team: Identity,
    amount: u64,
    referral_owner: Option<Identity>,
) -> Result<OpenReceipt, CustomError> {
    let s = split_of(instant_config(), amount as int);
    let q = mint_quantity(pool.reserve as int, pool.supply as int, s.net_for_mint as int, s.locked as int);
    if !state.has_pass {
        Err(CustomError::NoPass)
    } else if team_account_owner != team {
        Err(CustomError::InvalidDeployerAccount)
    } else if q == 0 {
        Err(CustomError::InsufficientAmount)
    } else if q > u64::MAX {
        Err(CustomError::MathOverflow)
    } else if referral_error(state.bound_referral(), referral_owner) is Some {
        Err(referral_error(state.bound_referral(), referral_owner).unwrap())
    } else if founders_total + s.founder > u64::MAX {
        Err(CustomError::MathOverflow)
    } else {
        let to_referral = referral_part(s.team, state.referral_set);
        Ok(
            OpenReceipt {
                to_referral,
                to_team: (s.team - to_referral) as u64,
                founder_fee: s.founder,
                to_reserve: (s.net_for_mint + s.locked) as u64,
                from_borrow_pool: 0,
                minted: q as u64,
            },
        )
    }
}

/// Buys governed tokens for `amount` quote units, straight to the buyer.
pub fn buy_token(
    state: &UserState,
    founders: &mut FoundersPool,
    pool: PoolState,
    team_account_owner: Identity,
    team: Identity,
    amount: u64,
    referral_owner: Option<Identity>,
) -> (r: Result<OpenReceipt, CustomError>)
    requires
        old(founders).wf(),
    ensures
        final(founders).wf(),
        match buy_token_spec(*state, old(founders).total(), pool, team_account_owner, team, amount, referral_owner) {
            Ok(rc) => r == Ok::<OpenReceipt, CustomError>(rc) && final(founders).total() == old(
                founders,
            ).total() + rc.founder_fee && final(founders).roster() == old(founders).roster()
                && final(founders).claimed() == old(founders).claimed(),
            Err(e) => r == Err::<OpenReceipt, CustomError>(e) && *final(founders) == *old(founders),
        },
{
    if !state.has_pass {
        return Err(CustomError::NoPass);
    }
    if team_account_owner != team {
        return Err(CustomError::InvalidDeployerAccount);
    }
    let s = instant_fee_config().split(amount);
    let minted = compute_mint(pool.reserve, pool.supply, s.net_for_mint, s.locked)?;
    check_referral(state.bound(), referral_owner)?;
    if founders.total_collected() > u64::MAX - s.founder {
        return Err(CustomError::MathOverflow);
    }
    let (to_referral, to_team) = team_payout(s.team, state.referral_set);
    founders.record_fee(s.founder);
    Ok(OpenReceipt {
        to_referral,
        to_team,
        founder_fee: s.founder,
        to_reserve: s.net_for_mint + s.locked,
        from_borrow_pool: 0,
        minted,
    })
}

/// An immediate sale of `amount` governed tokens.
pub open spec fn sell_token_spec(
    state: UserState,
    founders_total: u64,
    pool: PoolState,
    amount: u64,
    referral_owner: Option<Identity>,
) -> Result<SettleReceipt, CustomError> {
    let v = settlement_value(pool.reserve as int, pool.supply as int, amount as int);
    let s = split_of(instant_config(), v);
    if v > u64::MAX {
        Err(CustomError::MathOverflow)
    } else if referral_error(state.bound_referral(), referral_owner) is Some {
        Err(referral_error(state.bound_referral(), referral_owner).unwrap())
    } else if founders_total + s.founder > u64::MAX {
        Err(CustomError::MathOverflow)
    } else {
        let to_referral = referral_part(s.team, state.referral_set);
        Ok(
            SettleReceipt {
                burned: amount,
                value: v as u64,
                to_borrow_pool: 0,
                founder_fee: s.founder,
                to_referral,
                to_team: (s.team - to_referral) as u64,
                liquidity_fee: s.locked,
                to_owner: (v - s.fees()) as u64,
            },
        )
    }
}

/// Sells `amount` governed tokens back to the reserve.
pub fn sell_token(
    state: &UserState,
    founders: &mut FoundersPool,
    pool: PoolState,
    amount: u64,
    referral_owner: Option<Identity>,
) -> (r: Result<SettleReceipt, CustomError>)
    requires
        old(founders).wf(),
    ensures
        final(founders).wf(),
        match sell_token_spec(*state, old(founders).total(), pool, amount, referral_owner) {
            Ok(rc) => r == Ok::<SettleReceipt, CustomError>(rc) && final(founders).total() == old(
                founders,
            ).total() + rc.founder_fee && final(founders).roster() == old(founders).roster()
                && final(founders).claimed() == old(founders).claimed(),
            Err(e) => r == Err::<SettleReceipt, CustomError>(e) && *final(founders) == *old(founders),
        },
{
    let value = compute_value(pool.reserve, pool.supply, amount)?;
    let s = instant_fee_config().split(value);
    check_referral(state.bound(), referral_owner)?;
    if founders.total_collected() > u64::MAX - s.founder {
        return Err(CustomError::MathOverflow);
    }
    let (to_referral, to_team) = team_payout(s.team, state.referral_set);
    founders.record_fee(s.founder);
    Ok(SettleReceipt {
        burned: amount,
        value,
        to_borrow_pool: 0,
        founder_fee: s.founder,
        to_referral,
        to_team,
        liquidity_fee: s.locked,
        to_owner: value - s.team - s.founder - s.locked,
    })
}

} // verus!
