//! Errors of every operation, and the class each belongs to.
use vstd::prelude::*;

verus! {

#[derive(Clone, Copy, Debug, PartialEq, Eq, Structural)]
pub enum CustomError {
    AlreadyInitialized,
    AlreadyHasPass,
    InvalidReferral,
    MissingReferralAccount,
    InvalidDeployerAccount,
    NoPass,
    FounderLimitReached,
    NotFounder,
    NothingToClaim,
    Unauthorized,
    LockPeriodNotOver,
    AlreadyClaimed,
    InvalidLockPeriod,
    InvalidLeverageMultiplier,
    InsufficientBorrowPool,
    DuplicateFounder,
    InsufficientAmount,
    InvalidTokenMint,
    MathOverflow,
}

/// The classes of failure.
#[derive(Clone, Copy, Debug, PartialEq, Eq, Structural)]
pub enum ErrorKind {
    /// An argument is not acceptable.
    Validation,
    /// The position or pool is not in a state that allows the operation.
    State,
    /// The caller may not perform the operation.
    Authorization,
    /// Funds or computed amounts do not suffice.
    Resource,
    /// A supplied account does not match what it must be.
    Reference,
    /// A result does not fit its integer type.
    Arithmetic,
}

impl CustomError {
    pub open spec fn kind_of(self) -> ErrorKind {
        match self {
            CustomError::InvalidLockPeriod | CustomError::InvalidLeverageMultiplier
            | CustomError::DuplicateFounder | CustomError::FounderLimitReached => {
                ErrorKind::Validation
            },
            CustomError::AlreadyInitialized | CustomError::AlreadyHasPass | CustomError::NoPass
            | CustomError::LockPeriodNotOver | CustomError::AlreadyClaimed => ErrorKind::State,
            CustomError::Unauthorized => ErrorKind::Authorization,
            CustomError::InsufficientBorrowPool | CustomError::InsufficientAmount
            | CustomError::NothingToClaim => ErrorKind::Resource,
            CustomError::InvalidReferral | CustomError::MissingReferralAccount
            | CustomError::InvalidDeployerAccount | CustomError::NotFounder
            | CustomError::InvalidTokenMint => ErrorKind::Reference,
            CustomError::MathOverflow => ErrorKind::Arithmetic,
        }
    }

    pub fn kind(&self) -> (r: ErrorKind)
        ensures
            r == self.kind_of(),
    {
        match self {
            CustomError::InvalidLockPeriod | CustomError::InvalidLeverageMultiplier
            | CustomError::DuplicateFounder | CustomError::FounderLimitReached => {
                ErrorKind::Validation
            },
            CustomError::AlreadyInitialized | CustomError::AlreadyHasPass | CustomError::NoPass
            | CustomError::LockPeriodNotOver | CustomError::AlreadyClaimed => ErrorKind::State,
            CustomError::Unauthorized => ErrorKind::Authorization,
            CustomError::InsufficientBorrowPool | CustomError::InsufficientAmount
            | CustomError::NothingToClaim => ErrorKind::Resource,
            CustomError::InvalidReferral | CustomError::MissingReferralAccount
            | CustomError::InvalidDeployerAccount | CustomError::NotFounder
            | CustomError::InvalidTokenMint => ErrorKind::Reference,
            CustomError::MathOverflow => ErrorKind::Arithmetic,
        }
    }
}

} // verus!
