//! Error codes for every operation, and their grouping into the error
//! taxonomy: authorization, state, validation, timing, arithmetic, conflict.

use vstd::prelude::*;

verus! {

/// The reason an operation was refused. Every error is terminal for the
/// requesting operation and leaves no partial state behind.
#[derive(Clone, Copy, Debug, PartialEq, Eq, Structural)]
pub enum RawlError {
    /// Caller is not the platform authority.
    Unauthorized,
    /// Caller is not the match oracle.
    OracleUnauthorized,
    /// Operation is invalid for the match's current status.
    InvalidMatchStatus,
    /// Match is not open for betting.
    MatchNotOpen,
    /// Match is not locked.
    MatchNotLocked,
    /// Match is not resolved.
    MatchNotResolved,
    /// Match is not cancelled.
    MatchNotCancelled,
    /// Bet amount must be greater than zero.
    ZeroBetAmount,
    /// Bet is on the losing side.
    BetOnLosingSide,
    /// Bet has already been claimed.
    AlreadyClaimed,
    /// Match timeout has not elapsed.
    TimeoutNotElapsed,
    /// Claim window has not elapsed.
    ClaimWindowNotElapsed,
    /// Arithmetic overflow, or a narrowing that would lose precision.
    Overflow,
    /// Fee basis points exceed the platform maximum.
    InvalidFeeBps,
    /// Side code is neither 0 (side A) nor 1 (side B).
    InvalidSide,
    /// Platform is paused; no new matches may be created.
    PlatformPaused,
    /// Match still has open bet records.
    BetCountNotZero,
    /// Unclaimed winning bets remain.
    WinningBetCountNotZero,
    /// Bet amount is below the match minimum.
    BetBelowMinimum,
    /// Betting window has closed.
    BettingWindowClosed,
    /// Fees have already been withdrawn for this match.
    FeesAlreadyWithdrawn,
    /// Vault balance cannot cover the requested settlement.
    InsufficientVault,
    /// Match timeout must be positive.
    InvalidTimeout,
    /// Betting window must not be negative.
    InvalidBettingWindow,
}

/// The taxonomy an error code falls under.
#[derive(Clone, Copy, Debug, PartialEq, Eq, Structural)]
pub enum ErrorKind {
    /// Wrong authority, oracle, or bettor.
    Authorization,
    /// Operation invalid for the current record state.
    State,
    /// A parameter is out of range or malformed.
    Validation,
    /// A time window has not elapsed, or has closed.
    Timing,
    /// Overflow or lossy narrowing in the payout engine.
    Arithmetic,
    /// The operation was already performed once.
    Conflict,
}

impl RawlError {
    /// The taxonomy kind of this error code.
    pub open spec fn kind_spec(self) -> ErrorKind {
        match self {
            RawlError::Unauthorized => ErrorKind::Authorization,
            RawlError::OracleUnauthorized => ErrorKind::Authorization,
            RawlError::InvalidMatchStatus => ErrorKind::State,
            RawlError::MatchNotOpen => ErrorKind::State,
            RawlError::MatchNotLocked => ErrorKind::State,
            RawlError::MatchNotResolved => ErrorKind::State,
            RawlError::MatchNotCancelled => ErrorKind::State,
            RawlError::ZeroBetAmount => ErrorKind::Validation,
            RawlError::BetOnLosingSide => ErrorKind::Validation,
            RawlError::AlreadyClaimed => ErrorKind::Conflict,
            RawlError::TimeoutNotElapsed => ErrorKind::Timing,
            RawlError::ClaimWindowNotElapsed => ErrorKind::Timing,
            RawlError::Overflow => ErrorKind::Arithmetic,
            RawlError::InvalidFeeBps => ErrorKind::Validation,
            RawlError::InvalidSide => ErrorKind::Validation,
            RawlError::PlatformPaused => ErrorKind::State,
            RawlError::BetCountNotZero => ErrorKind::State,
            RawlError::WinningBetCountNotZero => ErrorKind::State,
            RawlError::BetBelowMinimum => ErrorKind::Validation,
            RawlError::BettingWindowClosed => ErrorKind::Timing,
            RawlError::FeesAlreadyWithdrawn => ErrorKind::Conflict,
            RawlError::InsufficientVault => ErrorKind::State,
            RawlError::InvalidTimeout => ErrorKind::Validation,
            RawlError::InvalidBettingWindow => ErrorKind::Validation,
        }
    }

    /// The taxonomy kind of this error code.
    pub fn kind(&self) -> (k: ErrorKind)
        ensures
            k == self.kind_spec(),
    {
        match self {
            RawlError::Unauthorized => ErrorKind::Authorization,
            RawlError::OracleUnauthorized => ErrorKind::Authorization,
            RawlError::InvalidMatchStatus => ErrorKind::State,
            RawlError::MatchNotOpen => ErrorKind::State,
            RawlError::MatchNotLocked => ErrorKind::State,
            RawlError::MatchNotResolved => ErrorKind::State,
            RawlError::MatchNotCancelled => ErrorKind::State,
            RawlError::ZeroBetAmount => ErrorKind::Validation,
            RawlError::BetOnLosingSide => ErrorKind::Validation,
            RawlError::AlreadyClaimed => ErrorKind::Conflict,
            RawlError::TimeoutNotElapsed => ErrorKind::Timing,
            RawlError::ClaimWindowNotElapsed => ErrorKind::Timing,
            RawlError::Overflow => ErrorKind::Arithmetic,
            RawlError::InvalidFeeBps => ErrorKind::Validation,
            RawlError::InvalidSide => ErrorKind::Validation,
            RawlError::PlatformPaused => ErrorKind::State,
            RawlError::BetCountNotZero => ErrorKind::State,
            RawlError::WinningBetCountNotZero => ErrorKind::State,
            RawlError::BetBelowMinimum => ErrorKind::Validation,
            RawlError::BettingWindowClosed => ErrorKind::Timing,
            RawlError::FeesAlreadyWithdrawn => ErrorKind::Conflict,
            RawlError::InsufficientVault => ErrorKind::State,
            RawlError::InvalidTimeout => ErrorKind::Validation,
            RawlError::InvalidBettingWindow => ErrorKind::Validation,
        }
    }
}

} // verus!
