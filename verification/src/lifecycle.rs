//! The match lifecycle state machine: creation, locking, resolution, and the
//! two cancellation paths (authority cancel, permissionless timeout).
//!
//! Every operation pattern-matches the full status set and reports an
//! explicit error on an invalid transition; there is no fallthrough.

use vstd::prelude::*;
use crate::errors::RawlError;
use crate::state::{
    MatchId, MatchPool, MatchStatus, MatchWinner, PlatformConfig, Pubkey, Vault,
};
use crate::time::{elapsed_spec, elapsed_since};

verus! {

/// The winner a wire-format winner code denotes: 0 is side A, 1 is side B.
pub open spec fn winner_from_code(winner: u8) -> MatchWinner
    recommends
        winner <= 1,
{
    if winner == 0 {
        MatchWinner::SideA
    } else {
        MatchWinner::SideB
    }
}

/// Allocate a new match pool and its empty vault: status `Open`, all totals
/// and counters zero, oracle and fee rate snapshotted from the platform
/// configuration. Only the platform authority may create matches, and only
/// while the platform is not paused. A negative betting window is refused;
/// a window of 0 means no deadline, a minimum of 0 means no minimum.
pub fn create_match(
    config: &PlatformConfig,
    caller: Pubkey,
    match_id: MatchId,
    fighter_a: Pubkey,
    fighter_b: Pubkey,
    min_bet: u64,
    betting_window: i64,
    now: i64,
) -> (r: Result<(MatchPool, Vault), RawlError>)
    requires
        config.wf(),
    ensures
        match r {
            Ok((pool, vault)) => {
                &&& caller == config.authority
                &&& !config.paused
                &&& betting_window >= 0
                &&& pool == (MatchPool {
                    match_id,
                    fighter_a,
                    fighter_b,
                    side_a_total: 0,
                    side_b_total: 0,
                    side_a_bet_count: 0,
                    side_b_bet_count: 0,
                    winning_bet_count: 0,
                    bet_count: 0,
                    status: MatchStatus::Open,
                    winner: MatchWinner::Undecided,
                    oracle: config.oracle,
                    creator: caller,
                    created_at: now,
                    lock_timestamp: 0,
                    resolve_timestamp: 0,
                    cancel_timestamp: 0,
                    min_bet,
                    betting_window,
                    fee_bps: config.fee_bps,
                    fees_withdrawn: false,
                })
                &&& pool.wf()
                &&& vault.balance == 0
            },
            Err(e) => {
                if caller != config.authority {
                    e == RawlError::Unauthorized
                } else if config.paused {
                    e == RawlError::PlatformPaused
                } else {
                    betting_window < 0 && e == RawlError::InvalidBettingWindow
                }
            },
        },
{
    if caller != config.authority {
        return Err(RawlError::Unauthorized);
    }
    if config.paused {
        return Err(RawlError::PlatformPaused);
    }
    if betting_window < 0 {
        return Err(RawlError::InvalidBettingWindow);
    }
    let pool = MatchPool {
        match_id,
        fighter_a,
        fighter_b,
        side_a_total: 0,
        side_b_total: 0,
        side_a_bet_count: 0,
        side_b_bet_count: 0,
        winning_bet_count: 0,
        bet_count: 0,
        status: MatchStatus::Open,
        winner: MatchWinner::Undecided,
        oracle: config.oracle,
        creator: caller,
        created_at: now,
        lock_timestamp: 0,
        resolve_timestamp: 0,
        cancel_timestamp: 0,
        min_bet,
        betting_window,
        fee_bps: config.fee_bps,
        fees_withdrawn: false,
    };
    Ok((pool, Vault::new()))
}

/// Close betting on an open match. Only the match oracle may lock.
pub fn lock_match(pool: &mut MatchPool, caller: Pubkey, now: i64) -> (r: Result<(), RawlError>)
    ensures
        match r {
            Ok(()) => {
                &&& caller == old(pool).oracle
                &&& old(pool).status == MatchStatus::Open
                &&& *final(pool) == (MatchPool {
                    status: MatchStatus::Locked,
                    lock_timestamp: now,
                    ..*old(pool)
                })
            },
            Err(e) => {
                &&& *final(pool) == *old(pool)
                &&& if caller != old(pool).oracle {
                    e == RawlError::OracleUnauthorized
                } else {
                    old(pool).status != MatchStatus::Open && e == RawlError::MatchNotOpen
                }
            },
        },
{
    if caller != pool.oracle {
        return Err(RawlError::OracleUnauthorized);
    }
    match pool.status {
        MatchStatus::Open => {},
        MatchStatus::Locked | MatchStatus::Resolved | MatchStatus::Cancelled => {
            return Err(RawlError::MatchNotOpen);
        },
    }
    pool.status = MatchStatus::Locked;
    pool.lock_timestamp = now;
    Ok(())
}

/// Record the oracle's verdict on a locked match: set the winner, move to
/// `Resolved`, and snapshot the winning side's bet count as the number of
/// payouts now owed. Only the match oracle may resolve, and only to side
/// code 0 or 1.
pub fn resolve_match(
    pool: &mut MatchPool,
    caller: Pubkey,
    winner: u8,
    now: i64,
) -> (r: Result<(), RawlError>)
    ensures
        match r {
            Ok(()) => {
                &&& caller == old(pool).oracle
                &&& old(pool).status == MatchStatus::Locked
                &&& winner <= 1
                &&& *final(pool) == (MatchPool {
                    status: MatchStatus::Resolved,
                    winner: winner_from_code(winner),
                    resolve_timestamp: now,
                    winning_bet_count: if winner == 0 {
                        old(pool).side_a_bet_count
                    } else {
                        old(pool).side_b_bet_count
                    },
                    ..*old(pool)
                })
            },
            Err(e) => {
                &&& *final(pool) == *old(pool)
                &&& if caller != old(pool).oracle {
                    e == RawlError::OracleUnauthorized
                } else if old(pool).status != MatchStatus::Locked {
                    e == RawlError::MatchNotLocked
                } else {
                    winner > 1 && e == RawlError::InvalidSide
                }
            },
        },
{
    if caller != pool.oracle {
        return Err(RawlError::OracleUnauthorized);
    }
    match pool.status {
        MatchStatus::Locked => {},
        MatchStatus::Open | MatchStatus::Resolved | MatchStatus::Cancelled => {
            return Err(RawlError::MatchNotLocked);
        },
    }
    let match_winner = match winner {
        0 => MatchWinner::SideA,
        1 => MatchWinner::SideB,
        _ => {
            return Err(RawlError::InvalidSide);
        },
    };
    pool.winner = match_winner;
    pool.status = MatchStatus::Resolved;
    pool.resolve_timestamp = now;
    pool.winning_bet_count = match match_winner {
        MatchWinner::SideA => pool.side_a_bet_count,
        MatchWinner::SideB => pool.side_b_bet_count,
        MatchWinner::Undecided => 0,
    };
    Ok(())
}

/// Abort an open or locked match. Only the platform authority may cancel;
/// refund paths open once the status is `Cancelled`.
pub fn cancel_match(
    pool: &mut MatchPool,
    config: &PlatformConfig,
    caller: Pubkey,
    now: i64,
) -> (r: Result<(), RawlError>)
    ensures
        match r {
            Ok(()) => {
                &&& caller == config.authority
                &&& (old(pool).status == MatchStatus::Open
                    || old(pool).status == MatchStatus::Locked)
                &&& *final(pool) == (MatchPool {
                    status: MatchStatus::Cancelled,
                    cancel_timestamp: now,
                    ..*old(pool)
                })
            },
            Err(e) => {
                &&& *final(pool) == *old(pool)
                &&& if caller != config.authority {
                    e == RawlError::Unauthorized
                } else {
                    &&& old(pool).status != MatchStatus::Open
                    &&& old(pool).status != MatchStatus::Locked
                    &&& e == RawlError::InvalidMatchStatus
                }
            },
        },
{
    if caller != config.authority {
        return Err(RawlError::Unauthorized);
    }
    match pool.status {
        MatchStatus::Open | MatchStatus::Locked => {},
        MatchStatus::Resolved | MatchStatus::Cancelled => {
            return Err(RawlError::InvalidMatchStatus);
        },
    }
    pool.status = MatchStatus::Cancelled;
    pool.cancel_timestamp = now;
    Ok(())
}

/// Force-cancel a locked match that its oracle abandoned: permissionless,
/// but only after more than `match_timeout` seconds have passed since the
/// lock.
pub fn timeout_match(
    pool: &mut MatchPool,
    config: &PlatformConfig,
    now: i64,
) -> (r: Result<(), RawlError>)
    ensures
        match r {
            Ok(()) => {
                &&& old(pool).status == MatchStatus::Locked
                &&& elapsed_spec(now, old(pool).lock_timestamp) > config.match_timeout
                &&& *final(pool) == (MatchPool {
                    status: MatchStatus::Cancelled,
                    cancel_timestamp: now,
                    ..*old(pool)
                })
            },
            Err(e) => {
                &&& *final(pool) == *old(pool)
                &&& if old(pool).status != MatchStatus::Locked {
                    e == RawlError::MatchNotLocked
                } else {
                    &&& elapsed_spec(now, old(pool).lock_timestamp) <= config.match_timeout
                    &&& e == RawlError::TimeoutNotElapsed
                }
            },
        },
{
    match pool.status {
        MatchStatus::Locked => {},
        MatchStatus::Open | MatchStatus::Resolved | MatchStatus::Cancelled => {
            return Err(RawlError::MatchNotLocked);
        },
    }
    let elapsed = elapsed_since(now, pool.lock_timestamp);
    if elapsed <= config.match_timeout {
        return Err(RawlError::TimeoutNotElapsed);
    }
    pool.status = MatchStatus::Cancelled;
    pool.cancel_timestamp = now;
    Ok(())
}

} // verus!
