//! Stake intake: `place_bet` moves a stake into the vault and records it
//! against one side of an open match.
//!
//! The host's addressing layer guarantees at most one bet record per
//! (match, bettor) pair and signals its own conflict error on a duplicate;
//! the core sees each accepted bet exactly once.

use vstd::prelude::*;
use crate::errors::RawlError;
use crate::state::{Bet, BetSide, MatchPool, MatchStatus, Pubkey, Vault};

verus! {

/// The side a wire-format side code denotes: 0 is side A, 1 is side B.
pub open spec fn side_from_code(side: u8) -> BetSide
    recommends
        side <= 1,
{
    if side == 0 {
        BetSide::SideA
    } else {
        BetSide::SideB
    }
}

/// The first reason `place_bet` refuses, or `None` when it accepts. Checks
/// run in this order: stake positive, match open, stake at least the
/// minimum, betting deadline (when a window is set), side code valid, and
/// finally that no total or counter would overflow.
pub open spec fn place_bet_check(
    pool: MatchPool,
    vault: Vault,
    side: u8,
    amount: u64,
    now: i64,
) -> Option<RawlError> {
    if amount == 0 {
        Some(RawlError::ZeroBetAmount)
    } else if pool.status != MatchStatus::Open {
        Some(RawlError::MatchNotOpen)
    } else if pool.min_bet > 0 && amount < pool.min_bet {
        Some(RawlError::BetBelowMinimum)
    } else if pool.betting_window > 0 && pool.created_at + pool.betting_window > i64::MAX {
        Some(RawlError::Overflow)
    } else if pool.betting_window > 0 && now > pool.created_at + pool.betting_window {
        Some(RawlError::BettingWindowClosed)
    } else if side > 1 {
        Some(RawlError::InvalidSide)
    } else if ({
        ||| (side == 0 && (pool.side_a_total + amount > u64::MAX
            || pool.side_a_bet_count + 1 > u32::MAX))
        ||| (side == 1 && (pool.side_b_total + amount > u64::MAX
            || pool.side_b_bet_count + 1 > u32::MAX))
        ||| pool.bet_count + 1 > u32::MAX
        ||| vault.balance + amount > u64::MAX
    }) {
        Some(RawlError::Overflow)
    } else {
        None
    }
}

/// The pool as `place_bet` leaves it on success: the stake added to the
/// chosen side's total, that side's bet count and the open-bet count each
/// one higher.
pub open spec fn place_bet_pool(pool: MatchPool, side: u8, amount: u64) -> MatchPool {
    MatchPool {
        side_a_total: if side == 0 {
            (pool.side_a_total + amount) as u64
        } else {
            pool.side_a_total
        },
        side_b_total: if side == 1 {
            (pool.side_b_total + amount) as u64
        } else {
            pool.side_b_total
        },
        side_a_bet_count: if side == 0 {
            (pool.side_a_bet_count + 1) as u32
        } else {
            pool.side_a_bet_count
        },
        side_b_bet_count: if side == 1 {
            (pool.side_b_bet_count + 1) as u32
        } else {
            pool.side_b_bet_count
        },
        bet_count: (pool.bet_count + 1) as u32,
        ..pool
    }
}

/// Accept a stake on side 0 (A) or 1 (B) of an open match: move it into the
/// vault, add it to the side's running total and counts, and mint the bet
/// record. All validation and overflow checks precede every mutation, so an
/// error leaves pool and vault untouched.
pub fn place_bet(
    pool: &mut MatchPool,
    vault: &mut Vault,
    bettor: Pubkey,
    side: u8,
    amount: u64,
    now: i64,
) -> (r: Result<Bet, RawlError>)
    ensures
        match r {
            Ok(bet) => {
                &&& place_bet_check(*old(pool), *old(vault), side, amount, now) is None
                &&& bet == (Bet {
                    bettor,
                    match_id: old(pool).match_id,
                    side: side_from_code(side),
                    amount,
                    claimed: false,
                })
                &&& *final(pool) == place_bet_pool(*old(pool), side, amount)
                &&& final(vault).balance == old(vault).balance + amount
            },
            Err(e) => {
                &&& Some(e) == place_bet_check(*old(pool), *old(vault), side, amount, now)
                &&& *final(pool) == *old(pool)
                &&& *final(vault) == *old(vault)
            },
        },
{
    if amount == 0 {
        return Err(RawlError::ZeroBetAmount);
    }
    match pool.status {
        MatchStatus::Open => {},
        MatchStatus::Locked | MatchStatus::Resolved | MatchStatus::Cancelled => {
            return Err(RawlError::MatchNotOpen);
        },
    }
    if pool.min_bet > 0 && amount < pool.min_bet {
        return Err(RawlError::BetBelowMinimum);
    }
    if pool.betting_window > 0 {
        match pool.created_at.checked_add(pool.betting_window) {
            None => {
                return Err(RawlError::Overflow);
            },
            Some(deadline) => {
                if now > deadline {
                    return Err(RawlError::BettingWindowClosed);
                }
            },
        }
    }
    let bet_side = if side == 0 {
        BetSide::SideA
    } else if side == 1 {
        BetSide::SideB
    } else {
        return Err(RawlError::InvalidSide);
    };
    match bet_side {
        BetSide::SideA => {
            if pool.side_a_total > u64::MAX - amount {
                return Err(RawlError::Overflow);
            }
            if pool.side_a_bet_count == u32::MAX {
                return Err(RawlError::Overflow);
            }
        },
        BetSide::SideB => {
            if pool.side_b_total > u64::MAX - amount {
                return Err(RawlError::Overflow);
            }
            if pool.side_b_bet_count == u32::MAX {
                return Err(RawlError::Overflow);
            }
        },
    }
    if pool.bet_count == u32::MAX {
        return Err(RawlError::Overflow);
    }
    if vault.balance > u64::MAX - amount {
        return Err(RawlError::Overflow);
    }
    vault.credit(amount);
    match bet_side {
        BetSide::SideA => {
            pool.side_a_total = pool.side_a_total + amount;
            pool.side_a_bet_count = pool.side_a_bet_count + 1;
        },
        BetSide::SideB => {
            pool.side_b_total = pool.side_b_total + amount;
            pool.side_b_bet_count = pool.side_b_bet_count + 1;
        },
    }
    pool.bet_count = pool.bet_count + 1;
    Ok(Bet {
        bettor,
        match_id: pool.match_id,
        side: bet_side,
        amount,
        claimed: false,
    })
}

} // verus!
