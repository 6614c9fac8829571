//! Per-bet settlement once a match is terminal: winner claims, the
//! no-winners refund, the cancellation refund, and record close-out.
//!
//! Each operation returns the amount the host must move out of the vault
//! (0 for `close_bet`); on success of a refund or close the host also
//! destroys the bet record, which the decremented `bet_count` accounts for.
//! These operations are self-only: the host's addressing layer resolves the
//! caller's own bet record and hands it in, so no bettor check appears here.

use vstd::prelude::*;
use crate::errors::RawlError;
use crate::payout::{
    compute_no_winners_refund, compute_payout, no_winners_refund, payout_representable,
    winner_payout,
};
use crate::state::{Bet, MatchPool, MatchStatus, MatchWinner, PlatformConfig, Vault};

verus! {

/// A counter decrement that sticks at zero, as the settlement bookkeeping
/// uses: counts never wrap below zero.
pub open spec fn dec_saturating(n: u32) -> u32 {
    if n > 0 {
        (n - 1) as u32
    } else {
        0
    }
}

/// The first reason `claim_payout` refuses, or `None` when it pays: the
/// match must be resolved, the bet unclaimed and on the winning side, the
/// payout representable in 64 bits, and the vault able to cover it.
pub open spec fn claim_payout_check(
    pool: MatchPool,
    bet: Bet,
    vault: Vault,
    fee_bps: u16,
) -> Option<RawlError> {
    if pool.status != MatchStatus::Resolved {
        Some(RawlError::MatchNotResolved)
    } else if bet.claimed {
        Some(RawlError::AlreadyClaimed)
    } else if !bet.is_winner_spec(pool.winner) {
        Some(RawlError::BetOnLosingSide)
    } else if !payout_representable(
        pool.side_a_total,
        pool.side_b_total,
        fee_bps,
        bet.amount,
        pool.winning_side_total(),
    ) {
        Some(RawlError::Overflow)
    } else if winner_payout(
        pool.side_a_total,
        pool.side_b_total,
        fee_bps,
        bet.amount,
        pool.winning_side_total(),
    ) > vault.balance {
        Some(RawlError::InsufficientVault)
    } else {
        None
    }
}

/// Pay a winning bet its share of the net pool, computed with the **live**
/// platform fee rate read at claim time. Marks the bet claimed — a second
/// claim fails with `AlreadyClaimed` — and decrements the outstanding
/// winning-bet count. Returns the amount the host must move from the vault
/// to the bettor.
pub fn claim_payout(
    pool: &mut MatchPool,
    bet: &mut Bet,
    vault: &mut Vault,
    config: &PlatformConfig,
) -> (r: Result<u64, RawlError>)
    requires
        config.wf(),
    ensures
        match r {
            Ok(payout) => {
                &&& claim_payout_check(*old(pool), *old(bet), *old(vault), config.fee_bps)
                    is None
                &&& payout == winner_payout(
                    old(pool).side_a_total,
                    old(pool).side_b_total,
                    config.fee_bps,
                    old(bet).amount,
                    old(pool).winning_side_total(),
                )
                &&& *final(bet) == (Bet { claimed: true, ..*old(bet) })
                &&& final(vault).balance == old(vault).balance - payout
                &&& *final(pool) == (MatchPool {
                    winning_bet_count: dec_saturating(old(pool).winning_bet_count),
                    ..*old(pool)
                })
            },
            Err(e) => {
                &&& Some(e) == claim_payout_check(
                    *old(pool), *old(bet), *old(vault), config.fee_bps)
                &&& *final(pool) == *old(pool)
                &&& *final(bet) == *old(bet)
                &&& *final(vault) == *old(vault)
            },
        },
{
    match pool.status {
        MatchStatus::Resolved => {},
        MatchStatus::Open | MatchStatus::Locked | MatchStatus::Cancelled => {
            return Err(RawlError::MatchNotResolved);
        },
    }
    if bet.claimed {
        return Err(RawlError::AlreadyClaimed);
    }
    if !bet.is_winner(pool.winner) {
        return Err(RawlError::BetOnLosingSide);
    }
    let winning_side_total = match pool.winner {
        MatchWinner::SideA => pool.side_a_total,
        MatchWinner::SideB => pool.side_b_total,
        MatchWinner::Undecided => {
            return Err(RawlError::InvalidMatchStatus);
        },
    };
    let payout = match compute_payout(
        pool.side_a_total,
        pool.side_b_total,
        config.fee_bps,
        bet.amount,
        winning_side_total,
    ) {
        Ok(p) => p,
        Err(e) => {
            return Err(e);
        },
    };
    if payout > vault.balance {
        return Err(RawlError::InsufficientVault);
    }
    vault.debit(payout);
    bet.claimed = true;
    pool.winning_bet_count = pool.winning_bet_count.saturating_sub(1);
    Ok(payout)
}

/// Exactly-once payout. A successful `claim_payout` marks the bet claimed
/// (its `ensures` say so); this law adds that a claimed bet's next claim —
/// against any later pool and vault state of the still-resolved match, at
/// any fee rate — is refused with the conflict error `AlreadyClaimed`.
/// Together: a claim succeeds at most once, and the second attempt fails
/// the same way every time.
pub proof fn theorem_claim_exactly_once(
    bet: Bet,
    pool: MatchPool,
    vault: Vault,
    fee_bps: u16,
)
    requires
        bet.claimed,
        pool.status == MatchStatus::Resolved,
    ensures
        claim_payout_check(pool, bet, vault, fee_bps) == Some(RawlError::AlreadyClaimed),
{
}

/// Return a cancelled match's stake in full — no fee. On success the host
/// moves the stake back to the bettor and destroys the bet record.
pub fn refund_bet(
    pool: &mut MatchPool,
    bet: &Bet,
    vault: &mut Vault,
) -> (r: Result<u64, RawlError>)
    ensures
        match r {
            Ok(amount) => {
                &&& old(pool).status == MatchStatus::Cancelled
                &&& amount == bet.amount
                &&& amount <= old(vault).balance
                &&& final(vault).balance == old(vault).balance - amount
                &&& *final(pool) == (MatchPool {
                    bet_count: dec_saturating(old(pool).bet_count),
                    ..*old(pool)
                })
            },
            Err(e) => {
                &&& *final(pool) == *old(pool)
                &&& *final(vault) == *old(vault)
                &&& if old(pool).status != MatchStatus::Cancelled {
                    e == RawlError::MatchNotCancelled
                } else {
                    bet.amount > old(vault).balance && e == RawlError::InsufficientVault
                }
            },
        },
{
    match pool.status {
        MatchStatus::Cancelled => {},
        MatchStatus::Open | MatchStatus::Locked | MatchStatus::Resolved => {
            return Err(RawlError::MatchNotCancelled);
        },
    }
    if bet.amount > vault.balance {
        return Err(RawlError::InsufficientVault);
    }
    vault.debit(bet.amount);
    pool.bet_count = pool.bet_count.saturating_sub(1);
    Ok(bet.amount)
}

/// The first reason `refund_no_winners` refuses, or `None` when it refunds:
/// the match must be resolved with a winning side that holds no stake at all
/// — a `winning_bet_count` of 0 alone is not enough, since that counter also
/// reaches 0 once every winner has claimed — the bet must be unclaimed (a
/// claimed bet can never be refunded), and the vault must cover the refund.
pub open spec fn refund_no_winners_check(
    pool: MatchPool,
    bet: Bet,
    vault: Vault,
) -> Option<RawlError> {
    if pool.status != MatchStatus::Resolved {
        Some(RawlError::MatchNotResolved)
    } else if pool.winning_bet_count != 0 {
        Some(RawlError::WinningBetCountNotZero)
    } else if pool.winner == MatchWinner::Undecided {
        Some(RawlError::InvalidMatchStatus)
    } else if pool.winning_side_total() > 0 {
        Some(RawlError::WinningBetCountNotZero)
    } else if bet.claimed {
        Some(RawlError::AlreadyClaimed)
    } else if no_winners_refund(bet.amount, pool.fee_bps) > vault.balance {
        Some(RawlError::InsufficientVault)
    } else {
        None
    }
}

/// Refund a bet on a resolved match whose winning side has no bets: the
/// stake minus its proportional fee share, computed with the fee rate
/// **snapshotted on the match** at creation, so later platform fee changes
/// cannot reach an already-resolved match. This path opens only when the
/// resolution produced no winners at all — a winning side holding stake
/// closes it for good, even after every winner has settled — and never pays
/// a claimed bet. On success the host moves the refund to the bettor and
/// destroys the bet record.
pub fn refund_no_winners(
    pool: &mut MatchPool,
    bet: &Bet,
    vault: &mut Vault,
) -> (r: Result<u64, RawlError>)
    requires
        old(pool).wf(),
    ensures
        match r {
            Ok(refund) => {
                &&& refund_no_winners_check(*old(pool), *bet, *old(vault)) is None
                &&& refund == no_winners_refund(bet.amount, old(pool).fee_bps)
                &&& final(vault).balance == old(vault).balance - refund
                &&& *final(pool) == (MatchPool {
                    bet_count: dec_saturating(old(pool).bet_count),
                    ..*old(pool)
                })
            },
            Err(e) => {
                &&& Some(e) == refund_no_winners_check(*old(pool), *bet, *old(vault))
                &&& *final(pool) == *old(pool)
                &&& *final(vault) == *old(vault)
            },
        },
{
    match pool.status {
        MatchStatus::Resolved => {},
        MatchStatus::Open | MatchStatus::Locked | MatchStatus::Cancelled => {
            return Err(RawlError::MatchNotResolved);
        },
    }
    if pool.winning_bet_count != 0 {
        return Err(RawlError::WinningBetCountNotZero);
    }
    let winning_side_total = match pool.winner {
        MatchWinner::SideA => pool.side_a_total,
        MatchWinner::SideB => pool.side_b_total,
        MatchWinner::Undecided => {
            return Err(RawlError::InvalidMatchStatus);
        },
    };
    if winning_side_total > 0 {
        return Err(RawlError::WinningBetCountNotZero);
    }
    if bet.claimed {
        return Err(RawlError::AlreadyClaimed);
    }
    let refund = compute_no_winners_refund(bet.amount, pool.fee_bps);
    if refund > vault.balance {
        return Err(RawlError::InsufficientVault);
    }
    vault.debit(refund);
    pool.bet_count = pool.bet_count.saturating_sub(1);
    Ok(refund)
}

/// Close out a bet record on a resolved match without moving funds: a
/// losing bet, or a winning bet that has already been claimed. On success
/// the host destroys the bet record.
pub fn close_bet(pool: &mut MatchPool, bet: &Bet) -> (r: Result<(), RawlError>)
    ensures
        match r {
            Ok(()) => {
                &&& old(pool).status == MatchStatus::Resolved
                &&& (bet.is_winner_spec(old(pool).winner) ==> bet.claimed)
                &&& *final(pool) == (MatchPool {
                    bet_count: dec_saturating(old(pool).bet_count),
                    ..*old(pool)
                })
            },
            Err(e) => {
                &&& *final(pool) == *old(pool)
                &&& if old(pool).status != MatchStatus::Resolved {
                    e == RawlError::MatchNotResolved
                } else {
                    &&& bet.is_winner_spec(old(pool).winner) && !bet.claimed
                    &&& e == RawlError::AlreadyClaimed
                }
            },
        },
{
    match pool.status {
        MatchStatus::Resolved => {},
        MatchStatus::Open | MatchStatus::Locked | MatchStatus::Cancelled => {
            return Err(RawlError::MatchNotResolved);
        },
    }
    if bet.is_winner(pool.winner) {
        if !bet.claimed {
            return Err(RawlError::AlreadyClaimed);
        }
    }
    pool.bet_count = pool.bet_count.saturating_sub(1);
    Ok(())
}

} // verus!
