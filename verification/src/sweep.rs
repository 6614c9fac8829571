//! Abandonment handling: once the 30-day claim window has elapsed, unclaimed
//! funds are swept so that nothing is stranded forever, and the match record
//! itself can finally be torn down.

use vstd::prelude::*;
use crate::constants::CLAIM_WINDOW_SECONDS;
use crate::errors::RawlError;
use crate::payout::{
    compute_fee, compute_payout, fee_amount, payout_representable, total_pool, winner_payout,
};
use crate::settlement::dec_saturating;
use crate::state::{Bet, MatchPool, MatchStatus, MatchWinner, PlatformConfig, Pubkey, Vault};
use crate::time::{elapsed_spec, elapsed_since};

verus! {

/// The first reason `sweep_unclaimed` refuses, or `None` when it sweeps:
/// authority only, match resolved, bet an unclaimed winner, claim window
/// elapsed since resolution, payout representable, vault able to cover it.
pub open spec fn sweep_unclaimed_check(
    pool: MatchPool,
    bet: Bet,
    vault: Vault,
    authority: Pubkey,
    caller: Pubkey,
    now: i64,
) -> Option<RawlError> {
    if caller != authority {
        Some(RawlError::Unauthorized)
    } else if pool.status != MatchStatus::Resolved {
        Some(RawlError::MatchNotResolved)
    } else if bet.claimed {
        Some(RawlError::AlreadyClaimed)
    } else if !bet.is_winner_spec(pool.winner) {
        Some(RawlError::BetOnLosingSide)
    } else if elapsed_spec(now, pool.resolve_timestamp) < CLAIM_WINDOW_SECONDS {
        Some(RawlError::ClaimWindowNotElapsed)
    } else if !payout_representable(
        pool.side_a_total,
        pool.side_b_total,
        pool.fee_bps,
        bet.amount,
        pool.winning_side_total(),
    ) {
        Some(RawlError::Overflow)
    } else if winner_payout(
        pool.side_a_total,
        pool.side_b_total,
        pool.fee_bps,
        bet.amount,
        pool.winning_side_total(),
    ) > vault.balance {
        Some(RawlError::InsufficientVault)
    } else {
        None
    }
}

/// Forfeit a winning bet that was never claimed within the claim window:
/// its payout — computed with the match's snapshotted fee rate — goes to
/// the **treasury**, not the bettor. Decrements both the winning-bet count
/// and the open-bet count; on success the host moves the payout to the
/// treasury and destroys the bet record.
pub fn sweep_unclaimed(
    pool: &mut MatchPool,
    bet: &Bet,
    vault: &mut Vault,
    config: &PlatformConfig,
    caller: Pubkey,
    now: i64,
) -> (r: Result<u64, RawlError>)
    requires
        old(pool).wf(),
    ensures
        match r {
            Ok(payout) => {
                &&& sweep_unclaimed_check(
                    *old(pool), *bet, *old(vault), config.authority, caller, now) is None
                &&& payout == winner_payout(
                    old(pool).side_a_total,
                    old(pool).side_b_total,
                    old(pool).fee_bps,
                    bet.amount,
                    old(pool).winning_side_total(),
                )
                &&& final(vault).balance == old(vault).balance - payout
                &&& *final(pool) == (MatchPool {
                    winning_bet_count: dec_saturating(old(pool).winning_bet_count),
                    bet_count: dec_saturating(old(pool).bet_count),
                    ..*old(pool)
                })
            },
            Err(e) => {
                &&& Some(e) == sweep_unclaimed_check(
                    *old(pool), *bet, *old(vault), config.authority, caller, now)
                &&& *final(pool) == *old(pool)
                &&& *final(vault) == *old(vault)
            },
        },
{
    if caller != config.authority {
        return Err(RawlError::Unauthorized);
    }
    match pool.status {
        MatchStatus::Resolved => {},
        MatchStatus::Open | MatchStatus::Locked | MatchStatus::Cancelled => {
            return Err(RawlError::MatchNotResolved);
        },
    }
    if bet.claimed {
        return Err(RawlError::AlreadyClaimed);
    }
    if !bet.is_winner(pool.winner) {
        return Err(RawlError::BetOnLosingSide);
    }
    let elapsed = elapsed_since(now, pool.resolve_timestamp);
    if elapsed < CLAIM_WINDOW_SECONDS {
        return Err(RawlError::ClaimWindowNotElapsed);
    }
    let winning_side_total = match pool.winner {
        MatchWinner::SideA => pool.side_a_total,
        MatchWinner::SideB => pool.side_b_total,
        MatchWinner::Undecided => {
            return Err(RawlError::InvalidMatchStatus);
        },
    };
    let payout = match compute_payout(
        pool.side_a_total,
        pool.side_b_total,
        pool.fee_bps,
        bet.amount,
        winning_side_total,
    ) {
        Ok(p) => p,
        Err(e) => {
            return Err(e);
        },
    };
    if payout > vault.balance {
        return Err(RawlError::InsufficientVault);
    }
    vault.debit(payout);
    pool.winning_bet_count = pool.winning_bet_count.saturating_sub(1);
    pool.bet_count = pool.bet_count.saturating_sub(1);
    Ok(payout)
}

/// Return an abandoned stake on a cancelled match to the **bettor's recorded
/// address** — cancellation is not the bettor's fault, so nothing is
/// forfeited. Permissionless once the claim window has elapsed since
/// cancellation. The transfer is capped at the current vault balance. On
/// success the host moves the amount to the bettor and destroys the record.
pub fn sweep_cancelled(
    pool: &mut MatchPool,
    bet: &Bet,
    vault: &mut Vault,
    now: i64,
) -> (r: Result<u64, RawlError>)
    ensures
        match r {
            Ok(amount) => {
                &&& old(pool).status == MatchStatus::Cancelled
                &&& elapsed_spec(now, old(pool).cancel_timestamp) >= CLAIM_WINDOW_SECONDS
                &&& amount == if bet.amount <= old(vault).balance {
                    bet.amount
                } else {
                    old(vault).balance
                }
                &&& final(vault).balance == old(vault).balance - amount
                &&& *final(pool) == (MatchPool {
                    bet_count: dec_saturating(old(pool).bet_count),
                    ..*old(pool)
                })
            },
            Err(e) => {
                &&& *final(pool) == *old(pool)
                &&& *final(vault) == *old(vault)
                &&& if old(pool).status != MatchStatus::Cancelled {
                    e == RawlError::MatchNotCancelled
                } else {
                    &&& elapsed_spec(now, old(pool).cancel_timestamp)
                        < CLAIM_WINDOW_SECONDS
                    &&& e == RawlError::ClaimWindowNotElapsed
                }
            },
        },
{
    match pool.status {
        MatchStatus::Cancelled => {},
        MatchStatus::Open | MatchStatus::Locked | MatchStatus::Resolved => {
            return Err(RawlError::MatchNotCancelled);
        },
    }
    let elapsed = elapsed_since(now, pool.cancel_timestamp);
    if elapsed < CLAIM_WINDOW_SECONDS {
        return Err(RawlError::ClaimWindowNotElapsed);
    }
    let amount = if bet.amount <= vault.balance {
        bet.amount
    } else {
        vault.balance
    };
    vault.debit(amount);
    pool.bet_count = pool.bet_count.saturating_sub(1);
    Ok(amount)
}

/// The first reason `withdraw_fees` refuses, or `None` when it collects:
/// authority only, match resolved, fee not yet taken, every winner settled
/// or swept, claim window elapsed since resolution.
pub open spec fn withdraw_fees_check(
    pool: MatchPool,
    authority: Pubkey,
    caller: Pubkey,
    now: i64,
) -> Option<RawlError> {
    if caller != authority {
        Some(RawlError::Unauthorized)
    } else if pool.status != MatchStatus::Resolved {
        Some(RawlError::MatchNotResolved)
    } else if pool.fees_withdrawn {
        Some(RawlError::FeesAlreadyWithdrawn)
    } else if pool.winning_bet_count != 0 {
        Some(RawlError::WinningBetCountNotZero)
    } else if elapsed_spec(now, pool.resolve_timestamp) < CLAIM_WINDOW_SECONDS {
        Some(RawlError::ClaimWindowNotElapsed)
    } else {
        None
    }
}

/// Collect the platform fee on a resolved match, one time only, after every
/// winner has settled or been swept and the claim window has elapsed. The
/// fee comes from the snapshotted rate and the gross pool, capped at the
/// vault balance; the host moves it to the treasury.
pub fn withdraw_fees(
    pool: &mut MatchPool,
    vault: &mut Vault,
    config: &PlatformConfig,
    caller: Pubkey,
    now: i64,
) -> (r: Result<u64, RawlError>)
    requires
        old(pool).wf(),
    ensures
        match r {
            Ok(amount) => {
                &&& withdraw_fees_check(*old(pool), config.authority, caller, now) is None
                &&& amount == ({
                    let fee = fee_amount(
                        total_pool(old(pool).side_a_total, old(pool).side_b_total),
                        old(pool).fee_bps,
                    );
                    if fee <= old(vault).balance { fee } else { old(vault).balance as int }
                })
                &&& final(vault).balance == old(vault).balance - amount
                &&& *final(pool) == (MatchPool { fees_withdrawn: true, ..*old(pool) })
            },
            Err(e) => {
                &&& *final(pool) == *old(pool)
                &&& *final(vault) == *old(vault)
                &&& Some(e) == withdraw_fees_check(*old(pool), config.authority, caller, now)
            },
        },
{
    if caller != config.authority {
        return Err(RawlError::Unauthorized);
    }
    match pool.status {
        MatchStatus::Resolved => {},
        MatchStatus::Open | MatchStatus::Locked | MatchStatus::Cancelled => {
            return Err(RawlError::MatchNotResolved);
        },
    }
    if pool.fees_withdrawn {
        return Err(RawlError::FeesAlreadyWithdrawn);
    }
    if pool.winning_bet_count != 0 {
        return Err(RawlError::WinningBetCountNotZero);
    }
    let elapsed = elapsed_since(now, pool.resolve_timestamp);
    if elapsed < CLAIM_WINDOW_SECONDS {
        return Err(RawlError::ClaimWindowNotElapsed);
    }
    let fee = compute_fee(pool.side_a_total, pool.side_b_total, pool.fee_bps);
    let amount = if fee <= vault.balance {
        fee
    } else {
        vault.balance
    };
    vault.debit(amount);
    pool.fees_withdrawn = true;
    Ok(amount)
}

/// One-time fee collection. A successful `withdraw_fees` sets
/// `fees_withdrawn` (its `ensures` say so); this law adds that the next
/// attempt on that pool — by the authority, at any time — is refused with
/// the conflict error `FeesAlreadyWithdrawn`.
pub proof fn theorem_withdraw_fees_exactly_once(pool: MatchPool, authority: Pubkey, now: i64)
    requires
        pool.status == MatchStatus::Resolved,
        pool.fees_withdrawn,
    ensures
        withdraw_fees_check(pool, authority, authority, now)
            == Some(RawlError::FeesAlreadyWithdrawn),
{
}

/// Final teardown once every bet record is closed: drain whatever remains
/// in the vault to the platform authority. On success the host moves the
/// remainder and destroys the match pool and vault records.
pub fn close_match(
    pool: &MatchPool,
    vault: &mut Vault,
    config: &PlatformConfig,
    caller: Pubkey,
) -> (r: Result<u64, RawlError>)
    ensures
        match r {
            Ok(remainder) => {
                &&& caller == config.authority
                &&& pool.bet_count == 0
                &&& remainder == old(vault).balance
                &&& final(vault).balance == 0
            },
            Err(e) => {
                &&& *final(vault) == *old(vault)
                &&& if caller != config.authority {
                    e == RawlError::Unauthorized
                } else {
                    pool.bet_count != 0 && e == RawlError::BetCountNotZero
                }
            },
        },
{
    if caller != config.authority {
        return Err(RawlError::Unauthorized);
    }
    if pool.bet_count != 0 {
        return Err(RawlError::BetCountNotZero);
    }
    let remainder = vault.balance;
    vault.debit(remainder);
    Ok(remainder)
}

} // verus!
