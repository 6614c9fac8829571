//! Abandonment sweeps, fee withdrawal, and final match teardown.

use rawl::admin::initialize;
use rawl::betting::place_bet;
use rawl::constants::CLAIM_WINDOW_SECONDS;
use rawl::errors::{ErrorKind, RawlError};
use rawl::lifecycle::{cancel_match, create_match, lock_match, resolve_match};
use rawl::settlement::{claim_payout, close_bet};
use rawl::sweep::{close_match, sweep_cancelled, sweep_unclaimed, withdraw_fees};
use rawl::state::{MatchId, MatchPool, PlatformConfig, Pubkey, Vault};

fn key(n: u64) -> Pubkey {
    Pubkey::new(n, 0, 0, 0)
}

fn setup(fee_bps: u16) -> PlatformConfig {
    initialize(key(1), key(2), key(3), fee_bps, 1800).unwrap()
}

fn open_match(config: &PlatformConfig) -> (MatchPool, Vault) {
    create_match(
        config,
        key(1),
        MatchId::new(9, 9, 9, 9),
        key(4),
        key(5),
        0,
        0,
        100,
    )
    .unwrap()
}

#[test]
fn sweep_unclaimed_forfeits_to_treasury_after_window() {
    let config = setup(300);
    let (mut pool, mut vault) = open_match(&config);
    let winner = place_bet(&mut pool, &mut vault, key(6), 0, 1_000, 100).unwrap();
    let loser = place_bet(&mut pool, &mut vault, key(7), 1, 1_000, 100).unwrap();
    let _ = loser;
    lock_match(&mut pool, key(2), 150).unwrap();
    resolve_match(&mut pool, key(2), 0, 200).unwrap();
    // Too early: the claim window has not elapsed.
    let early = sweep_unclaimed(&mut pool, &winner, &mut vault, &config, key(1), 200 + 10);
    assert_eq!(early, Err(RawlError::ClaimWindowNotElapsed));
    assert_eq!(early.unwrap_err().kind(), ErrorKind::Timing);
    // At the window boundary the sweep goes through, at the snapshotted fee:
    // fee 3% of 2000 = 60, net 1940, payout floor(1940*1000/1000) = 1940.
    let swept = sweep_unclaimed(
        &mut pool,
        &winner,
        &mut vault,
        &config,
        key(1),
        200 + CLAIM_WINDOW_SECONDS,
    )
    .unwrap();
    assert_eq!(swept, 1940);
    assert_eq!(pool.winning_bet_count, 0);
    assert_eq!(pool.bet_count, 1);
    assert_eq!(vault.balance, 60);
}

#[test]
fn sweep_unclaimed_requires_authority() {
    let config = setup(300);
    let (mut pool, mut vault) = open_match(&config);
    let winner = place_bet(&mut pool, &mut vault, key(6), 0, 1_000, 100).unwrap();
    lock_match(&mut pool, key(2), 150).unwrap();
    resolve_match(&mut pool, key(2), 0, 200).unwrap();
    let r = sweep_unclaimed(
        &mut pool,
        &winner,
        &mut vault,
        &config,
        key(9),
        200 + CLAIM_WINDOW_SECONDS,
    );
    assert_eq!(r, Err(RawlError::Unauthorized));
}

#[test]
fn sweep_unclaimed_skips_claimed_and_losing_bets() {
    let config = setup(300);
    let (mut pool, mut vault) = open_match(&config);
    let mut winner = place_bet(&mut pool, &mut vault, key(6), 0, 1_000, 100).unwrap();
    let loser = place_bet(&mut pool, &mut vault, key(7), 1, 1_000, 100).unwrap();
    lock_match(&mut pool, key(2), 150).unwrap();
    resolve_match(&mut pool, key(2), 0, 200).unwrap();
    claim_payout(&mut pool, &mut winner, &mut vault, &config).unwrap();
    let late = 200 + CLAIM_WINDOW_SECONDS;
    let claimed = sweep_unclaimed(&mut pool, &winner, &mut vault, &config, key(1), late);
    assert_eq!(claimed, Err(RawlError::AlreadyClaimed));
    let losing = sweep_unclaimed(&mut pool, &loser, &mut vault, &config, key(1), late);
    assert_eq!(losing, Err(RawlError::BetOnLosingSide));
}

#[test]
fn sweep_cancelled_returns_stake_to_bettor_after_window() {
    let config = setup(300);
    let (mut pool, mut vault) = open_match(&config);
    let bet = place_bet(&mut pool, &mut vault, key(6), 0, 5_000, 100).unwrap();
    cancel_match(&mut pool, &config, key(1), 150).unwrap();
    let early = sweep_cancelled(&mut pool, &bet, &mut vault, 150 + CLAIM_WINDOW_SECONDS - 1);
    assert_eq!(early, Err(RawlError::ClaimWindowNotElapsed));
    let swept = sweep_cancelled(&mut pool, &bet, &mut vault, 150 + CLAIM_WINDOW_SECONDS)
        .unwrap();
    // The abandoned stake goes back to the bettor in full, not forfeited.
    assert_eq!(swept, 5_000);
    assert_eq!(vault.balance, 0);
    assert_eq!(pool.bet_count, 0);
}

#[test]
fn sweep_cancelled_requires_cancelled() {
    let config = setup(300);
    let (mut pool, mut vault) = open_match(&config);
    let bet = place_bet(&mut pool, &mut vault, key(6), 0, 5_000, 100).unwrap();
    let r = sweep_cancelled(&mut pool, &bet, &mut vault, 150 + CLAIM_WINDOW_SECONDS);
    assert_eq!(r, Err(RawlError::MatchNotCancelled));
}

#[test]
fn withdraw_fees_collects_snapshot_fee_once() {
    let config = setup(300);
    let (mut pool, mut vault) = open_match(&config);
    let mut winner = place_bet(&mut pool, &mut vault, key(6), 0, 10_000, 100).unwrap();
    let loser = place_bet(&mut pool, &mut vault, key(7), 1, 10_000, 100).unwrap();
    lock_match(&mut pool, key(2), 150).unwrap();
    resolve_match(&mut pool, key(2), 0, 200).unwrap();
    let late = 200 + CLAIM_WINDOW_SECONDS;
    // Refused while the winner is still outstanding.
    let blocked = withdraw_fees(&mut pool, &mut vault, &config, key(1), late);
    assert_eq!(blocked, Err(RawlError::WinningBetCountNotZero));
    claim_payout(&mut pool, &mut winner, &mut vault, &config).unwrap();
    close_bet(&mut pool, &winner).unwrap();
    close_bet(&mut pool, &loser).unwrap();
    // Refused before the window elapses.
    let early = withdraw_fees(&mut pool, &mut vault, &config, key(1), 300);
    assert_eq!(early, Err(RawlError::ClaimWindowNotElapsed));
    // fee = floor(20_000 * 300 / 10_000) = 600.
    let fee = withdraw_fees(&mut pool, &mut vault, &config, key(1), late).unwrap();
    assert_eq!(fee, 600);
    assert!(pool.fees_withdrawn);
    // Idempotence: a second withdrawal fails with a conflict error.
    let again = withdraw_fees(&mut pool, &mut vault, &config, key(1), late);
    assert_eq!(again, Err(RawlError::FeesAlreadyWithdrawn));
    assert_eq!(again.unwrap_err().kind(), ErrorKind::Conflict);
}

#[test]
fn withdraw_fees_requires_authority_and_resolved() {
    let config = setup(300);
    let (mut pool, mut vault) = open_match(&config);
    let r = withdraw_fees(&mut pool, &mut vault, &config, key(9), 100);
    assert_eq!(r, Err(RawlError::Unauthorized));
    let r2 = withdraw_fees(&mut pool, &mut vault, &config, key(1), 100);
    assert_eq!(r2, Err(RawlError::MatchNotResolved));
}

#[test]
fn withdraw_fees_is_capped_at_vault_balance() {
    // No-winners resolution, both refunds taken: the vault keeps only the
    // haircut, which is less than the nominal fee on the gross pool.
    let config = setup(300);
    let (mut pool, mut vault) = open_match(&config);
    let bet1 = place_bet(&mut pool, &mut vault, key(6), 0, 5_000_000, 100).unwrap();
    let bet2 = place_bet(&mut pool, &mut vault, key(7), 0, 3_000_000, 100).unwrap();
    lock_match(&mut pool, key(2), 150).unwrap();
    resolve_match(&mut pool, key(2), 1, 200).unwrap();
    rawl::settlement::refund_no_winners(&mut pool, &bet1, &mut vault).unwrap();
    rawl::settlement::refund_no_winners(&mut pool, &bet2, &mut vault).unwrap();
    assert_eq!(vault.balance, 240_000);
    let fee = withdraw_fees(&mut pool, &mut vault, &config, key(1), 200 + CLAIM_WINDOW_SECONDS)
        .unwrap();
    assert_eq!(fee, 240_000);
    assert_eq!(vault.balance, 0);
}

#[test]
fn close_match_drains_remainder_to_authority() {
    let config = setup(300);
    let (mut pool, mut vault) = open_match(&config);
    let mut winner = place_bet(&mut pool, &mut vault, key(6), 0, 600, 100).unwrap();
    let loser = place_bet(&mut pool, &mut vault, key(7), 1, 400, 100).unwrap();
    lock_match(&mut pool, key(2), 150).unwrap();
    resolve_match(&mut pool, key(2), 0, 200).unwrap();
    // Refused while bet records remain.
    let blocked = close_match(&pool, &mut vault, &config, key(1));
    assert_eq!(blocked, Err(RawlError::BetCountNotZero));
    assert_eq!(blocked.unwrap_err().kind(), ErrorKind::State);
    claim_payout(&mut pool, &mut winner, &mut vault, &config).unwrap();
    close_bet(&mut pool, &winner).unwrap();
    close_bet(&mut pool, &loser).unwrap();
    // fee 3% of 1000 = 30, net 970, payout floor(970*600/600) = 970.
    assert_eq!(vault.balance, 30);
    let remainder = close_match(&pool, &mut vault, &config, key(1)).unwrap();
    assert_eq!(remainder, 30);
    assert_eq!(vault.balance, 0);
}

#[test]
fn close_match_requires_authority() {
    let config = setup(300);
    let (pool, mut vault) = open_match(&config);
    let r = close_match(&pool, &mut vault, &config, key(9));
    assert_eq!(r, Err(RawlError::Unauthorized));
}
