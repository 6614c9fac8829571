//! The match lifecycle: creation, betting gates, locking, resolution, and
//! both cancellation paths.

use rawl::admin::initialize;
use rawl::betting::place_bet;
use rawl::constants::CLAIM_WINDOW_SECONDS;
use rawl::errors::{ErrorKind, RawlError};
use rawl::lifecycle::{cancel_match, create_match, lock_match, resolve_match, timeout_match};
use rawl::settlement::refund_bet;
use rawl::state::{MatchId, MatchPool, MatchStatus, MatchWinner, PlatformConfig, Pubkey, Vault};

fn key(n: u64) -> Pubkey {
    Pubkey::new(n, 0, 0, 0)
}

fn setup(fee_bps: u16, match_timeout: i64) -> PlatformConfig {
    initialize(key(1), key(2), key(3), fee_bps, match_timeout).unwrap()
}

fn open_match(config: &PlatformConfig, min_bet: u64, window: i64, now: i64) -> (MatchPool, Vault) {
    create_match(
        config,
        key(1),
        MatchId::new(9, 9, 9, 9),
        key(4),
        key(5),
        min_bet,
        window,
        now,
    )
    .unwrap()
}

#[test]
fn create_match_starts_open_with_snapshot() {
    let config = setup(300, 1800);
    let (pool, vault) = open_match(&config, 10, 60, 100);
    assert_eq!(pool.status, MatchStatus::Open);
    assert_eq!(pool.winner, MatchWinner::Undecided);
    assert_eq!(pool.side_a_total, 0);
    assert_eq!(pool.side_b_total, 0);
    assert_eq!(pool.bet_count, 0);
    assert_eq!(pool.winning_bet_count, 0);
    assert_eq!(pool.fee_bps, 300);
    assert_eq!(pool.min_bet, 10);
    assert_eq!(pool.betting_window, 60);
    assert_eq!(pool.created_at, 100);
    assert_eq!(pool.oracle, key(2));
    assert_eq!(pool.creator, key(1));
    assert!(!pool.fees_withdrawn);
    assert_eq!(vault.balance, 0);
}

#[test]
fn create_match_requires_authority() {
    let config = setup(300, 1800);
    let r = create_match(
        &config,
        key(42),
        MatchId::new(9, 9, 9, 9),
        key(4),
        key(5),
        0,
        0,
        100,
    );
    assert_eq!(r, Err(RawlError::Unauthorized));
}

#[test]
fn create_match_rejects_negative_window() {
    let config = setup(300, 1800);
    let r = create_match(
        &config,
        key(1),
        MatchId::new(9, 9, 9, 9),
        key(4),
        key(5),
        0,
        -1,
        100,
    );
    assert_eq!(r, Err(RawlError::InvalidBettingWindow));
}

#[test]
fn place_bet_updates_totals_and_mints_record() {
    let config = setup(300, 1800);
    let (mut pool, mut vault) = open_match(&config, 0, 0, 100);
    let bet = place_bet(&mut pool, &mut vault, key(6), 0, 500, 100).unwrap();
    assert_eq!(bet.bettor, key(6));
    assert_eq!(bet.amount, 500);
    assert!(!bet.claimed);
    assert_eq!(pool.side_a_total, 500);
    assert_eq!(pool.side_a_bet_count, 1);
    assert_eq!(pool.bet_count, 1);
    assert_eq!(vault.balance, 500);
    let bet2 = place_bet(&mut pool, &mut vault, key(7), 1, 300, 100).unwrap();
    assert_eq!(bet2.amount, 300);
    assert_eq!(pool.side_b_total, 300);
    assert_eq!(pool.side_b_bet_count, 1);
    assert_eq!(pool.bet_count, 2);
    assert_eq!(vault.balance, 800);
}

#[test]
fn place_bet_rejects_zero_amount() {
    let config = setup(300, 1800);
    let (mut pool, mut vault) = open_match(&config, 0, 0, 100);
    let r = place_bet(&mut pool, &mut vault, key(6), 0, 0, 100);
    assert_eq!(r, Err(RawlError::ZeroBetAmount));
    assert_eq!(r.unwrap_err().kind(), ErrorKind::Validation);
}

#[test]
fn place_bet_rejects_invalid_side() {
    let config = setup(300, 1800);
    let (mut pool, mut vault) = open_match(&config, 0, 0, 100);
    let r = place_bet(&mut pool, &mut vault, key(6), 2, 500, 100);
    assert_eq!(r, Err(RawlError::InvalidSide));
}

#[test]
fn place_bet_min_bet_boundary() {
    let config = setup(300, 1800);
    let (mut pool, mut vault) = open_match(&config, 10_000_000, 0, 100);
    let low = place_bet(&mut pool, &mut vault, key(6), 0, 9_999_999, 100);
    assert_eq!(low, Err(RawlError::BetBelowMinimum));
    assert_eq!(low.unwrap_err().kind(), ErrorKind::Validation);
    let exact = place_bet(&mut pool, &mut vault, key(6), 0, 10_000_000, 100);
    assert!(exact.is_ok());
}

#[test]
fn place_bet_window_boundary() {
    let config = setup(300, 1800);
    let (mut pool, mut vault) = open_match(&config, 0, 300, 1000);
    // Exactly at the deadline: accepted.
    let at_deadline = place_bet(&mut pool, &mut vault, key(6), 0, 500, 1300);
    assert!(at_deadline.is_ok());
    // One second later: refused with a timing error.
    let late = place_bet(&mut pool, &mut vault, key(7), 0, 500, 1301);
    assert_eq!(late, Err(RawlError::BettingWindowClosed));
    assert_eq!(late.unwrap_err().kind(), ErrorKind::Timing);
}

#[test]
fn place_bet_deadline_overflow_is_arithmetic_error() {
    let config = setup(300, 1800);
    let (mut pool, mut vault) = open_match(&config, 0, 300, i64::MAX - 10);
    let r = place_bet(&mut pool, &mut vault, key(6), 0, 500, i64::MAX - 5);
    assert_eq!(r, Err(RawlError::Overflow));
    assert_eq!(r.unwrap_err().kind(), ErrorKind::Arithmetic);
}

#[test]
fn place_bet_refused_after_lock() {
    let config = setup(300, 1800);
    let (mut pool, mut vault) = open_match(&config, 0, 0, 100);
    lock_match(&mut pool, key(2), 150).unwrap();
    let r = place_bet(&mut pool, &mut vault, key(6), 0, 500, 151);
    assert_eq!(r, Err(RawlError::MatchNotOpen));
    assert_eq!(r.unwrap_err().kind(), ErrorKind::State);
}

#[test]
fn lock_match_requires_oracle() {
    let config = setup(300, 1800);
    let (mut pool, _vault) = open_match(&config, 0, 0, 100);
    let r = lock_match(&mut pool, key(1), 150);
    assert_eq!(r, Err(RawlError::OracleUnauthorized));
    assert_eq!(r.unwrap_err().kind(), ErrorKind::Authorization);
    assert_eq!(pool.status, MatchStatus::Open);
}

#[test]
fn lock_match_sets_status_and_timestamp() {
    let config = setup(300, 1800);
    let (mut pool, _vault) = open_match(&config, 0, 0, 100);
    lock_match(&mut pool, key(2), 150).unwrap();
    assert_eq!(pool.status, MatchStatus::Locked);
    assert_eq!(pool.lock_timestamp, 150);
    // A second lock is a state error.
    let r = lock_match(&mut pool, key(2), 151);
    assert_eq!(r, Err(RawlError::MatchNotOpen));
}

#[test]
fn resolve_match_sets_winner_and_winning_count() {
    let config = setup(300, 1800);
    let (mut pool, mut vault) = open_match(&config, 0, 0, 100);
    place_bet(&mut pool, &mut vault, key(6), 0, 500, 100).unwrap();
    place_bet(&mut pool, &mut vault, key(7), 0, 300, 100).unwrap();
    place_bet(&mut pool, &mut vault, key(8), 1, 200, 100).unwrap();
    lock_match(&mut pool, key(2), 150).unwrap();
    resolve_match(&mut pool, key(2), 0, 200).unwrap();
    assert_eq!(pool.status, MatchStatus::Resolved);
    assert_eq!(pool.winner, MatchWinner::SideA);
    assert_eq!(pool.resolve_timestamp, 200);
    assert_eq!(pool.winning_bet_count, 2);
}

#[test]
fn resolve_match_requires_locked() {
    let config = setup(300, 1800);
    let (mut pool, _vault) = open_match(&config, 0, 0, 100);
    let r = resolve_match(&mut pool, key(2), 0, 200);
    assert_eq!(r, Err(RawlError::MatchNotLocked));
}

#[test]
fn resolve_match_rejects_bad_winner_code() {
    let config = setup(300, 1800);
    let (mut pool, _vault) = open_match(&config, 0, 0, 100);
    lock_match(&mut pool, key(2), 150).unwrap();
    let r = resolve_match(&mut pool, key(2), 2, 200);
    assert_eq!(r, Err(RawlError::InvalidSide));
    assert_eq!(pool.status, MatchStatus::Locked);
}

#[test]
fn resolve_match_requires_oracle() {
    let config = setup(300, 1800);
    let (mut pool, _vault) = open_match(&config, 0, 0, 100);
    lock_match(&mut pool, key(2), 150).unwrap();
    let r = resolve_match(&mut pool, key(9), 0, 200);
    assert_eq!(r, Err(RawlError::OracleUnauthorized));
}

#[test]
fn cancel_match_requires_authority() {
    let config = setup(300, 1800);
    let (mut pool, _vault) = open_match(&config, 0, 0, 100);
    let r = cancel_match(&mut pool, &config, key(2), 150);
    assert_eq!(r, Err(RawlError::Unauthorized));
}

#[test]
fn cancel_match_from_open_and_locked_only() {
    let config = setup(300, 1800);
    let (mut pool, _vault) = open_match(&config, 0, 0, 100);
    lock_match(&mut pool, key(2), 150).unwrap();
    resolve_match(&mut pool, key(2), 0, 200).unwrap();
    let r = cancel_match(&mut pool, &config, key(1), 250);
    assert_eq!(r, Err(RawlError::InvalidMatchStatus));
    assert_eq!(r.unwrap_err().kind(), ErrorKind::State);
}

#[test]
fn cancel_match_sets_cancelled() {
    let config = setup(300, 1800);
    let (mut pool, _vault) = open_match(&config, 0, 0, 100);
    cancel_match(&mut pool, &config, key(1), 150).unwrap();
    assert_eq!(pool.status, MatchStatus::Cancelled);
    assert_eq!(pool.cancel_timestamp, 150);
}

#[test]
fn timeout_match_requires_locked_and_elapsed() {
    let config = setup(300, 1800);
    let (mut pool, _vault) = open_match(&config, 0, 0, 100);
    let r = timeout_match(&mut pool, &config, 4000);
    assert_eq!(r, Err(RawlError::MatchNotLocked));
    lock_match(&mut pool, key(2), 1000).unwrap();
    // Exactly match_timeout seconds later: not yet strictly elapsed.
    let early = timeout_match(&mut pool, &config, 2800);
    assert_eq!(early, Err(RawlError::TimeoutNotElapsed));
    assert_eq!(early.unwrap_err().kind(), ErrorKind::Timing);
    assert_eq!(pool.status, MatchStatus::Locked);
}

#[test]
fn timeout_then_refund_returns_full_stake() {
    // Cancellation path: create -> bet -> lock -> wait past the timeout ->
    // permissionless timeout -> full refund, zero fee.
    let config = setup(300, 1800);
    let (mut pool, mut vault) = open_match(&config, 0, 0, 100);
    let bet = place_bet(&mut pool, &mut vault, key(6), 0, 7_000_000, 100).unwrap();
    lock_match(&mut pool, key(2), 1000).unwrap();
    timeout_match(&mut pool, &config, 1000 + 1800 + 1).unwrap();
    assert_eq!(pool.status, MatchStatus::Cancelled);
    assert_eq!(pool.cancel_timestamp, 2801);
    let refund = refund_bet(&mut pool, &bet, &mut vault).unwrap();
    assert_eq!(refund, 7_000_000);
    assert_eq!(vault.balance, 0);
    assert_eq!(pool.bet_count, 0);
}

#[test]
fn sweep_window_constant_is_thirty_days() {
    assert_eq!(CLAIM_WINDOW_SECONDS, 2_592_000);
}

#[test]
fn status_and_winner_defaults() {
    assert_eq!(MatchStatus::default(), MatchStatus::Open);
    assert_eq!(MatchWinner::default(), MatchWinner::Undecided);
}
