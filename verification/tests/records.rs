//! The record types themselves: identities, winner tests, the vault cap in
//! the cancelled sweep, and clamped time arithmetic at the extremes.

use rawl::admin::initialize;
use rawl::betting::place_bet;
use rawl::constants::CLAIM_WINDOW_SECONDS;
use rawl::errors::RawlError;
use rawl::lifecycle::{cancel_match, create_match, lock_match, timeout_match};
use rawl::state::{Bet, BetSide, MatchId, MatchWinner, Pubkey, Vault};
use rawl::sweep::sweep_cancelled;

fn key(n: u64) -> Pubkey {
    Pubkey::new(n, 0, 0, 0)
}

#[test]
fn pubkey_and_match_id_compare_by_words() {
    assert_eq!(Pubkey::new(1, 2, 3, 4), Pubkey::new(1, 2, 3, 4));
    assert_ne!(Pubkey::new(1, 2, 3, 4), Pubkey::new(1, 2, 3, 5));
    assert_eq!(MatchId::new(7, 0, 0, 0), MatchId::new(7, 0, 0, 0));
    assert_ne!(MatchId::new(7, 0, 0, 0), MatchId::new(8, 0, 0, 0));
}

#[test]
fn bet_is_winner_matches_side_against_winner() {
    let bet_a = Bet {
        bettor: key(6),
        match_id: MatchId::new(9, 9, 9, 9),
        side: BetSide::SideA,
        amount: 100,
        claimed: false,
    };
    assert!(bet_a.is_winner(MatchWinner::SideA));
    assert!(!bet_a.is_winner(MatchWinner::SideB));
    assert!(!bet_a.is_winner(MatchWinner::Undecided));
    let bet_b = Bet { side: BetSide::SideB, ..bet_a };
    assert!(bet_b.is_winner(MatchWinner::SideB));
    assert!(!bet_b.is_winner(MatchWinner::SideA));
}

#[test]
fn vault_starts_empty() {
    assert_eq!(Vault::new().balance, 0);
}

#[test]
fn sweep_cancelled_caps_at_vault_balance() {
    // If the host reports a vault short of the recorded stake, the sweep
    // returns what is there rather than overdrawing.
    let config = initialize(key(1), key(2), key(3), 300, 1800).unwrap();
    let (mut pool, mut vault) = create_match(
        &config,
        key(1),
        MatchId::new(9, 9, 9, 9),
        key(4),
        key(5),
        0,
        0,
        100,
    )
    .unwrap();
    let bet = place_bet(&mut pool, &mut vault, key(6), 0, 5_000, 100).unwrap();
    cancel_match(&mut pool, &config, key(1), 150).unwrap();
    vault = Vault { balance: 3_000 };
    let swept = sweep_cancelled(&mut pool, &bet, &mut vault, 150 + CLAIM_WINDOW_SECONDS)
        .unwrap();
    assert_eq!(swept, 3_000);
    assert_eq!(vault.balance, 0);
}

#[test]
fn timeout_clock_saturates_at_the_extremes() {
    // A lock far in the "future" relative to the reading: the clamped
    // elapsed time is hugely negative, so the timeout has not elapsed.
    let config = initialize(key(1), key(2), key(3), 300, 1800).unwrap();
    let (mut pool, _vault) = create_match(
        &config,
        key(1),
        MatchId::new(9, 9, 9, 9),
        key(4),
        key(5),
        0,
        0,
        100,
    )
    .unwrap();
    lock_match(&mut pool, key(2), i64::MAX).unwrap();
    let r = timeout_match(&mut pool, &config, i64::MIN);
    assert_eq!(r, Err(RawlError::TimeoutNotElapsed));
    // And a reading far past an ancient lock saturates high: it elapses.
    let (mut pool2, _vault2) = create_match(
        &config,
        key(1),
        MatchId::new(9, 9, 9, 8),
        key(4),
        key(5),
        0,
        0,
        100,
    )
    .unwrap();
    lock_match(&mut pool2, key(2), i64::MIN).unwrap();
    assert!(timeout_match(&mut pool2, &config, i64::MAX).is_ok());
}
