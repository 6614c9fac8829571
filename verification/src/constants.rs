//! Platform-wide constants: fee cap, settlement windows, and defaults.

use vstd::prelude::*;

verus! {

/// Basis-point denominator: 1 bps = 0.01%, so 10_000 bps = 100%.
pub const BPS_DENOMINATOR: u64 = 10_000;

/// Highest platform fee the configuration may carry (10%).
pub const MAX_FEE_BPS: u16 = 1000;

/// Default platform fee at initialization time (3%).
pub const DEFAULT_FEE_BPS: u16 = 300;

/// Default seconds a locked match may sit unresolved before anyone may
/// force-cancel it (30 minutes).
pub const DEFAULT_TIMEOUT_SECONDS: i64 = 1800;

/// Grace period after resolution or cancellation before unclaimed funds may
/// be administratively swept (30 days).
pub const CLAIM_WINDOW_SECONDS: i64 = 30 * 24 * 60 * 60;

/// Default minimum stake for a bet (0.01 SOL in lamports).
pub const DEFAULT_MIN_BET_LAMPORTS: u64 = 10_000_000;

/// Default seconds after match creation during which bets are accepted
/// (5 minutes).
pub const DEFAULT_BETTING_WINDOW_SECONDS: i64 = 300;

} // verus!
