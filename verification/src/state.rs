//! The persistent records: platform configuration, per-match pool, per-bet
//! record, and the vault balance model.

use vstd::prelude::*;
use crate::constants::MAX_FEE_BPS;

verus! {

/// An opaque 32-byte identity (a public key), held as four 64-bit words.
/// The host's identity layer proves control of a key; the core only stores
/// and compares them.
#[derive(Clone, Copy, Debug, PartialEq, Eq, Structural)]
pub struct Pubkey {
    pub w0: u64,
    pub w1: u64,
    pub w2: u64,
    pub w3: u64,
}

impl Pubkey {
    pub fn new(w0: u64, w1: u64, w2: u64, w3: u64) -> (k: Pubkey)
        ensures
            k == (Pubkey { w0, w1, w2, w3 }),
    {
        Pubkey { w0, w1, w2, w3 }
    }
}

/// A 32-byte match identifier, held as four 64-bit words. The host's
/// addressing layer maps it to the match's records; the core only stores it.
#[derive(Clone, Copy, Debug, PartialEq, Eq, Structural)]
pub struct MatchId {
    pub w0: u64,
    pub w1: u64,
    pub w2: u64,
    pub w3: u64,
}

impl MatchId {
    pub fn new(w0: u64, w1: u64, w2: u64, w3: u64) -> (m: MatchId)
        ensures
            m == (MatchId { w0, w1, w2, w3 }),
    {
        MatchId { w0, w1, w2, w3 }
    }
}

/// The side of a match a bet backs.
#[derive(Clone, Copy, Debug, PartialEq, Eq, Structural)]
pub enum BetSide {
    SideA,
    SideB,
}

/// Where a match stands in its lifecycle.
/// Open -> Locked -> Resolved is the success path; Open or Locked may instead
/// end in Cancelled. Resolved and Cancelled are terminal.
#[derive(Clone, Copy, Debug, PartialEq, Eq, Structural)]
pub enum MatchStatus {
    Open,
    Locked,
    Resolved,
    Cancelled,
}

impl Default for MatchStatus {
    fn default() -> (s: Self)
        ensures
            s == MatchStatus::Open,
    {
        MatchStatus::Open
    }
}

/// The resolved outcome of a match. `Undecided` until resolution.
#[derive(Clone, Copy, Debug, PartialEq, Eq, Structural)]
pub enum MatchWinner {
    Undecided,
    SideA,
    SideB,
}

impl Default for MatchWinner {
    fn default() -> (w: Self)
        ensures
            w == MatchWinner::Undecided,
    {
        MatchWinner::Undecided
    }
}

/// Process-wide platform configuration: admin identities, fee rate, and
/// default timing. Created once by `initialize`, mutated only through the
/// authority-gated setters.
#[derive(Clone, Copy, Debug, PartialEq, Eq, Structural)]
pub struct PlatformConfig {
    /// Owner identity; may rotate via `update_authority`.
    pub authority: Pubkey,
    /// Default resolver identity for new matches.
    pub oracle: Pubkey,
    /// Platform fee in basis points, at most `MAX_FEE_BPS`.
    pub fee_bps: u16,
    /// Fee-recipient identity.
    pub treasury: Pubkey,
    /// When set, no new matches may be created.
    pub paused: bool,
    /// Seconds before a locked match may be force-cancelled.
    pub match_timeout: i64,
}

impl PlatformConfig {
    /// Configuration well-formedness: the fee never exceeds the platform cap.
    pub open spec fn wf(self) -> bool {
        self.fee_bps <= MAX_FEE_BPS
    }
}

/// Per-match aggregate: totals, counts, status, winner, timestamps, and the
/// limits and fee rate snapshotted at creation.
#[derive(Clone, Copy, Debug, PartialEq, Eq, Structural)]
pub struct MatchPool {
    pub match_id: MatchId,
    pub fighter_a: Pubkey,
    pub fighter_b: Pubkey,
    /// Sum of stakes ever placed on side A.
    pub side_a_total: u64,
    /// Sum of stakes ever placed on side B.
    pub side_b_total: u64,
    /// Number of bets ever placed on side A.
    pub side_a_bet_count: u32,
    /// Number of bets ever placed on side B.
    pub side_b_bet_count: u32,
    /// Outstanding unclaimed / unswept winning bets. Set once at resolution
    /// to the winning side's bet count; only ever decreases afterwards.
    pub winning_bet_count: u32,
    /// Outstanding bet records still open for this match.
    pub bet_count: u32,
    pub status: MatchStatus,
    pub winner: MatchWinner,
    /// Resolver identity for this match.
    pub oracle: Pubkey,
    pub creator: Pubkey,
    pub created_at: i64,
    pub lock_timestamp: i64,
    pub resolve_timestamp: i64,
    pub cancel_timestamp: i64,
    /// Minimum stake per bet; 0 means no minimum.
    pub min_bet: u64,
    /// Seconds after `created_at` during which bets are accepted; 0 means no
    /// deadline.
    pub betting_window: i64,
    /// Fee rate snapshotted from the platform configuration at creation, so
    /// later fee changes cannot retroactively affect this match's
    /// resolution-time settlement paths.
    pub fee_bps: u16,
    /// Set once by `withdraw_fees`.
    pub fees_withdrawn: bool,
}

impl MatchPool {
    /// Pool well-formedness: the snapshotted fee respects the platform cap
    /// and the betting window is non-negative.
    pub open spec fn wf(self) -> bool {
        &&& self.fee_bps <= MAX_FEE_BPS
        &&& self.betting_window >= 0
    }

    /// The stake total of the winning side; 0 while unresolved.
    pub open spec fn winning_side_total(self) -> u64 {
        match self.winner {
            MatchWinner::SideA => self.side_a_total,
            MatchWinner::SideB => self.side_b_total,
            MatchWinner::Undecided => 0,
        }
    }

    /// The bet count of the given side.
    pub open spec fn side_count(self, side: BetSide) -> u32 {
        match side {
            BetSide::SideA => self.side_a_bet_count,
            BetSide::SideB => self.side_b_bet_count,
        }
    }
}

/// Per-(match, bettor) record. The host's addressing layer guarantees at
/// most one such record per bettor per match.
#[derive(Clone, Copy, Debug, PartialEq, Eq, Structural)]
pub struct Bet {
    pub bettor: Pubkey,
    pub match_id: MatchId,
    pub side: BetSide,
    /// Stake, always positive.
    pub amount: u64,
    /// Set once by `claim_payout`; a claimed bet can never be paid again.
    pub claimed: bool,
}

impl Bet {
    /// Whether this bet backed the resolved winner.
    pub open spec fn is_winner_spec(self, match_winner: MatchWinner) -> bool {
        match (self.side, match_winner) {
            (BetSide::SideA, MatchWinner::SideA) => true,
            (BetSide::SideB, MatchWinner::SideB) => true,
            _ => false,
        }
    }

    /// Whether this bet backed the resolved winner.
    pub fn is_winner(&self, match_winner: MatchWinner) -> (r: bool)
        ensures
            r == self.is_winner_spec(match_winner),
    {
        match (self.side, match_winner) {
            (BetSide::SideA, MatchWinner::SideA) => true,
            (BetSide::SideB, MatchWinner::SideB) => true,
            _ => false,
        }
    }
}

/// The fund-custody balance for one match, modelled as a plain ledger value.
/// The host physically holds the lamports; the core mirrors the balance and
/// decides every movement. A `u64` balance makes the host's "never negative"
/// guarantee a type invariant.
#[derive(Clone, Copy, Debug, PartialEq, Eq, Structural)]
pub struct Vault {
    pub balance: u64,
}

impl Vault {
    /// An empty vault, as created alongside a new match.
    pub fn new() -> (v: Vault)
        ensures
            v.balance == 0,
    {
        Vault { balance: 0 }
    }

    /// Add an incoming stake. The caller must rule out overflow first.
    pub fn credit(&mut self, amount: u64)
        requires
            old(self).balance + amount <= u64::MAX,
        ensures
            final(self).balance == old(self).balance + amount,
    {
        self.balance = self.balance + amount;
    }

    /// Remove an outgoing settlement. The caller must check the balance
    /// first: a debit can never drive the balance negative.
    pub fn debit(&mut self, amount: u64)
        requires
            amount <= old(self).balance,
        ensures
            final(self).balance == old(self).balance - amount,
    {
        self.balance = self.balance - amount;
    }
}

} // verus!
