//! Parimutuel wagering escrow: two sides are bet on, stakes are pooled in a
//! per-match vault, an oracle resolves a winner, and winners split the net
//! pool in proportion to their stake.
//!
//! The crate holds the match lifecycle state machine, the payout / fee /
//! refund computation engine, and the bookkeeping that keeps the escrow
//! solvent. Identity resolution, signature checking, and the physical fund
//! transfer are the host's job: every operation here takes plain records and
//! an already-authenticated caller identity, mutates the records, and reports
//! the amount the host must move.

pub mod constants;
pub mod errors;
pub mod state;
pub mod payout;
pub mod time;
pub mod admin;
pub mod lifecycle;
pub mod betting;
pub mod settlement;
pub mod sweep;
pub mod books;
pub mod solvency;
