//! The parimutuel payout engine: pure fee / payout / refund arithmetic.
//!
//! All formulas use a 128-bit intermediate so that no step overflows before
//! the final narrowing, and every division truncates (floor): the rounding
//! remainder stays in the vault until swept. Any overflow, and any narrowing
//! that would lose precision, is reported as `RawlError::Overflow` and aborts
//! the requesting operation.

use vstd::prelude::*;
use vstd::arithmetic::div_mod::{
    lemma_div_pos_is_pos, lemma_div_is_ordered, lemma_multiply_divide_le,
};
use vstd::arithmetic::mul::{lemma_mul_inequality, lemma_mul_nonnegative};
use crate::constants::{BPS_DENOMINATOR, MAX_FEE_BPS};
use crate::errors::RawlError;

verus! {

/// The gross pool: every stake placed on either side.
pub open spec fn total_pool(side_a_total: u64, side_b_total: u64) -> int {
    side_a_total + side_b_total
}

/// The platform fee on a pool: `floor(total * fee_bps / 10_000)`.
pub open spec fn fee_amount(total: int, fee_bps: u16) -> int {
    total * fee_bps / (BPS_DENOMINATOR as int)
}

/// What winners share after the fee.
pub open spec fn net_pool(total: int, fee_bps: u16) -> int {
    total - fee_amount(total, fee_bps)
}

/// A winning bet's payout: its proportional share of the net pool,
/// `floor(net_pool * amount / winning_side_total)`.
/// Meaningful only when `winning_side_total > 0`.
pub open spec fn winner_payout(
    side_a_total: u64,
    side_b_total: u64,
    fee_bps: u16,
    amount: u64,
    winning_side_total: u64,
) -> int
    recommends
        winning_side_total > 0,
{
    net_pool(total_pool(side_a_total, side_b_total), fee_bps) * amount / (winning_side_total as int)
}

/// The refund when resolution produced no winning bets: the stake minus its
/// proportional fee share, `floor(amount * (10_000 - fee_bps) / 10_000)`.
pub open spec fn no_winners_refund(amount: u64, fee_bps: u16) -> int {
    amount * (BPS_DENOMINATOR - fee_bps) / (BPS_DENOMINATOR as int)
}

/// Whether a winner payout can be computed and settled in 64 bits: the
/// winning side must hold stake, the wide multiply must fit the 128-bit
/// intermediate, and the result must fit the 64-bit settlement amount.
pub open spec fn payout_representable(
    side_a_total: u64,
    side_b_total: u64,
    fee_bps: u16,
    amount: u64,
    winning_side_total: u64,
) -> bool {
    &&& winning_side_total > 0
    &&& net_pool(total_pool(side_a_total, side_b_total), fee_bps) * amount <= u128::MAX
    &&& winner_payout(side_a_total, side_b_total, fee_bps, amount, winning_side_total)
        <= u64::MAX
}

/// The fee is between 0 and the whole pool, and always fits in 64 bits, for
/// any rate within the platform cap of 100%.
pub proof fn lemma_fee_in_range(total: int, fee_bps: u16)
    requires
        0 <= total <= 2 * (u64::MAX as int),
        fee_bps <= BPS_DENOMINATOR,
    ensures
        0 <= fee_amount(total, fee_bps) <= total,
        fee_bps <= 5000 ==> fee_amount(total, fee_bps) <= u64::MAX as int,
{
    let f = fee_bps as int;
    let d = BPS_DENOMINATOR as int;
    lemma_mul_nonnegative(total, f);
    lemma_div_pos_is_pos(total * f, d);
    assert(total * f <= d * total) by (nonlinear_arith)
        requires
            0 <= total,
            0 <= f <= d,
    ;
    lemma_multiply_divide_le(total * f, d, total);
    if fee_bps <= 5000 {
        assert(total * f <= d * (u64::MAX as int)) by (nonlinear_arith)
            requires
                0 <= total <= 2 * (u64::MAX as int),
                0 <= f <= 5000,
                d == 10_000,
        ;
        lemma_multiply_divide_le(total * f, d, u64::MAX as int);
    }
}

/// The no-winners refund keeps at most the stake: it is the stake less a
/// non-negative fee share.
pub proof fn lemma_no_winners_refund_bounds(amount: u64, fee_bps: u16)
    requires
        fee_bps <= BPS_DENOMINATOR,
    ensures
        0 <= no_winners_refund(amount, fee_bps) <= amount,
{
    let keep = BPS_DENOMINATOR - fee_bps;
    let d = BPS_DENOMINATOR as int;
    lemma_mul_nonnegative(amount as int, keep as int);
    lemma_div_pos_is_pos(amount * keep, d);
    assert(amount * keep <= d * (amount as int)) by (nonlinear_arith)
        requires
            0 <= amount,
            0 <= keep <= d,
    ;
    lemma_multiply_divide_le(amount * keep, d, amount as int);
}

/// A winner's payout at any admissible fee rate never exceeds its gross
/// pool share `floor(total * amount / winning_side_total)`: the share it
/// would get if no fee were taken at all.
pub proof fn lemma_payout_le_gross_share(
    side_a_total: u64,
    side_b_total: u64,
    fee_bps: u16,
    amount: u64,
    winning_side_total: u64,
)
    requires
        fee_bps <= BPS_DENOMINATOR,
        winning_side_total > 0,
    ensures
        0 <= winner_payout(side_a_total, side_b_total, fee_bps, amount, winning_side_total)
            <= total_pool(side_a_total, side_b_total) * amount
                / (winning_side_total as int),
{
    let total = total_pool(side_a_total, side_b_total);
    let w = winning_side_total as int;
    lemma_fee_in_range(total, fee_bps);
    let net = net_pool(total, fee_bps);
    lemma_mul_nonnegative(net, amount as int);
    lemma_div_pos_is_pos(net * amount, w);
    lemma_mul_inequality(net, total, amount as int);
    lemma_div_is_ordered(net * amount, total * amount, w);
}

/// The platform fee on the gross pool. Exact: never overflows for any pool
/// and any rate within the cap.
pub fn compute_fee(side_a_total: u64, side_b_total: u64, fee_bps: u16) -> (fee: u64)
    requires
        fee_bps <= MAX_FEE_BPS,
    ensures
        fee == fee_amount(total_pool(side_a_total, side_b_total), fee_bps),
        fee <= total_pool(side_a_total, side_b_total),
{
    let total: u128 = side_a_total as u128 + side_b_total as u128;
    proof {
        assert(total * (fee_bps as u128) <= u128::MAX) by (nonlinear_arith)
            requires
                total <= 2 * (u64::MAX as int),
                fee_bps <= 1000,
        ;
    }
    let scaled: u128 = total * fee_bps as u128;
    let fee128: u128 = scaled / 10_000u128;
    proof {
        lemma_fee_in_range(total as int, fee_bps);
    }
    fee128 as u64
}

/// The payout owed to a winning bet, computed from the live side totals and
/// fee rate. Returns `Ok` exactly when the payout is representable
/// (`payout_representable`); any overflow, division by an empty winning
/// side, or lossy narrowing yields `Err(Overflow)`.
pub fn compute_payout(
    side_a_total: u64,
    side_b_total: u64,
    fee_bps: u16,
    amount: u64,
    winning_side_total: u64,
) -> (r: Result<u64, RawlError>)
    requires
        fee_bps <= MAX_FEE_BPS,
    ensures
        r is Ok <==> payout_representable(
            side_a_total, side_b_total, fee_bps, amount, winning_side_total),
        r matches Ok(p) ==> p == winner_payout(
            side_a_total, side_b_total, fee_bps, amount, winning_side_total),
        r is Err ==> r == Err::<u64, RawlError>(RawlError::Overflow),
{
    let total: u128 = side_a_total as u128 + side_b_total as u128;
    proof {
        assert(total * (fee_bps as u128) <= u128::MAX) by (nonlinear_arith)
            requires
                total <= 2 * (u64::MAX as int),
                fee_bps <= 1000,
        ;
        lemma_fee_in_range(total as int, fee_bps);
    }
    let fee: u128 = (total * fee_bps as u128) / 10_000u128;
    let net: u128 = total - fee;
    match net.checked_mul(amount as u128) {
        None => Err(RawlError::Overflow),
        Some(scaled) => {
            if winning_side_total == 0 {
                Err(RawlError::Overflow)
            } else {
                let payout: u128 = scaled / (winning_side_total as u128);
                proof {
                    lemma_mul_nonnegative(net as int, amount as int);
                    lemma_div_pos_is_pos(scaled as int, winning_side_total as int);
                }
                if payout > u64::MAX as u128 {
                    Err(RawlError::Overflow)
                } else {
                    Ok(payout as u64)
                }
            }
        },
    }
}

/// The refund for one bet when resolution produced no winners: the stake
/// less its proportional fee share, using the match's snapshotted rate.
/// Exact: never overflows, and never exceeds the stake.
pub fn compute_no_winners_refund(amount: u64, fee_bps: u16) -> (refund: u64)
    requires
        fee_bps <= MAX_FEE_BPS,
    ensures
        refund == no_winners_refund(amount, fee_bps),
        refund <= amount,
{
    let keep: u128 = (BPS_DENOMINATOR - fee_bps as u64) as u128;
    proof {
        assert((amount as u128) * keep <= u128::MAX) by (nonlinear_arith)
            requires
                amount <= u64::MAX as int,
                keep <= 10_000,
        ;
    }
    let scaled: u128 = amount as u128 * keep;
    let refund128: u128 = scaled / 10_000u128;
    proof {
        let d = BPS_DENOMINATOR as int;
        lemma_mul_nonnegative(amount as int, keep as int);
        lemma_div_pos_is_pos(scaled as int, d);
        assert((amount as int) * (keep as int) <= d * (amount as int)) by (nonlinear_arith)
            requires
                0 <= amount,
                0 <= keep <= d,
        ;
        lemma_multiply_divide_le(scaled as int, d, amount as int);
    }
    refund128 as u64
}

} // verus!
