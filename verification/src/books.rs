//! The ghost model of one match's full books: every bet record the host
//! holds for the match, whether each is still open, and what the vault owes
//! against them. The solvency proofs in `solvency` are stated over this
//! model.

use vstd::prelude::*;
use vstd::arithmetic::div_mod::{lemma_fundamental_div_mod, lemma_mod_division_less_than_divisor};
use vstd::arithmetic::mul::{lemma_mul_is_distributive_add, lemma_mul_nonnegative};
use crate::payout::{fee_amount, no_winners_refund, total_pool};
use crate::state::{Bet, BetSide, MatchPool, MatchStatus, MatchWinner, Vault};

verus! {

/// One bet's place in a match's books: the record as the host stores it, and
/// whether it is still open (not yet refunded, swept, or closed).
#[derive(Clone, Copy, Debug, PartialEq, Eq, Structural)]
pub struct BetRec {
    pub bet: Bet,
    pub live: bool,
}

/// The sum of `weight` over a match's records.
pub open spec fn sum_by(bets: Seq<BetRec>, weight: spec_fn(BetRec) -> int) -> int
    decreases bets.len(),
{
    if bets.len() == 0 {
        0
    } else {
        sum_by(bets.drop_last(), weight) + weight(bets.last())
    }
}

/// Weight: a record's stake when it backs the given side, else 0.
pub open spec fn side_amount_weight(side: BetSide) -> spec_fn(BetRec) -> int {
    |r: BetRec| if r.bet.side == side { r.bet.amount as int } else { 0 }
}

/// Weight: 1 for a record backing the given side, else 0.
pub open spec fn side_count_weight(side: BetSide) -> spec_fn(BetRec) -> int {
    |r: BetRec| if r.bet.side == side { 1int } else { 0 }
}

/// Weight: 1 for a record still open, else 0.
pub open spec fn live_weight() -> spec_fn(BetRec) -> int {
    |r: BetRec| if r.live { 1int } else { 0 }
}

/// Weight: 1 for an open, unclaimed record backing the winner, else 0.
pub open spec fn live_unclaimed_winner_weight(winner: MatchWinner) -> spec_fn(BetRec) -> int {
    |r: BetRec| if r.live && !r.bet.claimed && r.bet.is_winner_spec(winner) { 1int } else { 0 }
}

/// The pool's counters agree with the books: side totals are the sums of
/// stakes ever placed per side, side counts count the records per side,
/// `bet_count` counts the open records, and — once resolved — a winner is
/// set and `winning_bet_count` counts the open unclaimed winners. Before
/// the match is terminal every record is open and unclaimed.
pub open spec fn books_ok(pool: MatchPool, bets: Seq<BetRec>) -> bool {
    &&& pool.side_a_total == sum_by(bets, side_amount_weight(BetSide::SideA))
    &&& pool.side_b_total == sum_by(bets, side_amount_weight(BetSide::SideB))
    &&& pool.side_a_bet_count == sum_by(bets, side_count_weight(BetSide::SideA))
    &&& pool.side_b_bet_count == sum_by(bets, side_count_weight(BetSide::SideB))
    &&& pool.bet_count == sum_by(bets, live_weight())
    &&& (pool.status == MatchStatus::Resolved ==> {
        &&& pool.winner != MatchWinner::Undecided
        &&& pool.winning_bet_count == sum_by(
            bets, live_unclaimed_winner_weight(pool.winner))
    })
    &&& (pool.status == MatchStatus::Open || pool.status == MatchStatus::Locked ==>
        forall|i: int| 0 <= i < bets.len() ==> {
            &&& (#[trigger] bets[i]).live
            &&& !bets[i].bet.claimed
        })
}

/// What the vault owes against one record, in the match's current state:
/// - before the match is terminal, the full stake (it may yet be refunded);
/// - once cancelled, the full stake;
/// - once resolved with a funded winning side, an open unclaimed winner's
///   gross pool share `floor(total * amount / winning_side_total)` — an
///   upper bound on its payout at every admissible fee rate, including the
///   live rate each claim happens to read — and 0 for every settled or
///   losing record;
/// - once resolved with an empty winning side, each open record's
///   no-winners refund at the snapshotted rate.
pub open spec fn rec_obligation(pool: MatchPool, r: BetRec) -> int {
    if !r.live {
        0
    } else {
        match pool.status {
            MatchStatus::Open | MatchStatus::Locked | MatchStatus::Cancelled => {
                r.bet.amount as int
            },
            MatchStatus::Resolved => {
                if pool.winning_side_total() > 0 {
                    if r.bet.is_winner_spec(pool.winner) && !r.bet.claimed {
                        total_pool(pool.side_a_total, pool.side_b_total) * r.bet.amount
                            / (pool.winning_side_total() as int)
                    } else {
                        0
                    }
                } else {
                    no_winners_refund(r.bet.amount, pool.fee_bps)
                }
            },
        }
    }
}

/// `rec_obligation` as a weight.
pub open spec fn obligation_weight(pool: MatchPool) -> spec_fn(BetRec) -> int {
    |r: BetRec| rec_obligation(pool, r)
}

/// Everything the vault owes against the match's open records.
pub open spec fn obligations(pool: MatchPool, bets: Seq<BetRec>) -> int {
    sum_by(bets, obligation_weight(pool))
}

/// The platform fee still earmarked in the vault: on a no-winners
/// resolution the fee is collected only by `withdraw_fees`, so until that
/// happens the vault must cover it on top of the refunds.
pub open spec fn reserved_fee(pool: MatchPool) -> int {
    if pool.status == MatchStatus::Resolved && pool.winning_side_total() == 0
        && !pool.fees_withdrawn {
        fee_amount(total_pool(pool.side_a_total, pool.side_b_total), pool.fee_bps)
    } else {
        0
    }
}

/// The escrow solvency invariant: the vault covers every outstanding
/// obligation, plus the fee still earmarked after a no-winners resolution.
pub open spec fn solvent(pool: MatchPool, bets: Seq<BetRec>, vault: Vault) -> bool {
    vault.balance >= obligations(pool, bets) + reserved_fee(pool)
}

/// Appending a record adds exactly its weight to a sum.
pub proof fn lemma_sum_by_push(bets: Seq<BetRec>, weight: spec_fn(BetRec) -> int, r: BetRec)
    ensures
        sum_by(bets.push(r), weight) == sum_by(bets, weight) + weight(r),
{
    let p = bets.push(r);
    assert(p.drop_last() =~= bets);
    assert(p.last() == r);
}

/// Replacing one record moves a sum by the weight difference.
pub proof fn lemma_sum_by_update(
    bets: Seq<BetRec>,
    weight: spec_fn(BetRec) -> int,
    i: int,
    r: BetRec,
)
    requires
        0 <= i < bets.len(),
    ensures
        sum_by(bets.update(i, r), weight) == sum_by(bets, weight) - weight(bets[i])
            + weight(r),
    decreases bets.len(),
{
    let u = bets.update(i, r);
    if i == bets.len() - 1 {
        assert(u.drop_last() =~= bets.drop_last());
        assert(u.last() == r);
    } else {
        assert(u.drop_last() =~= bets.drop_last().update(i, r));
        assert(u.last() == bets.last());
        lemma_sum_by_update(bets.drop_last(), weight, i, r);
        assert(bets.drop_last()[i] == bets[i]);
    }
}

/// A pointwise-smaller weight gives a smaller sum.
pub proof fn lemma_sum_by_le(
    bets: Seq<BetRec>,
    w1: spec_fn(BetRec) -> int,
    w2: spec_fn(BetRec) -> int,
)
    requires
        forall|i: int| 0 <= i < bets.len() ==> w1(#[trigger] bets[i]) <= w2(bets[i]),
    ensures
        sum_by(bets, w1) <= sum_by(bets, w2),
    decreases bets.len(),
{
    if bets.len() > 0 {
        let d = bets.drop_last();
        assert forall|i: int| 0 <= i < d.len() implies w1(#[trigger] d[i]) <= w2(d[i]) by {
            assert(d[i] == bets[i]);
        }
        lemma_sum_by_le(d, w1, w2);
        assert(bets.last() == bets[bets.len() - 1]);
    }
}

/// Pointwise-equal weights give equal sums.
pub proof fn lemma_sum_by_eq(
    bets: Seq<BetRec>,
    w1: spec_fn(BetRec) -> int,
    w2: spec_fn(BetRec) -> int,
)
    requires
        forall|i: int| 0 <= i < bets.len() ==> w1(#[trigger] bets[i]) == w2(bets[i]),
    ensures
        sum_by(bets, w1) == sum_by(bets, w2),
{
    lemma_sum_by_le(bets, w1, w2);
    lemma_sum_by_le(bets, w2, w1);
}

/// A sum of non-negative weights is non-negative.
pub proof fn lemma_sum_by_nonneg(bets: Seq<BetRec>, weight: spec_fn(BetRec) -> int)
    requires
        forall|i: int| 0 <= i < bets.len() ==> weight(#[trigger] bets[i]) >= 0,
    ensures
        sum_by(bets, weight) >= 0,
    decreases bets.len(),
{
    if bets.len() > 0 {
        let d = bets.drop_last();
        assert forall|i: int| 0 <= i < d.len() implies weight(#[trigger] d[i]) >= 0 by {
            assert(d[i] == bets[i]);
        }
        lemma_sum_by_nonneg(d, weight);
        assert(bets.last() == bets[bets.len() - 1]);
    }
}

/// A sum of non-negative weights is at least any one element's weight.
pub proof fn lemma_sum_by_ge_elem(bets: Seq<BetRec>, weight: spec_fn(BetRec) -> int, i: int)
    requires
        forall|j: int| 0 <= j < bets.len() ==> weight(#[trigger] bets[j]) >= 0,
        0 <= i < bets.len(),
    ensures
        sum_by(bets, weight) >= weight(bets[i]),
    decreases bets.len(),
{
    let d = bets.drop_last();
    assert forall|j: int| 0 <= j < d.len() implies weight(#[trigger] d[j]) >= 0 by {
        assert(d[j] == bets[j]);
    }
    if i == bets.len() - 1 {
        lemma_sum_by_nonneg(d, weight);
        assert(bets.last() == bets[i]);
    } else {
        lemma_sum_by_ge_elem(d, weight, i);
        assert(d[i] == bets[i]);
        assert(bets.last() == bets[bets.len() - 1]);
    }
}

/// Sums distribute over pointwise-added weights.
pub proof fn lemma_sum_by_add(
    bets: Seq<BetRec>,
    w1: spec_fn(BetRec) -> int,
    w2: spec_fn(BetRec) -> int,
)
    ensures
        sum_by(bets, |r: BetRec| w1(r) + w2(r)) == sum_by(bets, w1) + sum_by(bets, w2),
    decreases bets.len(),
{
    if bets.len() > 0 {
        lemma_sum_by_add(bets.drop_last(), w1, w2);
    }
}

/// When a counting weight sums to zero, every weight it supports sums to
/// zero as well.
pub proof fn lemma_sum_by_zero(
    bets: Seq<BetRec>,
    count: spec_fn(BetRec) -> int,
    weight: spec_fn(BetRec) -> int,
)
    requires
        sum_by(bets, count) == 0,
        forall|i: int| 0 <= i < bets.len() ==> count(#[trigger] bets[i]) >= 0,
        forall|i: int| 0 <= i < bets.len() ==> (count(#[trigger] bets[i]) == 0 ==> weight(
            bets[i]) == 0),
    ensures
        sum_by(bets, weight) == 0,
    decreases bets.len(),
{
    if bets.len() > 0 {
        let d = bets.drop_last();
        assert forall|i: int| 0 <= i < d.len() implies count(#[trigger] d[i]) >= 0 && (count(
            d[i]) == 0 ==> weight(d[i]) == 0) by {
            assert(d[i] == bets[i]);
        }
        lemma_sum_by_nonneg(d, count);
        assert(bets.last() == bets[bets.len() - 1]);
        lemma_sum_by_zero(d, count, weight);
    }
}

/// Floor division is superadditive: rounding the parts loses at least as
/// much as rounding the whole.
pub proof fn lemma_div_superadditive(x: int, y: int, d: int)
    requires
        0 <= x,
        0 <= y,
        0 < d,
    ensures
        x / d + y / d <= (x + y) / d,
{
    let qx = x / d;
    let rx = x % d;
    let qy = y / d;
    let ry = y % d;
    let qs = (x + y) / d;
    let rs = (x + y) % d;
    lemma_fundamental_div_mod(x, d);
    lemma_fundamental_div_mod(y, d);
    lemma_fundamental_div_mod(x + y, d);
    lemma_mod_division_less_than_divisor(x, d);
    lemma_mod_division_less_than_divisor(y, d);
    lemma_mod_division_less_than_divisor(x + y, d);
    assert(qx + qy <= qs) by (nonlinear_arith)
        requires
            0 < d,
            x == d * qx + rx,
            0 <= rx < d,
            y == d * qy + ry,
            0 <= ry < d,
            x + y == d * qs + rs,
            0 <= rs < d,
    ;
}

/// Summing each record's scaled-and-floored share loses no more than
/// scaling and flooring the summed shares:
/// `sum(t * num_i / d) <= t * sum(num_i) / d`.
pub proof fn lemma_sum_scaled_div_le(
    bets: Seq<BetRec>,
    num: spec_fn(BetRec) -> int,
    t: int,
    d: int,
)
    requires
        0 < d,
        0 <= t,
        forall|i: int| 0 <= i < bets.len() ==> num(#[trigger] bets[i]) >= 0,
    ensures
        sum_by(bets, |r: BetRec| t * num(r) / d) <= t * sum_by(bets, num) / d,
    decreases bets.len(),
{
    if bets.len() == 0 {
    } else {
        let dl = bets.drop_last();
        assert forall|i: int| 0 <= i < dl.len() implies num(#[trigger] dl[i]) >= 0 by {
            assert(dl[i] == bets[i]);
        }
        lemma_sum_scaled_div_le(dl, num, t, d);
        let s = sum_by(dl, num);
        let a = num(bets.last());
        assert(bets.last() == bets[bets.len() - 1]);
        lemma_sum_by_nonneg(dl, num);
        lemma_mul_nonnegative(t, s);
        lemma_mul_nonnegative(t, a);
        lemma_div_superadditive(t * s, t * a, d);
        lemma_mul_is_distributive_add(t, s, a);
    }
}

} // verus!
