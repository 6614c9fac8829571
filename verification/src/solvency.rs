//! Escrow solvency across the whole lifecycle: one lemma per operation
//! shows that the books stay balanced (`books_ok`) and the vault keeps
//! covering every outstanding obligation (`solvent`), so the custodied
//! funds can never be over-distributed, and a bettor with a claim is never
//! left facing an empty vault.

use vstd::prelude::*;
use vstd::arithmetic::div_mod::{lemma_div_by_multiple, lemma_div_of0, lemma_div_pos_is_pos};
use vstd::arithmetic::mul::lemma_mul_nonnegative;
use crate::betting::{place_bet_check, place_bet_pool, side_from_code};
use crate::books::{
    books_ok, lemma_div_superadditive, lemma_sum_by_add, lemma_sum_by_eq, lemma_sum_by_ge_elem,
    lemma_sum_by_le, lemma_sum_by_nonneg, lemma_sum_by_push, lemma_sum_by_update,
    lemma_sum_by_zero, lemma_sum_scaled_div_le, live_unclaimed_winner_weight, live_weight,
    obligation_weight, obligations, rec_obligation, reserved_fee, side_amount_weight,
    side_count_weight, solvent, sum_by, BetRec,
};
use crate::constants::BPS_DENOMINATOR;
use crate::lifecycle::winner_from_code;
use crate::payout::{
    fee_amount, lemma_fee_in_range, lemma_no_winners_refund_bounds, lemma_payout_le_gross_share,
    net_pool, no_winners_refund, payout_representable, total_pool, winner_payout,
};
use crate::settlement::dec_saturating;
use crate::state::{Bet, BetSide, MatchPool, MatchStatus, MatchWinner, Pubkey, Vault};

verus! {

/// No record is ever owed a negative amount.
pub proof fn lemma_rec_obligation_nonneg(pool: MatchPool, r: BetRec)
    requires
        pool.wf(),
    ensures
        rec_obligation(pool, r) >= 0,
{
    if r.live && pool.status == MatchStatus::Resolved {
        if pool.winning_side_total() > 0 {
            if r.bet.is_winner_spec(pool.winner) && !r.bet.claimed {
                let total = total_pool(pool.side_a_total, pool.side_b_total);
                lemma_mul_nonnegative(total, r.bet.amount as int);
                lemma_div_pos_is_pos(
                    total * r.bet.amount, pool.winning_side_total() as int);
            }
        } else {
            lemma_no_winners_refund_bounds(r.bet.amount, pool.fee_bps);
        }
    }
}

/// The match's total obligations are never negative.
pub proof fn lemma_obligations_nonneg(pool: MatchPool, bets: Seq<BetRec>)
    requires
        pool.wf(),
    ensures
        obligations(pool, bets) >= 0,
{
    let ow = obligation_weight(pool);
    assert forall|i: int| 0 <= i < bets.len() implies ow(#[trigger] bets[i]) >= 0 by {
        lemma_rec_obligation_nonneg(pool, bets[i]);
    }
    lemma_sum_by_nonneg(bets, ow);
}

/// A freshly created match has balanced books and a solvent (empty) vault.
pub proof fn lemma_create_match_solvent(pool: MatchPool, vault: Vault)
    requires
        pool.side_a_total == 0,
        pool.side_b_total == 0,
        pool.side_a_bet_count == 0,
        pool.side_b_bet_count == 0,
        pool.bet_count == 0,
        pool.status == MatchStatus::Open,
    ensures
        books_ok(pool, Seq::<BetRec>::empty()),
        solvent(pool, Seq::<BetRec>::empty(), vault),
{
}

/// `place_bet` keeps the books balanced and the vault solvent: the stake
/// enters the vault and becomes, in full, the new record's obligation.
pub proof fn lemma_place_bet_preserves(
    pool: MatchPool,
    bets: Seq<BetRec>,
    vault: Vault,
    bettor: Pubkey,
    side: u8,
    amount: u64,
    now: i64,
)
    requires
        books_ok(pool, bets),
        solvent(pool, bets, vault),
        place_bet_check(pool, vault, side, amount, now) is None,
    ensures
        ({
            let rec = BetRec {
                bet: Bet {
                    bettor,
                    match_id: pool.match_id,
                    side: side_from_code(side),
                    amount,
                    claimed: false,
                },
                live: true,
            };
            let pool2 = place_bet_pool(pool, side, amount);
            let bets2 = bets.push(rec);
            let vault2 = Vault { balance: (vault.balance + amount) as u64 };
            books_ok(pool2, bets2) && solvent(pool2, bets2, vault2)
        }),
{
    let rec = BetRec {
        bet: Bet {
            bettor,
            match_id: pool.match_id,
            side: side_from_code(side),
            amount,
            claimed: false,
        },
        live: true,
    };
    let pool2 = place_bet_pool(pool, side, amount);
    let bets2 = bets.push(rec);
    lemma_sum_by_push(bets, side_amount_weight(BetSide::SideA), rec);
    lemma_sum_by_push(bets, side_amount_weight(BetSide::SideB), rec);
    lemma_sum_by_push(bets, side_count_weight(BetSide::SideA), rec);
    lemma_sum_by_push(bets, side_count_weight(BetSide::SideB), rec);
    lemma_sum_by_push(bets, live_weight(), rec);
    lemma_sum_by_push(bets, obligation_weight(pool2), rec);
    lemma_sum_by_eq(bets, obligation_weight(pool2), obligation_weight(pool));
    assert forall|i: int| 0 <= i < bets2.len() implies (#[trigger] bets2[i]).live
        && !bets2[i].bet.claimed by {
        if i < bets.len() {
            assert(bets2[i] == bets[i]);
        } else {
            assert(bets2[i] == rec);
        }
    }
}

/// Locking changes no totals and no obligations: Open -> Locked keeps the
/// books balanced and the vault solvent.
pub proof fn lemma_lock_match_preserves(
    pool: MatchPool,
    bets: Seq<BetRec>,
    vault: Vault,
    now: i64,
)
    requires
        books_ok(pool, bets),
        solvent(pool, bets, vault),
        pool.status == MatchStatus::Open,
    ensures
        ({
            let pool2 = MatchPool {
                status: MatchStatus::Locked,
                lock_timestamp: now,
                ..pool
            };
            books_ok(pool2, bets) && solvent(pool2, bets, vault)
        }),
{
    let pool2 = MatchPool { status: MatchStatus::Locked, lock_timestamp: now, ..pool };
    lemma_sum_by_eq(bets, obligation_weight(pool2), obligation_weight(pool));
}

/// Cancellation — by the authority or by timeout — keeps the books balanced
/// and the vault solvent: every open stake simply stays owed in full.
pub proof fn lemma_cancel_preserves(pool: MatchPool, bets: Seq<BetRec>, vault: Vault, now: i64)
    requires
        books_ok(pool, bets),
        solvent(pool, bets, vault),
        pool.status == MatchStatus::Open || pool.status == MatchStatus::Locked,
    ensures
        ({
            let pool2 = MatchPool {
                status: MatchStatus::Cancelled,
                cancel_timestamp: now,
                ..pool
            };
            books_ok(pool2, bets) && solvent(pool2, bets, vault)
        }),
{
    let pool2 = MatchPool { status: MatchStatus::Cancelled, cancel_timestamp: now, ..pool };
    lemma_sum_by_eq(bets, obligation_weight(pool2), obligation_weight(pool));
}

/// Resolution keeps the vault solvent: the winners' gross pool shares sum
/// to at most the gross pool itself (floor division only loses), and on a
/// no-winners outcome the refunds plus the earmarked fee likewise stay
/// within the pool. It also keeps the books balanced: the winning side's
/// bet count becomes exactly the number of open unclaimed winners.
pub proof fn lemma_resolve_match_preserves(
    pool: MatchPool,
    bets: Seq<BetRec>,
    vault: Vault,
    winner: u8,
    now: i64,
)
    requires
        books_ok(pool, bets),
        solvent(pool, bets, vault),
        pool.wf(),
        pool.status == MatchStatus::Locked,
        winner <= 1,
    ensures
        ({
            let pool2 = MatchPool {
                status: MatchStatus::Resolved,
                winner: winner_from_code(winner),
                resolve_timestamp: now,
                winning_bet_count: if winner == 0 {
                    pool.side_a_bet_count
                } else {
                    pool.side_b_bet_count
                },
                ..pool
            };
            books_ok(pool2, bets) && solvent(pool2, bets, vault)
        }),
{
    let w = winner_from_code(winner);
    let wside = if winner == 0 { BetSide::SideA } else { BetSide::SideB };
    let pool2 = MatchPool {
        status: MatchStatus::Resolved,
        winner: w,
        resolve_timestamp: now,
        winning_bet_count: if winner == 0 {
            pool.side_a_bet_count
        } else {
            pool.side_b_bet_count
        },
        ..pool
    };
    let total = total_pool(pool.side_a_total, pool.side_b_total);
    let wtot = pool2.winning_side_total();
    let wa = side_amount_weight(BetSide::SideA);
    let wb = side_amount_weight(BetSide::SideB);
    let stake_sum = |r: BetRec| wa(r) + wb(r);

    // Before resolution every record is live, so the obligations are the
    // stakes, and they sum to the gross pool.
    assert forall|i: int| 0 <= i < bets.len() implies (obligation_weight(pool))(
        #[trigger] bets[i]) == stake_sum(bets[i]) by {
        assert(bets[i].live);
    }
    lemma_sum_by_eq(bets, obligation_weight(pool), stake_sum);
    lemma_sum_by_add(bets, wa, wb);
    assert(vault.balance >= total);

    // The winning side's bet count counts exactly the open unclaimed
    // winners: before resolution nothing is claimed or closed.
    let luw = live_unclaimed_winner_weight(w);
    let cw = side_count_weight(wside);
    assert forall|i: int| 0 <= i < bets.len() implies luw(#[trigger] bets[i]) == cw(
        bets[i]) by {
        assert(bets[i].live && !bets[i].bet.claimed);
    }
    lemma_sum_by_eq(bets, luw, cw);

    if wtot > 0 {
        // Each open unclaimed winner is owed its gross pool share; the
        // shares sum to at most `total * wtot / wtot == total`.
        let wt = wtot as int;
        let num = |r: BetRec| if r.live && !r.bet.claimed && r.bet.is_winner_spec(w) {
            r.bet.amount as int
        } else {
            0
        };
        let share = |r: BetRec| total * num(r) / wt;
        assert forall|i: int| 0 <= i < bets.len() implies (obligation_weight(pool2))(
            #[trigger] bets[i]) == share(bets[i]) by {
            if !(bets[i].live && !bets[i].bet.claimed && bets[i].bet.is_winner_spec(w)) {
                lemma_div_of0(wt);
                assert(total * 0 == 0) by (nonlinear_arith);
            }
        }
        lemma_sum_by_eq(bets, obligation_weight(pool2), share);
        assert forall|i: int| 0 <= i < bets.len() implies num(#[trigger] bets[i]) >= 0 by {}
        lemma_sum_scaled_div_le(bets, num, total, wt);
        let wamt = side_amount_weight(wside);
        assert forall|i: int| 0 <= i < bets.len() implies num(#[trigger] bets[i]) == wamt(
            bets[i]) by {
            assert(bets[i].live && !bets[i].bet.claimed);
        }
        lemma_sum_by_eq(bets, num, wamt);
        assert(sum_by(bets, num) == wtot);
        lemma_div_by_multiple(total, wt);
        assert(obligations(pool2, bets) <= total);
    } else {
        // No winners: each open record is owed its refund, and the refunds
        // plus the earmarked fee stay within the gross pool.
        let f = pool.fee_bps;
        let keep = (BPS_DENOMINATOR - f) as int;
        let d = BPS_DENOMINATOR as int;
        let num = |r: BetRec| if r.live { r.bet.amount as int } else { 0 };
        let refund = |r: BetRec| keep * num(r) / d;
        assert forall|i: int| 0 <= i < bets.len() implies (obligation_weight(pool2))(
            #[trigger] bets[i]) == refund(bets[i]) by {
            assert(bets[i].live);
            assert(no_winners_refund(bets[i].bet.amount, f) == bets[i].bet.amount * keep / d);
            assert(bets[i].bet.amount * keep == keep * (bets[i].bet.amount as int))
                by (nonlinear_arith);
        }
        lemma_sum_by_eq(bets, obligation_weight(pool2), refund);
        assert forall|i: int| 0 <= i < bets.len() implies num(#[trigger] bets[i]) >= 0 by {}
        lemma_sum_scaled_div_le(bets, num, keep, d);
        assert forall|i: int| 0 <= i < bets.len() implies num(#[trigger] bets[i]) == stake_sum(
            bets[i]) by {
            assert(bets[i].live);
        }
        lemma_sum_by_eq(bets, num, stake_sum);
        assert(sum_by(bets, num) == total);
        // refunds <= keep * total / d, fee == total * f / d, and the two
        // parts recombine into at most the whole pool.
        lemma_fee_in_range(total, f);
        lemma_mul_nonnegative(keep, total);
        lemma_mul_nonnegative(total, f as int);
        lemma_div_superadditive(keep * total, total * f, d);
        assert(keep * total + total * f == total * d) by (nonlinear_arith)
            requires
                keep == d - f,
        ;
        lemma_div_by_multiple(total, d);
        assert(obligations(pool2, bets) + fee_amount(total, f) <= total);
    }
}

/// `claim_payout` keeps the books balanced and the vault solvent: the
/// payout leaves the vault, and the claimed record's obligation — its gross
/// pool share, which dominates the payout at every admissible fee rate —
/// leaves the obligations.
pub proof fn lemma_claim_payout_preserves(
    pool: MatchPool,
    bets: Seq<BetRec>,
    vault: Vault,
    i: int,
    fee_bps: u16,
)
    requires
        books_ok(pool, bets),
        solvent(pool, bets, vault),
        pool.wf(),
        fee_bps <= BPS_DENOMINATOR,
        0 <= i < bets.len(),
        bets[i].live,
        !bets[i].bet.claimed,
        pool.status == MatchStatus::Resolved,
        bets[i].bet.is_winner_spec(pool.winner),
        payout_representable(
            pool.side_a_total,
            pool.side_b_total,
            fee_bps,
            bets[i].bet.amount,
            pool.winning_side_total(),
        ),
        winner_payout(
            pool.side_a_total,
            pool.side_b_total,
            fee_bps,
            bets[i].bet.amount,
            pool.winning_side_total(),
        ) <= vault.balance,
    ensures
        ({
            let payout = winner_payout(
                pool.side_a_total,
                pool.side_b_total,
                fee_bps,
                bets[i].bet.amount,
                pool.winning_side_total(),
            );
            let pool2 = MatchPool {
                winning_bet_count: dec_saturating(pool.winning_bet_count),
                ..pool
            };
            let bets2 = bets.update(i, BetRec {
                bet: Bet { claimed: true, ..bets[i].bet },
                live: bets[i].live,
            });
            let vault2 = Vault { balance: (vault.balance - payout) as u64 };
            payout >= 0 && books_ok(pool2, bets2) && solvent(pool2, bets2, vault2)
        }),
{
    let payout = winner_payout(
        pool.side_a_total,
        pool.side_b_total,
        fee_bps,
        bets[i].bet.amount,
        pool.winning_side_total(),
    );
    let pool2 = MatchPool { winning_bet_count: dec_saturating(pool.winning_bet_count), ..pool };
    let rec2 = BetRec { bet: Bet { claimed: true, ..bets[i].bet }, live: bets[i].live };
    let bets2 = bets.update(i, rec2);
    lemma_payout_le_gross_share(
        pool.side_a_total,
        pool.side_b_total,
        fee_bps,
        bets[i].bet.amount,
        pool.winning_side_total(),
    );
    lemma_sum_by_update(bets, side_amount_weight(BetSide::SideA), i, rec2);
    lemma_sum_by_update(bets, side_amount_weight(BetSide::SideB), i, rec2);
    lemma_sum_by_update(bets, side_count_weight(BetSide::SideA), i, rec2);
    lemma_sum_by_update(bets, side_count_weight(BetSide::SideB), i, rec2);
    lemma_sum_by_update(bets, live_weight(), i, rec2);
    let luw = live_unclaimed_winner_weight(pool.winner);
    assert forall|j: int| 0 <= j < bets.len() implies luw(#[trigger] bets[j]) >= 0 by {}
    lemma_sum_by_ge_elem(bets, luw, i);
    lemma_sum_by_update(bets, luw, i, rec2);
    lemma_sum_by_update(bets, obligation_weight(pool), i, rec2);
    lemma_sum_by_eq(bets2, obligation_weight(pool2), obligation_weight(pool));
}

/// Returning a cancelled stake — `refund_bet` before the claim window,
/// `sweep_cancelled` after it — keeps the books balanced and the vault
/// solvent; and under solvency the vault always covers the full stake, so
/// neither the balance guard nor the sweep's cap ever reduces the refund.
pub proof fn lemma_cancelled_return_preserves(
    pool: MatchPool,
    bets: Seq<BetRec>,
    vault: Vault,
    i: int,
)
    requires
        books_ok(pool, bets),
        solvent(pool, bets, vault),
        pool.wf(),
        0 <= i < bets.len(),
        bets[i].live,
        pool.status == MatchStatus::Cancelled,
    ensures
        bets[i].bet.amount <= vault.balance,
        ({
            let pool2 = MatchPool { bet_count: dec_saturating(pool.bet_count), ..pool };
            let bets2 = bets.update(i, BetRec { bet: bets[i].bet, live: false });
            let vault2 = Vault { balance: (vault.balance - bets[i].bet.amount) as u64 };
            books_ok(pool2, bets2) && solvent(pool2, bets2, vault2)
        }),
{
    let pool2 = MatchPool { bet_count: dec_saturating(pool.bet_count), ..pool };
    let rec2 = BetRec { bet: bets[i].bet, live: false };
    let bets2 = bets.update(i, rec2);
    let ow = obligation_weight(pool);
    assert forall|j: int| 0 <= j < bets.len() implies ow(#[trigger] bets[j]) >= 0 by {
        lemma_rec_obligation_nonneg(pool, bets[j]);
    }
    lemma_sum_by_ge_elem(bets, ow, i);
    assert(vault.balance >= bets[i].bet.amount);
    lemma_sum_by_update(bets, side_amount_weight(BetSide::SideA), i, rec2);
    lemma_sum_by_update(bets, side_amount_weight(BetSide::SideB), i, rec2);
    lemma_sum_by_update(bets, side_count_weight(BetSide::SideA), i, rec2);
    lemma_sum_by_update(bets, side_count_weight(BetSide::SideB), i, rec2);
    let lw = live_weight();
    assert forall|j: int| 0 <= j < bets.len() implies lw(#[trigger] bets[j]) >= 0 by {}
    lemma_sum_by_ge_elem(bets, lw, i);
    lemma_sum_by_update(bets, lw, i, rec2);
    lemma_sum_by_update(bets, ow, i, rec2);
    lemma_sum_by_eq(bets2, obligation_weight(pool2), ow);
}

/// Under solvency, a no-winners resolution always leaves the vault able to
/// pay each open record's refund: the `InsufficientVault` guard in
/// `refund_no_winners` never fires on a solvent match.
pub proof fn lemma_no_winners_refund_covered(
    pool: MatchPool,
    bets: Seq<BetRec>,
    vault: Vault,
    i: int,
)
    requires
        books_ok(pool, bets),
        solvent(pool, bets, vault),
        pool.wf(),
        0 <= i < bets.len(),
        bets[i].live,
        pool.status == MatchStatus::Resolved,
        pool.winning_side_total() == 0,
    ensures
        no_winners_refund(bets[i].bet.amount, pool.fee_bps) <= vault.balance,
{
    let ow = obligation_weight(pool);
    assert forall|j: int| 0 <= j < bets.len() implies ow(#[trigger] bets[j]) >= 0 by {
        lemma_rec_obligation_nonneg(pool, bets[j]);
    }
    lemma_sum_by_ge_elem(bets, ow, i);
    lemma_fee_in_range(total_pool(pool.side_a_total, pool.side_b_total), pool.fee_bps);
}

/// `refund_no_winners` keeps the books balanced and the vault solvent: on a
/// genuine no-winners resolution — the winning side holds no stake — the
/// refund paid out is exactly the record's obligation.
pub proof fn lemma_refund_no_winners_preserves(
    pool: MatchPool,
    bets: Seq<BetRec>,
    vault: Vault,
    i: int,
)
    requires
        books_ok(pool, bets),
        solvent(pool, bets, vault),
        pool.wf(),
        0 <= i < bets.len(),
        bets[i].live,
        pool.status == MatchStatus::Resolved,
        pool.winning_bet_count == 0,
        pool.winning_side_total() == 0,
        no_winners_refund(bets[i].bet.amount, pool.fee_bps) <= vault.balance,
    ensures
        ({
            let refund = no_winners_refund(bets[i].bet.amount, pool.fee_bps);
            let pool2 = MatchPool { bet_count: dec_saturating(pool.bet_count), ..pool };
            let bets2 = bets.update(i, BetRec { bet: bets[i].bet, live: false });
            let vault2 = Vault { balance: (vault.balance - refund) as u64 };
            refund >= 0 && books_ok(pool2, bets2) && solvent(pool2, bets2, vault2)
        }),
{
    let pool2 = MatchPool { bet_count: dec_saturating(pool.bet_count), ..pool };
    let rec2 = BetRec { bet: bets[i].bet, live: false };
    let bets2 = bets.update(i, rec2);
    lemma_no_winners_refund_bounds(bets[i].bet.amount, pool.fee_bps);
    let ow = obligation_weight(pool);
    let luw = live_unclaimed_winner_weight(pool.winner);
    assert forall|j: int| 0 <= j < bets.len() implies luw(#[trigger] bets[j]) >= 0 by {}
    lemma_sum_by_ge_elem(bets, luw, i);
    lemma_sum_by_update(bets, luw, i, rec2);
    lemma_sum_by_update(bets, ow, i, rec2);
    lemma_sum_by_eq(bets2, obligation_weight(pool2), ow);
    lemma_sum_by_update(bets, side_amount_weight(BetSide::SideA), i, rec2);
    lemma_sum_by_update(bets, side_amount_weight(BetSide::SideB), i, rec2);
    lemma_sum_by_update(bets, side_count_weight(BetSide::SideA), i, rec2);
    lemma_sum_by_update(bets, side_count_weight(BetSide::SideB), i, rec2);
    let lw = live_weight();
    assert forall|j: int| 0 <= j < bets.len() implies lw(#[trigger] bets[j]) >= 0 by {}
    lemma_sum_by_ge_elem(bets, lw, i);
    lemma_sum_by_update(bets, lw, i, rec2);
}

/// `close_bet` keeps the books balanced and the vault solvent: a losing or
/// already-claimed record carries no further payout claim, and a no-winners
/// record that closes unclaimed simply forfeits its refund — obligations
/// only shrink while the vault stands still.
pub proof fn lemma_close_bet_preserves(pool: MatchPool, bets: Seq<BetRec>, vault: Vault, i: int)
    requires
        books_ok(pool, bets),
        solvent(pool, bets, vault),
        pool.wf(),
        0 <= i < bets.len(),
        bets[i].live,
        pool.status == MatchStatus::Resolved,
        bets[i].bet.is_winner_spec(pool.winner) ==> bets[i].bet.claimed,
    ensures
        ({
            let pool2 = MatchPool { bet_count: dec_saturating(pool.bet_count), ..pool };
            let bets2 = bets.update(i, BetRec { bet: bets[i].bet, live: false });
            books_ok(pool2, bets2) && solvent(pool2, bets2, vault)
        }),
{
    let pool2 = MatchPool { bet_count: dec_saturating(pool.bet_count), ..pool };
    let rec2 = BetRec { bet: bets[i].bet, live: false };
    let bets2 = bets.update(i, rec2);
    let ow = obligation_weight(pool);
    lemma_rec_obligation_nonneg(pool, bets[i]);
    lemma_sum_by_update(bets, side_amount_weight(BetSide::SideA), i, rec2);
    lemma_sum_by_update(bets, side_amount_weight(BetSide::SideB), i, rec2);
    lemma_sum_by_update(bets, side_count_weight(BetSide::SideA), i, rec2);
    lemma_sum_by_update(bets, side_count_weight(BetSide::SideB), i, rec2);
    let lw = live_weight();
    assert forall|j: int| 0 <= j < bets.len() implies lw(#[trigger] bets[j]) >= 0 by {}
    lemma_sum_by_ge_elem(bets, lw, i);
    lemma_sum_by_update(bets, lw, i, rec2);
    let luw = live_unclaimed_winner_weight(pool.winner);
    lemma_sum_by_update(bets, luw, i, rec2);
    lemma_sum_by_update(bets, ow, i, rec2);
    lemma_sum_by_eq(bets2, obligation_weight(pool2), ow);
}

/// `sweep_unclaimed` keeps the books balanced and the vault solvent: like a
/// claim, the swept payout — at the snapshotted rate — is dominated by the
/// record's gross pool share, and the record leaves the books entirely.
pub proof fn lemma_sweep_unclaimed_preserves(
    pool: MatchPool,
    bets: Seq<BetRec>,
    vault: Vault,
    i: int,
)
    requires
        books_ok(pool, bets),
        solvent(pool, bets, vault),
        pool.wf(),
        0 <= i < bets.len(),
        bets[i].live,
        !bets[i].bet.claimed,
        pool.status == MatchStatus::Resolved,
        bets[i].bet.is_winner_spec(pool.winner),
        payout_representable(
            pool.side_a_total,
            pool.side_b_total,
            pool.fee_bps,
            bets[i].bet.amount,
            pool.winning_side_total(),
        ),
        winner_payout(
            pool.side_a_total,
            pool.side_b_total,
            pool.fee_bps,
            bets[i].bet.amount,
            pool.winning_side_total(),
        ) <= vault.balance,
    ensures
        ({
            let payout = winner_payout(
                pool.side_a_total,
                pool.side_b_total,
                pool.fee_bps,
                bets[i].bet.amount,
                pool.winning_side_total(),
            );
            let pool2 = MatchPool {
                winning_bet_count: dec_saturating(pool.winning_bet_count),
                bet_count: dec_saturating(pool.bet_count),
                ..pool
            };
            let bets2 = bets.update(i, BetRec { bet: bets[i].bet, live: false });
            let vault2 = Vault { balance: (vault.balance - payout) as u64 };
            payout >= 0 && books_ok(pool2, bets2) && solvent(pool2, bets2, vault2)
        }),
{
    let pool2 = MatchPool {
        winning_bet_count: dec_saturating(pool.winning_bet_count),
        bet_count: dec_saturating(pool.bet_count),
        ..pool
    };
    let rec2 = BetRec { bet: bets[i].bet, live: false };
    let bets2 = bets.update(i, rec2);
    lemma_payout_le_gross_share(
        pool.side_a_total,
        pool.side_b_total,
        pool.fee_bps,
        bets[i].bet.amount,
        pool.winning_side_total(),
    );
    lemma_sum_by_update(bets, side_amount_weight(BetSide::SideA), i, rec2);
    lemma_sum_by_update(bets, side_amount_weight(BetSide::SideB), i, rec2);
    lemma_sum_by_update(bets, side_count_weight(BetSide::SideA), i, rec2);
    lemma_sum_by_update(bets, side_count_weight(BetSide::SideB), i, rec2);
    let lw = live_weight();
    assert forall|j: int| 0 <= j < bets.len() implies lw(#[trigger] bets[j]) >= 0 by {}
    lemma_sum_by_ge_elem(bets, lw, i);
    lemma_sum_by_update(bets, lw, i, rec2);
    let luw = live_unclaimed_winner_weight(pool.winner);
    assert forall|j: int| 0 <= j < bets.len() implies luw(#[trigger] bets[j]) >= 0 by {}
    lemma_sum_by_ge_elem(bets, luw, i);
    lemma_sum_by_update(bets, luw, i, rec2);
    lemma_sum_by_update(bets, obligation_weight(pool), i, rec2);
    lemma_sum_by_eq(bets2, obligation_weight(pool2), obligation_weight(pool));
}

/// `withdraw_fees` keeps the books balanced and the vault solvent: with
/// every winner settled the obligations are either zero (funded winning
/// side) or exactly covered alongside the earmarked fee (no-winners case),
/// so handing the fee to the treasury strands no bettor.
pub proof fn lemma_withdraw_fees_preserves(pool: MatchPool, bets: Seq<BetRec>, vault: Vault)
    requires
        books_ok(pool, bets),
        solvent(pool, bets, vault),
        pool.wf(),
        pool.status == MatchStatus::Resolved,
        pool.winning_bet_count == 0,
        !pool.fees_withdrawn,
    ensures
        ({
            let fee = fee_amount(
                total_pool(pool.side_a_total, pool.side_b_total), pool.fee_bps);
            let amount: int = if fee <= vault.balance { fee } else { vault.balance as int };
            let pool2 = MatchPool { fees_withdrawn: true, ..pool };
            let vault2 = Vault { balance: (vault.balance - amount) as u64 };
            0 <= amount <= vault.balance && books_ok(pool2, bets) && solvent(
                pool2, bets, vault2)
        }),
{
    let total = total_pool(pool.side_a_total, pool.side_b_total);
    lemma_fee_in_range(total, pool.fee_bps);
    let pool2 = MatchPool { fees_withdrawn: true, ..pool };
    let ow = obligation_weight(pool);
    lemma_sum_by_eq(bets, obligation_weight(pool2), ow);
    if pool.winning_side_total() > 0 {
        // All winners settled: nothing is owed, so even draining up to the
        // whole fee leaves the vault covering the (empty) obligations.
        let luw = live_unclaimed_winner_weight(pool.winner);
        assert forall|j: int| 0 <= j < bets.len() implies luw(#[trigger] bets[j]) >= 0 by {}
        assert forall|j: int| 0 <= j < bets.len() && luw(#[trigger] bets[j]) == 0 implies ow(
            bets[j]) == 0 by {
            lemma_div_of0(pool.winning_side_total() as int);
        }
        lemma_sum_by_zero(bets, luw, ow);
    } else {
        // No winners: the vault covers refunds plus the earmarked fee, so
        // the fee is fully available and the refunds stay covered.
        lemma_obligations_nonneg(pool, bets);
    }
}

/// `close_match` strands nobody: once every bet record is closed the match
/// owes nothing, so draining the vault remainder to the platform authority
/// is safe.
pub proof fn lemma_close_match_drains(pool: MatchPool, bets: Seq<BetRec>)
    requires
        books_ok(pool, bets),
        pool.bet_count == 0,
    ensures
        obligations(pool, bets) == 0,
{
    let lw = live_weight();
    let ow = obligation_weight(pool);
    assert forall|j: int| 0 <= j < bets.len() implies lw(#[trigger] bets[j]) >= 0 by {}
    assert forall|j: int| 0 <= j < bets.len() && lw(#[trigger] bets[j]) == 0 implies ow(
        bets[j]) == 0 by {}
    lemma_sum_by_zero(bets, lw, ow);
}

/// Weight: a winning-side record's payout at the given fee rate, else 0.
pub open spec fn winner_payout_weight(pool: MatchPool, fee_bps: u16) -> spec_fn(BetRec) -> int {
    |r: BetRec| if r.bet.is_winner_spec(pool.winner) {
        winner_payout(
            pool.side_a_total,
            pool.side_b_total,
            fee_bps,
            r.bet.amount,
            pool.winning_side_total(),
        )
    } else {
        0
    }
}

/// Weight: an open unclaimed winner's payout at the given fee rate, else 0.
pub open spec fn unclaimed_payout_weight(pool: MatchPool, fee_bps: u16) -> spec_fn(
    BetRec,
) -> int {
    |r: BetRec| if r.live && !r.bet.claimed && r.bet.is_winner_spec(pool.winner) {
        winner_payout(
            pool.side_a_total,
            pool.side_b_total,
            fee_bps,
            r.bet.amount,
            pool.winning_side_total(),
        )
    } else {
        0
    }
}

/// Weight: an open record's stake, else 0.
pub open spec fn live_stake_weight() -> spec_fn(BetRec) -> int {
    |r: BetRec| if r.live { r.bet.amount as int } else { 0 }
}

/// Weight: an open record's no-winners refund at the match's snapshotted
/// rate, else 0.
pub open spec fn live_refund_weight(pool: MatchPool) -> spec_fn(BetRec) -> int {
    |r: BetRec| if r.live { no_winners_refund(r.bet.amount, pool.fee_bps) } else { 0 }
}

/// For a resolved match with a funded winning side, the payouts over all
/// winning bets at any single admissible fee rate, plus the fee at that
/// rate, never exceed the gross pool: rounding loss is the only
/// discrepancy, and it is non-negative.
pub proof fn theorem_payouts_plus_fee_bounded(
    pool: MatchPool,
    bets: Seq<BetRec>,
    fee_bps: u16,
)
    requires
        books_ok(pool, bets),
        pool.status == MatchStatus::Resolved,
        pool.winning_side_total() > 0,
        fee_bps <= BPS_DENOMINATOR,
    ensures
        sum_by(bets, winner_payout_weight(pool, fee_bps)) + fee_amount(
            total_pool(pool.side_a_total, pool.side_b_total), fee_bps)
            <= total_pool(pool.side_a_total, pool.side_b_total),
{
    let total = total_pool(pool.side_a_total, pool.side_b_total);
    let wst = pool.winning_side_total();
    let wt = wst as int;
    let net = net_pool(total, fee_bps);
    lemma_fee_in_range(total, fee_bps);
    let num = |r: BetRec| if r.bet.is_winner_spec(pool.winner) {
        r.bet.amount as int
    } else {
        0
    };
    let share = |r: BetRec| net * num(r) / wt;
    let wpw = winner_payout_weight(pool, fee_bps);
    assert forall|j: int| 0 <= j < bets.len() implies wpw(#[trigger] bets[j]) == share(
        bets[j]) by {
        if !bets[j].bet.is_winner_spec(pool.winner) {
            lemma_div_of0(wt);
            assert(net * 0 == 0) by (nonlinear_arith);
        }
    }
    lemma_sum_by_eq(bets, wpw, share);
    assert forall|j: int| 0 <= j < bets.len() implies num(#[trigger] bets[j]) >= 0 by {}
    lemma_sum_scaled_div_le(bets, num, net, wt);
    let wside = if pool.winner == MatchWinner::SideA { BetSide::SideA } else { BetSide::SideB };
    let wamt = side_amount_weight(wside);
    assert forall|j: int| 0 <= j < bets.len() implies num(#[trigger] bets[j]) == wamt(
        bets[j]) by {}
    lemma_sum_by_eq(bets, num, wamt);
    assert(sum_by(bets, num) == wst);
    lemma_div_by_multiple(net, wt);
}

/// The solvency invariant, read back in the escrow's own terms: on a
/// resolved match with a funded winning side, the vault covers the sum of
/// every open unclaimed winner's payout at any admissible fee rate —
/// including whatever live rate each future claim will read.
pub proof fn theorem_vault_covers_unclaimed_payouts(
    pool: MatchPool,
    bets: Seq<BetRec>,
    vault: Vault,
    fee_bps: u16,
)
    requires
        books_ok(pool, bets),
        solvent(pool, bets, vault),
        pool.wf(),
        fee_bps <= BPS_DENOMINATOR,
        pool.status == MatchStatus::Resolved,
        pool.winning_side_total() > 0,
    ensures
        vault.balance >= sum_by(bets, unclaimed_payout_weight(pool, fee_bps)),
{
    let upw = unclaimed_payout_weight(pool, fee_bps);
    let ow = obligation_weight(pool);
    assert forall|j: int| 0 <= j < bets.len() implies upw(#[trigger] bets[j]) <= ow(
        bets[j]) by {
        if bets[j].live && !bets[j].bet.claimed && bets[j].bet.is_winner_spec(pool.winner) {
            lemma_payout_le_gross_share(
                pool.side_a_total,
                pool.side_b_total,
                fee_bps,
                bets[j].bet.amount,
                pool.winning_side_total(),
            );
        } else {
            lemma_rec_obligation_nonneg(pool, bets[j]);
        }
    }
    lemma_sum_by_le(bets, upw, ow);
}

/// The solvency invariant, read back in the escrow's own terms: before a
/// match is terminal, and after cancellation, the vault covers every open
/// record's full stake.
pub proof fn theorem_vault_covers_open_stakes(pool: MatchPool, bets: Seq<BetRec>, vault: Vault)
    requires
        books_ok(pool, bets),
        solvent(pool, bets, vault),
        pool.status == MatchStatus::Open || pool.status == MatchStatus::Locked
            || pool.status == MatchStatus::Cancelled,
    ensures
        vault.balance >= sum_by(bets, live_stake_weight()),
{
    lemma_sum_by_eq(bets, live_stake_weight(), obligation_weight(pool));
}

/// The solvency invariant, read back in the escrow's own terms: after a
/// no-winners resolution the vault covers every open record's refund — and
/// the still-earmarked platform fee on top.
pub proof fn theorem_vault_covers_refunds(pool: MatchPool, bets: Seq<BetRec>, vault: Vault)
    requires
        books_ok(pool, bets),
        solvent(pool, bets, vault),
        pool.wf(),
        pool.status == MatchStatus::Resolved,
        pool.winning_side_total() == 0,
    ensures
        vault.balance >= sum_by(bets, live_refund_weight(pool)) + reserved_fee(pool),
{
    lemma_sum_by_eq(bets, live_refund_weight(pool), obligation_weight(pool));
}

} // verus!
