//! The payout curve: difficulty and move count decide how much of the
//! stake comes back on a win.

use vstd::prelude::*;

verus! {

/// Game difficulty, fixed when a session is created.
#[derive(Clone, Copy, Debug, PartialEq, Eq, Structural)]
pub enum Difficulty {
    Easy,
    Medium,
    Hard,
}

/// Largest stake whose settlement arithmetic fits in a `u64`: the payout
/// can reach `stake + stake * 900 / 100`, and the curve multiplies the
/// stake by a percentage of at most 900 on the way there.
pub const MAX_STAKE: u64 = u64::MAX / 901;

impl Difficulty {
    /// The numeric encoding accepted at the public boundary.
    pub open spec fn from_code_spec(code: u8) -> Option<Difficulty> {
        if code == 0 {
            Some(Difficulty::Easy)
        } else if code == 1 {
            Some(Difficulty::Medium)
        } else if code == 2 {
            Some(Difficulty::Hard)
        } else {
            None
        }
    }

    /// Decodes a difficulty; codes above the highest difficulty are rejected.
    pub fn from_code(code: u8) -> (r: Option<Difficulty>)
        ensures
            r == Difficulty::from_code_spec(code),
    {
        if code == 0 {
            Some(Difficulty::Easy)
        } else if code == 1 {
            Some(Difficulty::Medium)
        } else if code == 2 {
            Some(Difficulty::Hard)
        } else {
            None
        }
    }
}

/// Percentage paid on top of the stake for a win within the optimal
/// move count.
pub open spec fn base_return(d: Difficulty) -> int {
    match d {
        Difficulty::Easy => 100,
        Difficulty::Medium => 400,
        Difficulty::Hard => 900,
    }
}

/// Move count up to which the full base return is paid.
pub open spec fn optimal_moves(d: Difficulty) -> int {
    match d {
        Difficulty::Easy => 20,
        Difficulty::Medium => 30,
        Difficulty::Hard => 40,
    }
}

/// Move count at which the return has decayed to zero.
pub open spec fn max_moves(d: Difficulty) -> int {
    match d {
        Difficulty::Easy => 60,
        Difficulty::Medium => 70,
        Difficulty::Hard => 80,
    }
}

/// The return percentage: the full base return up to the optimal move
/// count, then a linear decay (with floor division, hence stepwise)
/// that reaches zero exactly at the maximum move count.
pub open spec fn return_percentage(d: Difficulty, moves: int) -> int {
    if moves <= optimal_moves(d) {
        base_return(d)
    } else if moves <= max_moves(d) {
        base_return(d) - base_return(d) * (moves - optimal_moves(d)) / (max_moves(d)
            - optimal_moves(d))
    } else {
        0
    }
}

/// The payout owed for a win: the stake plus the returned percentage of it.
pub open spec fn payout_spec(d: Difficulty, moves: int, stake: int) -> int {
    stake + stake * return_percentage(d, moves) / 100
}

/// Computes the payout for a win after `move_count` moves.
pub fn calculate_payout(difficulty: Difficulty, move_count: u64, stake: u64) -> (p: u64)
    requires
        stake <= MAX_STAKE,
    ensures
        p as int == payout_spec(difficulty, move_count as int, stake as int),
{
    let base: u64 = match difficulty {
        Difficulty::Easy => 100,
        Difficulty::Medium => 400,
        Difficulty::Hard => 900,
    };
    let optimal: u64 = match difficulty {
        Difficulty::Easy => 20,
        Difficulty::Medium => 30,
        Difficulty::Hard => 40,
    };
    let cap: u64 = match difficulty {
        Difficulty::Easy => 60,
        Difficulty::Medium => 70,
        Difficulty::Hard => 80,
    };
    let pct: u64 = if move_count <= optimal {
        base
    } else if move_count <= cap {
        base - base * (move_count - optimal) / (cap - optimal)
    } else {
        0
    };
    proof {
        lemma_return_percentage_bounds(difficulty, move_count as int);
        assert(pct as int == return_percentage(difficulty, move_count as int));
        assert(pct <= 900);
        vstd::arithmetic::mul::lemma_mul_inequality(pct as int, 900, stake as int);
        assert(stake as int * pct as int == pct as int * stake as int) by (nonlinear_arith);
        assert(stake as int * 900 == 900 * stake as int) by (nonlinear_arith);
        vstd::arithmetic::div_mod::lemma_div_is_ordered(
            stake as int * pct as int,
            stake as int * 900,
            100,
        );
        vstd::arithmetic::div_mod::lemma_div_multiples_vanish(9 * stake as int, 100);
        assert(stake as int * 900 == 100 * (9 * stake as int));
        vstd::arithmetic::mul::lemma_mul_nonnegative(stake as int, pct as int);
        vstd::arithmetic::div_mod::lemma_div_pos_is_pos(stake as int * pct as int, 100);
    }
    stake + stake * pct / 100
}

/// Within the optimal move count the payout is the stake scaled by one
/// hundred plus the base return, over one hundred: the full return.
pub proof fn lemma_payout_within_optimal(d: Difficulty, moves: int, stake: int)
    requires
        moves <= optimal_moves(d),
        0 <= stake,
    ensures
        payout_spec(d, moves, stake) == stake * (100 + base_return(d)) / 100,
{
    lemma_full_return_form(d, stake);
}

/// At or past the maximum move count the payout is exactly the stake:
/// the principal comes back with zero net return.
pub proof fn lemma_payout_at_or_past_max(d: Difficulty, moves: int, stake: int)
    requires
        max_moves(d) <= moves,
        0 <= stake,
    ensures
        payout_spec(d, moves, stake) == stake,
{
    if moves <= max_moves(d) {
        let span = max_moves(d) - optimal_moves(d);
        assert(span == 40);
        vstd::arithmetic::div_mod::lemma_div_by_multiple(base_return(d), span);
        assert(return_percentage(d, moves) == 0);
    }
    assert(stake * 0 == 0) by (nonlinear_arith);
}

/// The payout never falls below the stake and never exceeds the full
/// return paid within the optimal move count.
pub proof fn lemma_payout_bounds(d: Difficulty, moves: int, stake: int)
    requires
        0 <= stake,
    ensures
        stake <= payout_spec(d, moves, stake) <= stake * (100 + base_return(d)) / 100,
{
    lemma_return_percentage_bounds(d, moves);
    let pct = return_percentage(d, moves);
    vstd::arithmetic::mul::lemma_mul_nonnegative(stake, pct);
    vstd::arithmetic::div_mod::lemma_div_pos_is_pos(stake * pct, 100);
    vstd::arithmetic::mul::lemma_mul_inequality(pct, base_return(d), stake);
    assert(stake * pct == pct * stake) by (nonlinear_arith);
    assert(stake * base_return(d) == base_return(d) * stake) by (nonlinear_arith);
    vstd::arithmetic::div_mod::lemma_div_is_ordered(stake * pct, stake * base_return(d), 100);
    lemma_full_return_form(d, stake);
}

/// The payout is monotonically non-increasing in the move count: a later
/// win never pays more than an earlier one.
pub proof fn lemma_payout_monotonic(d: Difficulty, m1: int, m2: int, stake: int)
    requires
        m1 <= m2,
        0 <= stake,
    ensures
        payout_spec(d, m2, stake) <= payout_spec(d, m1, stake),
{
    lemma_return_percentage_monotonic(d, m1, m2);
    let p1 = return_percentage(d, m1);
    let p2 = return_percentage(d, m2);
    vstd::arithmetic::mul::lemma_mul_inequality(p2, p1, stake);
    assert(stake * p1 == p1 * stake) by (nonlinear_arith);
    assert(stake * p2 == p2 * stake) by (nonlinear_arith);
    vstd::arithmetic::div_mod::lemma_div_is_ordered(stake * p2, stake * p1, 100);
}

/// The return percentage is monotonically non-increasing in the move count.
pub proof fn lemma_return_percentage_monotonic(d: Difficulty, m1: int, m2: int)
    requires
        m1 <= m2,
    ensures
        return_percentage(d, m2) <= return_percentage(d, m1),
{
    lemma_return_percentage_bounds(d, m1);
    lemma_return_percentage_bounds(d, m2);
    if optimal_moves(d) < m1 && m2 <= max_moves(d) {
        let span = max_moves(d) - optimal_moves(d);
        assert(span == 40);
        let d1 = m1 - optimal_moves(d);
        let d2 = m2 - optimal_moves(d);
        vstd::arithmetic::mul::lemma_mul_inequality(d1, d2, base_return(d));
        assert(base_return(d) * d1 == d1 * base_return(d)) by (nonlinear_arith);
        assert(base_return(d) * d2 == d2 * base_return(d)) by (nonlinear_arith);
        vstd::arithmetic::div_mod::lemma_div_is_ordered(
            base_return(d) * d1,
            base_return(d) * d2,
            span,
        );
    }
}

/// The stake plus the base-return share of it equals the stake scaled by
/// one hundred plus the base return, over one hundred: the base returns
/// are whole multiples of one hundred, so floor division loses nothing.
proof fn lemma_full_return_form(d: Difficulty, stake: int)
    requires
        0 <= stake,
    ensures
        stake + stake * base_return(d) / 100 == stake * (100 + base_return(d)) / 100,
{
    match d {
        Difficulty::Easy => {
            vstd::arithmetic::div_mod::lemma_div_multiples_vanish(stake, 100);
            vstd::arithmetic::div_mod::lemma_div_multiples_vanish(2 * stake, 100);
            assert(stake * 100 == 100 * stake);
            assert(stake * 200 == 100 * (2 * stake));
        },
        Difficulty::Medium => {
            vstd::arithmetic::div_mod::lemma_div_multiples_vanish(4 * stake, 100);
            vstd::arithmetic::div_mod::lemma_div_multiples_vanish(5 * stake, 100);
            assert(stake * 400 == 100 * (4 * stake));
            assert(stake * 500 == 100 * (5 * stake));
        },
        Difficulty::Hard => {
            vstd::arithmetic::div_mod::lemma_div_multiples_vanish(9 * stake, 100);
            vstd::arithmetic::div_mod::lemma_div_multiples_vanish(10 * stake, 100);
            assert(stake * 900 == 100 * (9 * stake));
            assert(stake * 1000 == 100 * (10 * stake));
        },
    }
}

/// The return percentage always lies between zero and the base return.
pub proof fn lemma_return_percentage_bounds(d: Difficulty, moves: int)
    ensures
        0 <= return_percentage(d, moves) <= base_return(d),
{
    if optimal_moves(d) < moves <= max_moves(d) {
        let diff = moves - optimal_moves(d);
        let span = max_moves(d) - optimal_moves(d);
        assert(span == 40);
        vstd::arithmetic::mul::lemma_mul_nonnegative(base_return(d), diff);
        vstd::arithmetic::div_mod::lemma_div_pos_is_pos(base_return(d) * diff, span);
        vstd::arithmetic::mul::lemma_mul_inequality(diff, span, base_return(d));
        vstd::arithmetic::div_mod::lemma_div_by_multiple(base_return(d), span);
        vstd::arithmetic::div_mod::lemma_div_is_ordered(
            base_return(d) * diff,
            base_return(d) * span,
            span,
        );
    }
}

}
