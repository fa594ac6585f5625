//! The slot-machine payout oracles: pure functions from a short tuple of
//! cursor outputs to per-payline prize factors or a prize classification.

use vstd::prelude::*;

pub mod fountains_of_fortune;
pub mod magnicent_sevens;
pub mod riches_of_rome;

verus! {

/// The amount a prize pays: the bet unit times each of the first
/// `bet_count` payline factors, summed.
pub open spec fn calc_spec(factors: Seq<u32>, bet_unit: int, bet_count: int) -> int
    decreases bet_count,
{
    if bet_count <= 0 {
        0
    } else {
        calc_spec(factors, bet_unit, bet_count - 1) + bet_unit * factors[bet_count - 1]
    }
}

/// With a non-negative unit and factors, the payout grows with the number
/// of paylines bet on.
pub proof fn lemma_calc_spec_mono(factors: Seq<u32>, bet_unit: int, k: int, n: int)
    requires
        bet_unit >= 0,
        0 <= k <= n,
        n <= factors.len(),
    ensures
        calc_spec(factors, bet_unit, k) <= calc_spec(factors, bet_unit, n),
        calc_spec(factors, bet_unit, k) >= 0,
    decreases n,
{
    if n > 0 {
        if k == n {
            lemma_calc_spec_mono(factors, bet_unit, if k > 0 { k - 1 } else { 0 }, n - 1);
            assert(bet_unit * factors[n - 1] >= 0) by (nonlinear_arith)
                requires
                    bet_unit >= 0,
                    factors[n - 1] >= 0,
            ;
        } else {
            lemma_calc_spec_mono(factors, bet_unit, k, n - 1);
            assert(bet_unit * factors[n - 1] >= 0) by (nonlinear_arith)
                requires
                    bet_unit >= 0,
                    factors[n - 1] >= 0,
            ;
        }
    }
}

/// The per-payline factors of "Riches of Rome", as the older direct
/// interface reports them: (centre row, top row, bottom row), the same
/// order the paylines are bet on.
pub fn bandit_ror_play(rs: [u8; 3]) -> (r: [u32; 3])
    ensures
        r@ == riches_of_rome::play_spec(rs@),
{
    let prize = riches_of_rome::bandit_ror_play(rs);
    prize.factors()
}

} // verus!
