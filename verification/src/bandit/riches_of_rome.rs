//! The slot machine "Riches of Rome": three reels of twenty symbols, three
//! paylines, and a per-payline prize factor read off a fixed table.

use vstd::prelude::*;

use crate::bandit::calc_spec;
use crate::bandit::lemma_calc_spec_mono;

verus! {

#[derive(Clone, Copy, Debug, Eq, PartialEq)]
pub enum Symbol {
    Watermelon,
    Lemon,
    Bar,
    Seven,
    Cherry,
    Orange,
    Plum,
    Bell,
}

/// The symbol strip of the first reel.
#[verifier::opaque]
pub open spec fn symbol_row0(idx: int) -> Symbol {
    if idx == 0 {
        Symbol::Orange
    } else if idx == 1 {
        Symbol::Watermelon
    } else if idx == 2 {
        Symbol::Plum
    } else if idx == 3 {
        Symbol::Cherry
    } else if idx == 4 {
        Symbol::Plum
    } else if idx == 5 {
        Symbol::Orange
    } else if idx == 6 {
        Symbol::Seven
    } else if idx == 7 {
        Symbol::Bell
    } else if idx == 8 {
        Symbol::Orange
    } else if idx == 9 {
        Symbol::Cherry
    } else if idx == 10 {
        Symbol::Bar
    } else if idx == 11 {
        Symbol::Plum
    } else if idx == 12 {
        Symbol::Orange
    } else if idx == 13 {
        Symbol::Plum
    } else if idx == 14 {
        Symbol::Watermelon
    } else if idx == 15 {
        Symbol::Plum
    } else if idx == 16 {
        Symbol::Orange
    } else if idx == 17 {
        Symbol::Plum
    } else if idx == 18 {
        Symbol::Bar
    } else {
        Symbol::Plum
    }
}

/// The symbol strip of the second reel.
#[verifier::opaque]
pub open spec fn symbol_row1(idx: int) -> Symbol {
    if idx == 0 {
        Symbol::Cherry
    } else if idx == 1 {
        Symbol::Plum
    } else if idx == 2 {
        Symbol::Cherry
    } else if idx == 3 {
        Symbol::Seven
    } else if idx == 4 {
        Symbol::Cherry
    } else if idx == 5 {
        Symbol::Bell
    } else if idx == 6 {
        Symbol::Bar
    } else if idx == 7 {
        Symbol::Bell
    } else if idx == 8 {
        Symbol::Cherry
    } else if idx == 9 {
        Symbol::Orange
    } else if idx == 10 {
        Symbol::Bell
    } else if idx == 11 {
        Symbol::Orange
    } else if idx == 12 {
        Symbol::Plum
    } else if idx == 13 {
        Symbol::Bell
    } else if idx == 14 {
        Symbol::Cherry
    } else if idx == 15 {
        Symbol::Bar
    } else if idx == 16 {
        Symbol::Orange
    } else if idx == 17 {
        Symbol::Cherry
    } else if idx == 18 {
        Symbol::Bell
    } else {
        Symbol::Watermelon
    }
}

/// The symbol strip of the third reel.
#[verifier::opaque]
pub open spec fn symbol_row2(idx: int) -> Symbol {
    if idx == 0 {
        Symbol::Lemon
    } else if idx == 1 {
        Symbol::Orange
    } else if idx == 2 {
        Symbol::Plum
    } else if idx == 3 {
        Symbol::Bell
    } else if idx == 4 {
        Symbol::Orange
    } else if idx == 5 {
        Symbol::Lemon
    } else if idx == 6 {
        Symbol::Bar
    } else if idx == 7 {
        Symbol::Watermelon
    } else if idx == 8 {
        Symbol::Bell
    } else if idx == 9 {
        Symbol::Plum
    } else if idx == 10 {
        Symbol::Lemon
    } else if idx == 11 {
        Symbol::Bell
    } else if idx == 12 {
        Symbol::Plum
    } else if idx == 13 {
        Symbol::Bell
    } else if idx == 14 {
        Symbol::Seven
    } else if idx == 15 {
        Symbol::Lemon
    } else if idx == 16 {
        Symbol::Bell
    } else if idx == 17 {
        Symbol::Orange
    } else if idx == 18 {
        Symbol::Lemon
    } else {
        Symbol::Bar
    }
}

/// The symbol at position `idx` of reel `row`.
pub open spec fn symbol_table_spec(row: int, idx: int) -> Symbol {
    if row == 0 {
        symbol_row0(idx)
    } else if row == 1 {
        symbol_row1(idx)
    } else {
        symbol_row2(idx)
    }
}

/// The fixed base offset of each reel.
pub open spec fn base_spec(i: int) -> int {
    if i == 0 {
        40
    } else if i == 1 {
        10
    } else {
        24
    }
}

/// The value of reel `i`: cursor outputs are applied in reverse order of
/// generation, the most recent output turning the first reel.
pub open spec fn reel_spec(rs: Seq<u8>, i: int) -> u8 {
    (2 * (((base_spec(i) + rs[2 - i]) % 256) % 20)) as u8
}

/// All three reel values for the outputs `rs`.
pub open spec fn reels_spec(rs: Seq<u8>) -> Seq<u8> {
    Seq::new(3, |i: int| reel_spec(rs, i))
}

/// The symbols shown by the given reel values.
pub open spec fn symbols_spec(reels: Seq<u8>) -> Seq<Symbol> {
    Seq::new(3, |i: int| symbol_table_spec(i, reels[i] as int % 40 / 2))
}

/// The prize factor paid for a line of three symbols.
pub open spec fn prize_factor_spec(a: Symbol, b: Symbol, c: Symbol) -> u32 {
    match (a, b, c) {
        (Symbol::Seven, Symbol::Seven, Symbol::Seven) => 200,
        (Symbol::Bar, Symbol::Bar, Symbol::Bar) => 100,
        (Symbol::Watermelon, Symbol::Watermelon, Symbol::Bar | Symbol::Watermelon) => 100,
        (Symbol::Bell, Symbol::Bell, Symbol::Bar | Symbol::Bell) => 18,
        (Symbol::Plum, Symbol::Plum, Symbol::Bar | Symbol::Plum) => 14,
        (Symbol::Orange, Symbol::Orange, Symbol::Bar | Symbol::Orange) => 10,
        (Symbol::Cherry, Symbol::Cherry, _) => 5,
        (Symbol::Cherry, _, _) => 2,
        _ => 0,
    }
}

/// No line pays more than 200 times the bet unit.
pub proof fn lemma_prize_factor_bound(a: Symbol, b: Symbol, c: Symbol)
    ensures
        prize_factor_spec(a, b, c) <= 200,
{
}

/// The reel values of payline `bias` (each payline reads the strip a fixed
/// offset away from the centre row).
pub open spec fn biased_reels(reels: Seq<u8>, bias: int) -> Seq<u8> {
    Seq::new(3, |i: int| ((reels[i] + bias) % 256) as u8)
}

/// The prize factor of one payline for the given centre-row reel values.
pub open spec fn line_factor_of_reels(reels: Seq<u8>, bias: int) -> u32 {
    let syms = symbols_spec(biased_reels(reels, bias));
    prize_factor_spec(syms[0], syms[1], syms[2])
}

/// The prize factor of one payline for the outputs `rs`.
pub open spec fn line_factor_spec(rs: Seq<u8>, bias: int) -> u32 {
    line_factor_of_reels(reels_spec(rs), bias)
}

/// The three payline factors for the outputs `rs`: (centre row, top row,
/// bottom row), the same order the paylines are bet on.
#[verifier::opaque]
pub open spec fn play_spec(rs: Seq<u8>) -> Seq<u32> {
    seq![line_factor_spec(rs, 2), line_factor_spec(rs, 0), line_factor_spec(rs, 4)]
}


/// Each payline factor of a play is bounded by the largest table prize.
pub proof fn lemma_play_spec_bounds(rs: Seq<u8>)
    ensures
        play_spec(rs).len() == 3,
        forall|i: int| 0 <= i < 3 ==> (#[trigger] play_spec(rs)[i]) <= 200,
{
    reveal(play_spec);
    assert forall|i: int| 0 <= i < 3 implies (#[trigger] play_spec(rs)[i]) <= 200 by {
        let f = play_spec(rs);
        if i == 0 {
            let syms = symbols_spec(biased_reels(reels_spec(rs), 2));
            lemma_prize_factor_bound(syms[0], syms[1], syms[2]);
            assert(f[0] == prize_factor_spec(syms[0], syms[1], syms[2]));
        } else if i == 1 {
            let syms = symbols_spec(biased_reels(reels_spec(rs), 0));
            lemma_prize_factor_bound(syms[0], syms[1], syms[2]);
            assert(f[1] == prize_factor_spec(syms[0], syms[1], syms[2]));
        } else {
            let syms = symbols_spec(biased_reels(reels_spec(rs), 4));
            lemma_prize_factor_bound(syms[0], syms[1], syms[2]);
            assert(f[2] == prize_factor_spec(syms[0], syms[1], syms[2]));
        }
    }
}

/// The result of one "Riches of Rome" play.
#[derive(Clone, Copy, Debug, Eq, PartialEq)]
pub struct BanditRorPrize {
    factors: [u32; 3],
}

impl BanditRorPrize {
    /// The per-payline prize factors the play resolved to.
    pub closed spec fn spec_factors(self) -> Seq<u32> {
        self.factors@
    }

    fn new(factors: [u32; 3]) -> (r: Self)
        ensures
            r.spec_factors() == factors@,
    {
        Self { factors }
    }

    /// The per-payline factors: (centre row, top row, bottom row), the same
    /// order the paylines are bet on.
    pub fn factors(self) -> (r: [u32; 3])
        ensures
            r@ == self.spec_factors(),
    {
        self.factors
    }

    /// The amount won: the bet unit times each of the first `bet_count`
    /// payline factors, summed.
    pub fn calc(self, bet_unit: u32, bet_count: usize) -> (r: u32)
        requires
            1 <= bet_count <= 3,
            calc_spec(self.spec_factors(), bet_unit as int, bet_count as int) <= u32::MAX,
        ensures
            r == calc_spec(self.spec_factors(), bet_unit as int, bet_count as int),
    {
        let mut total: u32 = 0;
        let mut i: usize = 0;
        while i < bet_count
            invariant
                i <= bet_count <= 3,
                total == calc_spec(self.spec_factors(), bet_unit as int, i as int),
                calc_spec(self.spec_factors(), bet_unit as int, bet_count as int) <= u32::MAX,
                self.spec_factors().len() == 3,
            decreases bet_count - i,
        {
            proof {
                lemma_calc_spec_mono(self.spec_factors(), bet_unit as int, i + 1, bet_count as int);
                lemma_calc_spec_mono(self.spec_factors(), bet_unit as int, i as int, i + 1);
            }
            total = total + bet_unit * self.factors[i];
            i = i + 1;
        }
        total
    }
}

/// Plays "Riches of Rome" with the given cursor outputs.
pub fn bandit_ror_play(rs: [u8; 3]) -> (r: BanditRorPrize)
    ensures
        r.spec_factors() == play_spec(rs@),
{
    let reels = randoms_to_reels(rs);
    let f0 = line_factor(reels, 2);
    let f1 = line_factor(reels, 0);
    let f2 = line_factor(reels, 4);
    let factors: [u32; 3] = [f0, f1, f2];
    proof {
        reveal(play_spec);
        assert(reels@ == reels_spec(rs@));
        assert(factors@ =~= play_spec(rs@));
    }
    BanditRorPrize::new(factors)
}

/// The prize factor of the payline `bias` away from the centre row.
fn line_factor(reels: [u8; 3], bias: u8) -> (r: u32)
    ensures
        r == line_factor_of_reels(reels@, bias as int),
{
    let b0 = ((reels[0] as u16 + bias as u16) % 256) as u8;
    let b1 = ((reels[1] as u16 + bias as u16) % 256) as u8;
    let b2 = ((reels[2] as u16 + bias as u16) % 256) as u8;
    let shifted: [u8; 3] = [b0, b1, b2];
    proof {
        assert(shifted@ =~= biased_reels(reels@, bias as int));
    }
    let syms = reels_to_symbols(shifted);
    prize_factor(syms)
}

/// Turns three cursor outputs into the three centre-row reel values.
fn randoms_to_reels(rs: [u8; 3]) -> (r: [u8; 3])
    ensures
        r@ == reels_spec(rs@),
{
    let r0 = 2 * (((40u16 + rs[2] as u16) % 256 % 20) as u8);
    let r1 = 2 * (((10u16 + rs[1] as u16) % 256 % 20) as u8);
    let r2 = 2 * (((24u16 + rs[0] as u16) % 256 % 20) as u8);
    let r: [u8; 3] = [r0, r1, r2];
    proof {
        assert(r@ =~= reels_spec(rs@));
    }
    r
}

/// Reads the symbol each reel value points at.
fn reels_to_symbols(reels: [u8; 3]) -> (r: [Symbol; 3])
    ensures
        r@ == symbols_spec(reels@),
{
    let s0 = symbol_at(0, (reels[0] % 40 / 2) as usize);
    let s1 = symbol_at(1, (reels[1] % 40 / 2) as usize);
    let s2 = symbol_at(2, (reels[2] % 40 / 2) as usize);
    let r: [Symbol; 3] = [s0, s1, s2];
    proof {
        assert(r@ =~= symbols_spec(reels@));
    }
    r
}

/// The prize factor paid for a line of three symbols.
fn prize_factor(syms: [Symbol; 3]) -> (r: u32)
    ensures
        r == prize_factor_spec(syms@[0], syms@[1], syms@[2]),
{
    match (syms[0], syms[1], syms[2]) {
        (Symbol::Seven, Symbol::Seven, Symbol::Seven) => 200,
        (Symbol::Bar, Symbol::Bar, Symbol::Bar) => 100,
        (Symbol::Watermelon, Symbol::Watermelon, Symbol::Bar | Symbol::Watermelon) => 100,
        (Symbol::Bell, Symbol::Bell, Symbol::Bar | Symbol::Bell) => 18,
        (Symbol::Plum, Symbol::Plum, Symbol::Bar | Symbol::Plum) => 14,
        (Symbol::Orange, Symbol::Orange, Symbol::Bar | Symbol::Orange) => 10,
        (Symbol::Cherry, Symbol::Cherry, _) => 5,
        (Symbol::Cherry, _, _) => 2,
        _ => 0,
    }
}

/// Looks the symbol strip of reel `row` up at position `idx`.
fn symbol_at(row: usize, idx: usize) -> (r: Symbol)
    requires
        row < 3,
        idx < 20,
    ensures
        r == symbol_table_spec(row as int, idx as int),
{
    proof {
        reveal(symbol_row0);
        reveal(symbol_row1);
        reveal(symbol_row2);
    }
    let t: [Symbol; 20] = if row == 0 {
        [
            Symbol::Orange,
            Symbol::Watermelon,
            Symbol::Plum,
            Symbol::Cherry,
            Symbol::Plum,
            Symbol::Orange,
            Symbol::Seven,
            Symbol::Bell,
            Symbol::Orange,
            Symbol::Cherry,
            Symbol::Bar,
            Symbol::Plum,
            Symbol::Orange,
            Symbol::Plum,
            Symbol::Watermelon,
            Symbol::Plum,
            Symbol::Orange,
            Symbol::Plum,
            Symbol::Bar,
            Symbol::Plum,
        ]
    } else if row == 1 {
        [
            Symbol::Cherry,
            Symbol::Plum,
            Symbol::Cherry,
            Symbol::Seven,
            Symbol::Cherry,
            Symbol::Bell,
            Symbol::Bar,
            Symbol::Bell,
            Symbol::Cherry,
            Symbol::Orange,
            Symbol::Bell,
            Symbol::Orange,
            Symbol::Plum,
            Symbol::Bell,
            Symbol::Cherry,
            Symbol::Bar,
            Symbol::Orange,
            Symbol::Cherry,
            Symbol::Bell,
            Symbol::Watermelon,
        ]
    } else {
        [
            Symbol::Lemon,
            Symbol::Orange,
            Symbol::Plum,
            Symbol::Bell,
            Symbol::Orange,
            Symbol::Lemon,
            Symbol::Bar,
            Symbol::Watermelon,
            Symbol::Bell,
            Symbol::Plum,
            Symbol::Lemon,
            Symbol::Bell,
            Symbol::Plum,
            Symbol::Bell,
            Symbol::Seven,
            Symbol::Lemon,
            Symbol::Bell,
            Symbol::Orange,
            Symbol::Lemon,
            Symbol::Bar,
        ]
    };
    t[idx]
}

} // verus!
