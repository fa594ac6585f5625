//! The slot machine "Magnificent Sevens": three reels whose strips are
//! read through per-reel index tables, three paylines, and a prize factor
//! per line of three symbols.

use vstd::prelude::*;

use crate::bandit::calc_spec;
use crate::bandit::lemma_calc_spec_mono;

verus! {

#[derive(Clone, Copy, Debug, Eq, PartialEq, Structural)]
pub enum Symbol {
    Blank,
    BlackSeven,
    RedSeven,
    SingleBar,
    DoubleBar,
    TripleBar,
}

impl Symbol {
    /// Whether the symbol is one of the sevens.
    pub open spec fn spec_is_seven(self) -> bool {
        self == Symbol::BlackSeven || self == Symbol::RedSeven
    }

    /// Whether the symbol is one of the bars.
    pub open spec fn spec_is_bar(self) -> bool {
        self == Symbol::SingleBar || self == Symbol::DoubleBar || self == Symbol::TripleBar
    }

    fn is_seven(self) -> (r: bool)
        ensures
            r == self.spec_is_seven(),
    {
        match self {
            Symbol::BlackSeven | Symbol::RedSeven => true,
            _ => false,
        }
    }

    fn is_bar(self) -> (r: bool)
        ensures
            r == self.spec_is_bar(),
    {
        match self {
            Symbol::SingleBar | Symbol::DoubleBar | Symbol::TripleBar => true,
            _ => false,
        }
    }
}

/// The reel-value strip of reel 0.
#[verifier::opaque]
pub open spec fn reel_row0(idx: int) -> u8 {
    if idx == 0 {
        0x00
    } else if idx == 1 {
        0x02
    } else if idx == 2 {
        0x04
    } else if idx == 3 {
        0x06
    } else if idx == 4 {
        0x08
    } else if idx == 5 {
        0x0A
    } else if idx == 6 {
        0x0C
    } else if idx == 7 {
        0x0E
    } else if idx == 8 {
        0x10
    } else if idx == 9 {
        0x12
    } else if idx == 10 {
        0x14
    } else if idx == 11 {
        0x16
    } else if idx == 12 {
        0x18
    } else if idx == 13 {
        0x1A
    } else if idx == 14 {
        0x1C
    } else if idx == 15 {
        0x1E
    } else if idx == 16 {
        0x20
    } else if idx == 17 {
        0x22
    } else if idx == 18 {
        0x24
    } else if idx == 19 {
        0x26
    } else if idx == 20 {
        0x28
    } else if idx == 21 {
        0x2A
    } else if idx == 22 {
        0x00
    } else if idx == 23 {
        0x02
    } else if idx == 24 {
        0x04
    } else if idx == 25 {
        0x06
    } else if idx == 26 {
        0x08
    } else if idx == 27 {
        0x0A
    } else if idx == 28 {
        0x1C
    } else if idx == 29 {
        0x1E
    } else if idx == 30 {
        0x18
    } else if idx == 31 {
        0x1A
    } else if idx == 32 {
        0x0C
    } else if idx == 33 {
        0x0E
    } else if idx == 34 {
        0x08
    } else if idx == 35 {
        0x0A
    } else if idx == 36 {
        0x0C
    } else if idx == 37 {
        0x0E
    } else if idx == 38 {
        0x08
    } else if idx == 39 {
        0x0A
    } else if idx == 40 {
        0x0C
    } else if idx == 41 {
        0x0E
    } else if idx == 42 {
        0x08
    } else if idx == 43 {
        0x0A
    } else if idx == 44 {
        0x0C
    } else if idx == 45 {
        0x0E
    } else if idx == 46 {
        0x08
    } else if idx == 47 {
        0x0A
    } else if idx == 48 {
        0x0C
    } else if idx == 49 {
        0x0E
    } else if idx == 50 {
        0x10
    } else if idx == 51 {
        0x12
    } else if idx == 52 {
        0x14
    } else if idx == 53 {
        0x16
    } else if idx == 54 {
        0x04
    } else if idx == 55 {
        0x06
    } else if idx == 56 {
        0x10
    } else if idx == 57 {
        0x12
    } else if idx == 58 {
        0x14
    } else if idx == 59 {
        0x16
    } else if idx == 60 {
        0x20
    } else if idx == 61 {
        0x22
    } else if idx == 62 {
        0x24
    } else if idx == 63 {
        0x26
    } else if idx == 64 {
        0x28
    } else {
        0x2A
    }
}

/// The reel-value strip of reel 1.
#[verifier::opaque]
pub open spec fn reel_row1(idx: int) -> u8 {
    if idx == 0 {
        0x00
    } else if idx == 1 {
        0x02
    } else if idx == 2 {
        0x04
    } else if idx == 3 {
        0x06
    } else if idx == 4 {
        0x08
    } else if idx == 5 {
        0x0A
    } else if idx == 6 {
        0x0C
    } else if idx == 7 {
        0x0E
    } else if idx == 8 {
        0x10
    } else if idx == 9 {
        0x12
    } else if idx == 10 {
        0x14
    } else if idx == 11 {
        0x16
    } else if idx == 12 {
        0x18
    } else if idx == 13 {
        0x1A
    } else if idx == 14 {
        0x1C
    } else if idx == 15 {
        0x1E
    } else if idx == 16 {
        0x20
    } else if idx == 17 {
        0x22
    } else if idx == 18 {
        0x24
    } else if idx == 19 {
        0x26
    } else if idx == 20 {
        0x28
    } else if idx == 21 {
        0x2A
    } else if idx == 22 {
        0x00
    } else if idx == 23 {
        0x02
    } else if idx == 24 {
        0x04
    } else if idx == 25 {
        0x06
    } else if idx == 26 {
        0x08
    } else if idx == 27 {
        0x0A
    } else if idx == 28 {
        0x1C
    } else if idx == 29 {
        0x1E
    } else if idx == 30 {
        0x18
    } else if idx == 31 {
        0x1A
    } else if idx == 32 {
        0x1C
    } else if idx == 33 {
        0x1E
    } else if idx == 34 {
        0x18
    } else if idx == 35 {
        0x1A
    } else if idx == 36 {
        0x1C
    } else if idx == 37 {
        0x1E
    } else if idx == 38 {
        0x18
    } else if idx == 39 {
        0x0A
    } else if idx == 40 {
        0x0C
    } else if idx == 41 {
        0x0E
    } else if idx == 42 {
        0x08
    } else if idx == 43 {
        0x0A
    } else if idx == 44 {
        0x0C
    } else if idx == 45 {
        0x0E
    } else if idx == 46 {
        0x08
    } else if idx == 47 {
        0x0A
    } else if idx == 48 {
        0x0C
    } else if idx == 49 {
        0x0E
    } else if idx == 50 {
        0x10
    } else if idx == 51 {
        0x12
    } else if idx == 52 {
        0x14
    } else if idx == 53 {
        0x16
    } else if idx == 54 {
        0x04
    } else if idx == 55 {
        0x06
    } else if idx == 56 {
        0x10
    } else if idx == 57 {
        0x12
    } else if idx == 58 {
        0x24
    } else if idx == 59 {
        0x26
    } else if idx == 60 {
        0x24
    } else if idx == 61 {
        0x26
    } else if idx == 62 {
        0x24
    } else if idx == 63 {
        0x26
    } else if idx == 64 {
        0x28
    } else {
        0x2A
    }
}

/// The reel-value strip of reel 2.
#[verifier::opaque]
pub open spec fn reel_row2(idx: int) -> u8 {
    if idx == 0 {
        0x00
    } else if idx == 1 {
        0x02
    } else if idx == 2 {
        0x04
    } else if idx == 3 {
        0x06
    } else if idx == 4 {
        0x08
    } else if idx == 5 {
        0x0A
    } else if idx == 6 {
        0x0C
    } else if idx == 7 {
        0x0E
    } else if idx == 8 {
        0x10
    } else if idx == 9 {
        0x12
    } else if idx == 10 {
        0x14
    } else if idx == 11 {
        0x16
    } else if idx == 12 {
        0x18
    } else if idx == 13 {
        0x1A
    } else if idx == 14 {
        0x1C
    } else if idx == 15 {
        0x1E
    } else if idx == 16 {
        0x20
    } else if idx == 17 {
        0x22
    } else if idx == 18 {
        0x24
    } else if idx == 19 {
        0x26
    } else if idx == 20 {
        0x28
    } else if idx == 21 {
        0x2A
    } else if idx == 22 {
        0x00
    } else if idx == 23 {
        0x02
    } else if idx == 24 {
        0x04
    } else if idx == 25 {
        0x06
    } else if idx == 26 {
        0x08
    } else if idx == 27 {
        0x0A
    } else if idx == 28 {
        0x1C
    } else if idx == 29 {
        0x1E
    } else if idx == 30 {
        0x18
    } else if idx == 31 {
        0x1A
    } else if idx == 32 {
        0x1C
    } else if idx == 33 {
        0x1E
    } else if idx == 34 {
        0x18
    } else if idx == 35 {
        0x1A
    } else if idx == 36 {
        0x0C
    } else if idx == 37 {
        0x0E
    } else if idx == 38 {
        0x08
    } else if idx == 39 {
        0x0A
    } else if idx == 40 {
        0x0C
    } else if idx == 41 {
        0x0E
    } else if idx == 42 {
        0x08
    } else if idx == 43 {
        0x0A
    } else if idx == 44 {
        0x0C
    } else if idx == 45 {
        0x0E
    } else if idx == 46 {
        0x08
    } else if idx == 47 {
        0x0A
    } else if idx == 48 {
        0x0C
    } else if idx == 49 {
        0x0E
    } else if idx == 50 {
        0x10
    } else if idx == 51 {
        0x12
    } else if idx == 52 {
        0x14
    } else if idx == 53 {
        0x16
    } else if idx == 54 {
        0x04
    } else if idx == 55 {
        0x06
    } else if idx == 56 {
        0x10
    } else if idx == 57 {
        0x12
    } else if idx == 58 {
        0x24
    } else if idx == 59 {
        0x26
    } else if idx == 60 {
        0x14
    } else if idx == 61 {
        0x16
    } else if idx == 62 {
        0x20
    } else if idx == 63 {
        0x22
    } else if idx == 64 {
        0x28
    } else {
        0x2A
    }
}

/// The symbol each (even) reel value points at.
#[verifier::opaque]
pub open spec fn symbol_strip(idx: int) -> Symbol {
    if idx == 0 {
        Symbol::BlackSeven
    } else if idx == 1 {
        Symbol::Blank
    } else if idx == 2 {
        Symbol::DoubleBar
    } else if idx == 3 {
        Symbol::Blank
    } else if idx == 4 {
        Symbol::TripleBar
    } else if idx == 5 {
        Symbol::Blank
    } else if idx == 6 {
        Symbol::RedSeven
    } else if idx == 7 {
        Symbol::Blank
    } else if idx == 8 {
        Symbol::TripleBar
    } else if idx == 9 {
        Symbol::Blank
    } else if idx == 10 {
        Symbol::SingleBar
    } else if idx == 11 {
        Symbol::Blank
    } else if idx == 12 {
        Symbol::DoubleBar
    } else if idx == 13 {
        Symbol::Blank
    } else if idx == 14 {
        Symbol::RedSeven
    } else if idx == 15 {
        Symbol::Blank
    } else if idx == 16 {
        Symbol::DoubleBar
    } else if idx == 17 {
        Symbol::Blank
    } else if idx == 18 {
        Symbol::SingleBar
    } else if idx == 19 {
        Symbol::Blank
    } else if idx == 20 {
        Symbol::SingleBar
    } else {
        Symbol::Blank
    }
}

/// The reel-value table entry of reel `row` at position `idx`.
pub open spec fn reel_table_spec(row: int, idx: int) -> u8 {
    if row == 0 {
        reel_row0(idx)
    } else if row == 1 {
        reel_row1(idx)
    } else {
        reel_row2(idx)
    }
}

/// The fixed base table index of each reel.
pub open spec fn base_spec(i: int) -> int {
    if i == 0 {
        40
    } else if i == 1 {
        10
    } else {
        24
    }
}

/// The value of reel `i`: cursor outputs are applied in reverse order of
/// generation, the most recent output turning the first reel.
pub open spec fn reel_spec(rs: Seq<u8>, i: int) -> u8 {
    reel_table_spec(i, (base_spec(i) + rs[2 - i]) % 66)
}

/// All three reel values for the outputs `rs`.
pub open spec fn reels_spec(rs: Seq<u8>) -> Seq<u8> {
    Seq::new(3, |i: int| reel_spec(rs, i))
}

/// The symbols shown by the given reel values.
pub open spec fn symbols_spec(reels: Seq<u8>) -> Seq<Symbol> {
    Seq::new(3, |i: int| symbol_strip(reels[i] as int % 44 / 2))
}

/// The prize factor paid for a line of three symbols.
pub open spec fn prize_factor_spec(a: Symbol, b: Symbol, c: Symbol) -> u32 {
    if a == Symbol::BlackSeven && b == Symbol::BlackSeven && c == Symbol::BlackSeven {
        1000
    } else if a.spec_is_seven() && b.spec_is_seven() && c.spec_is_seven() {
        100
    } else if a == Symbol::TripleBar && b == Symbol::TripleBar && c == Symbol::TripleBar {
        50
    } else if a == Symbol::DoubleBar && b == Symbol::DoubleBar && c == Symbol::DoubleBar {
        20
    } else if a.spec_is_bar() && b.spec_is_bar() && c.spec_is_bar() {
        10
    } else {
        0
    }
}

/// No line pays more than 1000 times the bet unit.
pub proof fn lemma_prize_factor_bound(a: Symbol, b: Symbol, c: Symbol)
    ensures
        prize_factor_spec(a, b, c) <= 1000,
{
}

/// The reel values of payline `bias` (each payline reads the strip a fixed
/// offset away from the centre row).
pub open spec fn biased_reels(reels: Seq<u8>, bias: int) -> Seq<u8> {
    Seq::new(3, |i: int| ((reels[i] + bias) % 256) as u8)
}

/// The prize factor of one payline for the given centre-row reel values.
pub open spec fn line_factor_of_reels(reels: Seq<u8>, bias: int) -> u32 {
    let syms = symbols_spec(biased_reels(reels, bias));
    prize_factor_spec(syms[0], syms[1], syms[2])
}

/// The prize factor of one payline for the outputs `rs`.
pub open spec fn line_factor_spec(rs: Seq<u8>, bias: int) -> u32 {
    line_factor_of_reels(reels_spec(rs), bias)
}

/// The three payline factors for the outputs `rs`: (centre row, top row,
/// bottom row), the same order the paylines are bet on.
#[verifier::opaque]
pub open spec fn play_spec(rs: Seq<u8>) -> Seq<u32> {
    seq![line_factor_spec(rs, 2), line_factor_spec(rs, 0), line_factor_spec(rs, 4)]
}


/// Each payline factor of a play is bounded by the largest table prize.
pub proof fn lemma_play_spec_bounds(rs: Seq<u8>)
    ensures
        play_spec(rs).len() == 3,
        forall|i: int| 0 <= i < 3 ==> (#[trigger] play_spec(rs)[i]) <= 1000,
{
    reveal(play_spec);
    assert forall|i: int| 0 <= i < 3 implies (#[trigger] play_spec(rs)[i]) <= 1000 by {
        let f = play_spec(rs);
        if i == 0 {
            let syms = symbols_spec(biased_reels(reels_spec(rs), 2));
            lemma_prize_factor_bound(syms[0], syms[1], syms[2]);
            assert(f[0] == prize_factor_spec(syms[0], syms[1], syms[2]));
        } else if i == 1 {
            let syms = symbols_spec(biased_reels(reels_spec(rs), 0));
            lemma_prize_factor_bound(syms[0], syms[1], syms[2]);
            assert(f[1] == prize_factor_spec(syms[0], syms[1], syms[2]));
        } else {
            let syms = symbols_spec(biased_reels(reels_spec(rs), 4));
            lemma_prize_factor_bound(syms[0], syms[1], syms[2]);
            assert(f[2] == prize_factor_spec(syms[0], syms[1], syms[2]));
        }
    }
}

/// The result of one "Magnificent Sevens" play.
#[derive(Clone, Copy, Debug, Eq, PartialEq)]
pub struct BanditMsPrize {
    factors: [u32; 3],
}

impl BanditMsPrize {
    /// The per-payline prize factors the play resolved to.
    pub closed spec fn spec_factors(self) -> Seq<u32> {
        self.factors@
    }

    fn new(factors: [u32; 3]) -> (r: Self)
        ensures
            r.spec_factors() == factors@,
    {
        Self { factors }
    }

    /// The per-payline factors: (centre row, top row, bottom row), the same
    /// order the paylines are bet on.
    pub fn factors(self) -> (r: [u32; 3])
        ensures
            r@ == self.spec_factors(),
    {
        self.factors
    }

    /// The amount won: the bet unit times each of the first `bet_count`
    /// payline factors, summed.
    pub fn calc(self, bet_unit: u32, bet_count: usize) -> (r: u32)
        requires
            1 <= bet_count <= 3,
            calc_spec(self.spec_factors(), bet_unit as int, bet_count as int) <= u32::MAX,
        ensures
            r == calc_spec(self.spec_factors(), bet_unit as int, bet_count as int),
    {
        let mut total: u32 = 0;
        let mut i: usize = 0;
        while i < bet_count
            invariant
                i <= bet_count <= 3,
                total == calc_spec(self.spec_factors(), bet_unit as int, i as int),
                calc_spec(self.spec_factors(), bet_unit as int, bet_count as int) <= u32::MAX,
                self.spec_factors().len() == 3,
            decreases bet_count - i,
        {
            proof {
                lemma_calc_spec_mono(self.spec_factors(), bet_unit as int, i + 1, bet_count as int);
                lemma_calc_spec_mono(self.spec_factors(), bet_unit as int, i as int, i + 1);
            }
            total = total + bet_unit * self.factors[i];
            i = i + 1;
        }
        total
    }
}

/// Plays "Magnificent Sevens" with the given cursor outputs.
pub fn bandit_ms_play(rs: [u8; 3]) -> (r: BanditMsPrize)
    ensures
        r.spec_factors() == play_spec(rs@),
{
    let reels = randoms_to_reels(rs);
    let f0 = line_factor(reels, 2);
    let f1 = line_factor(reels, 0);
    let f2 = line_factor(reels, 4);
    let factors: [u32; 3] = [f0, f1, f2];
    proof {
        reveal(play_spec);
        assert(reels@ == reels_spec(rs@));
        assert(factors@ =~= play_spec(rs@));
    }
    BanditMsPrize::new(factors)
}

/// The prize factor of the payline `bias` away from the centre row.
fn line_factor(reels: [u8; 3], bias: u8) -> (r: u32)
    ensures
        r == line_factor_of_reels(reels@, bias as int),
{
    let b0 = ((reels[0] as u16 + bias as u16) % 256) as u8;
    let b1 = ((reels[1] as u16 + bias as u16) % 256) as u8;
    let b2 = ((reels[2] as u16 + bias as u16) % 256) as u8;
    let shifted: [u8; 3] = [b0, b1, b2];
    proof {
        assert(shifted@ =~= biased_reels(reels@, bias as int));
    }
    let syms = reels_to_symbols(shifted);
    prize_factor(syms)
}

/// Turns three cursor outputs into the three centre-row reel values.
fn randoms_to_reels(rs: [u8; 3]) -> (r: [u8; 3])
    ensures
        r@ == reels_spec(rs@),
{
    let r0 = reel_value_at(0, (40 + rs[2] as usize) % 66);
    let r1 = reel_value_at(1, (10 + rs[1] as usize) % 66);
    let r2 = reel_value_at(2, (24 + rs[0] as usize) % 66);
    let r: [u8; 3] = [r0, r1, r2];
    proof {
        assert(r@ =~= reels_spec(rs@));
    }
    r
}

/// Reads the symbol each reel value points at.
fn reels_to_symbols(reels: [u8; 3]) -> (r: [Symbol; 3])
    ensures
        r@ == symbols_spec(reels@),
{
    let s0 = symbol_at((reels[0] % 44 / 2) as usize);
    let s1 = symbol_at((reels[1] % 44 / 2) as usize);
    let s2 = symbol_at((reels[2] % 44 / 2) as usize);
    let r: [Symbol; 3] = [s0, s1, s2];
    proof {
        assert(r@ =~= symbols_spec(reels@));
    }
    r
}

/// The prize factor paid for a line of three symbols.
fn prize_factor(syms: [Symbol; 3]) -> (r: u32)
    ensures
        r == prize_factor_spec(syms@[0], syms@[1], syms@[2]),
{
    if syms[0] == Symbol::BlackSeven && syms[1] == Symbol::BlackSeven && syms[2]
        == Symbol::BlackSeven {
        1000
    } else if syms[0].is_seven() && syms[1].is_seven() && syms[2].is_seven() {
        100
    } else if syms[0] == Symbol::TripleBar && syms[1] == Symbol::TripleBar && syms[2]
        == Symbol::TripleBar {
        50
    } else if syms[0] == Symbol::DoubleBar && syms[1] == Symbol::DoubleBar && syms[2]
        == Symbol::DoubleBar {
        20
    } else if syms[0].is_bar() && syms[1].is_bar() && syms[2].is_bar() {
        10
    } else {
        0
    }
}

/// Looks the reel-value table of reel `row` up at position `idx`.
fn reel_value_at(row: usize, idx: usize) -> (r: u8)
    requires
        row < 3,
        idx < 66,
    ensures
        r == reel_table_spec(row as int, idx as int),
{
    proof {
        reveal(reel_row0);
        reveal(reel_row1);
        reveal(reel_row2);
    }
    let t: [u8; 66] = if row == 0 {
        [
            0x00,
            0x02,
            0x04,
            0x06,
            0x08,
            0x0A,
            0x0C,
            0x0E,
            0x10,
            0x12,
            0x14,
            0x16,
            0x18,
            0x1A,
            0x1C,
            0x1E,
            0x20,
            0x22,
            0x24,
            0x26,
            0x28,
            0x2A,
            0x00,
            0x02,
            0x04,
            0x06,
            0x08,
            0x0A,
            0x1C,
            0x1E,
            0x18,
            0x1A,
            0x0C,
            0x0E,
            0x08,
            0x0A,
            0x0C,
            0x0E,
            0x08,
            0x0A,
            0x0C,
            0x0E,
            0x08,
            0x0A,
            0x0C,
            0x0E,
            0x08,
            0x0A,
            0x0C,
            0x0E,
            0x10,
            0x12,
            0x14,
            0x16,
            0x04,
            0x06,
            0x10,
            0x12,
            0x14,
            0x16,
            0x20,
            0x22,
            0x24,
            0x26,
            0x28,
            0x2A,
        ]
    } else if row == 1 {
        [
            0x00,
            0x02,
            0x04,
            0x06,
            0x08,
            0x0A,
            0x0C,
            0x0E,
            0x10,
            0x12,
            0x14,
            0x16,
            0x18,
            0x1A,
            0x1C,
            0x1E,
            0x20,
            0x22,
            0x24,
            0x26,
            0x28,
            0x2A,
            0x00,
            0x02,
            0x04,
            0x06,
            0x08,
            0x0A,
            0x1C,
            0x1E,
            0x18,
            0x1A,
            0x1C,
            0x1E,
            0x18,
            0x1A,
            0x1C,
            0x1E,
            0x18,
            0x0A,
            0x0C,
            0x0E,
            0x08,
            0x0A,
            0x0C,
            0x0E,
            0x08,
            0x0A,
            0x0C,
            0x0E,
            0x10,
            0x12,
            0x14,
            0x16,
            0x04,
            0x06,
            0x10,
            0x12,
            0x24,
            0x26,
            0x24,
            0x26,
            0x24,
            0x26,
            0x28,
            0x2A,
        ]
    } else {
        [
            0x00,
            0x02,
            0x04,
            0x06,
            0x08,
            0x0A,
            0x0C,
            0x0E,
            0x10,
            0x12,
            0x14,
            0x16,
            0x18,
            0x1A,
            0x1C,
            0x1E,
            0x20,
            0x22,
            0x24,
            0x26,
            0x28,
            0x2A,
            0x00,
            0x02,
            0x04,
            0x06,
            0x08,
            0x0A,
            0x1C,
            0x1E,
            0x18,
            0x1A,
            0x1C,
            0x1E,
            0x18,
            0x1A,
            0x0C,
            0x0E,
            0x08,
            0x0A,
            0x0C,
            0x0E,
            0x08,
            0x0A,
            0x0C,
            0x0E,
            0x08,
            0x0A,
            0x0C,
            0x0E,
            0x10,
            0x12,
            0x14,
            0x16,
            0x04,
            0x06,
            0x10,
            0x12,
            0x24,
            0x26,
            0x14,
            0x16,
            0x20,
            0x22,
            0x28,
            0x2A,
        ]
    };
    t[idx]
}

/// Looks the symbol strip up at position `idx`.
fn symbol_at(idx: usize) -> (r: Symbol)
    requires
        idx < 22,
    ensures
        r == symbol_strip(idx as int),
{
    proof {
        reveal(symbol_strip);
    }
    let t: [Symbol; 22] = 
        [
            Symbol::BlackSeven,
            Symbol::Blank,
            Symbol::DoubleBar,
            Symbol::Blank,
            Symbol::TripleBar,
            Symbol::Blank,
            Symbol::RedSeven,
            Symbol::Blank,
            Symbol::TripleBar,
            Symbol::Blank,
            Symbol::SingleBar,
            Symbol::Blank,
            Symbol::DoubleBar,
            Symbol::Blank,
            Symbol::RedSeven,
            Symbol::Blank,
            Symbol::DoubleBar,
            Symbol::Blank,
            Symbol::SingleBar,
            Symbol::Blank,
            Symbol::SingleBar,
            Symbol::Blank,
        ];
    t[idx]
}

} // verus!
