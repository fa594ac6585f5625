//! The slot machine "Fountains of Fortune": four reels read through two
//! shared index tables, one payline, and a prize classification built from
//! symbol counts.

use vstd::prelude::*;

verus! {

/// The result of one "Fountains of Fortune" play.
#[derive(Clone, Copy, Debug, Eq, PartialEq, Structural)]
pub enum BanditFofPrize {
    Null,
    Normal { rank: usize },
    AllGreenSeven,
    AllBlackSeven,
}

#[derive(Clone, Copy, Debug, Eq, PartialEq, Structural)]
pub enum Symbol {
    Null,
    Cherry,
    RedSeven,
    GreenSeven,
    BlackSeven,
}

impl Symbol {
    /// Whether the symbol is one of the sevens.
    pub open spec fn spec_is_seven(self) -> bool {
        self == Symbol::RedSeven || self == Symbol::GreenSeven || self == Symbol::BlackSeven
    }

    pub fn is_seven(self) -> (r: bool)
        ensures
            r == self.spec_is_seven(),
    {
        match self {
            Symbol::RedSeven | Symbol::GreenSeven | Symbol::BlackSeven => true,
            _ => false,
        }
    }
}

/// The first reel-value index table.
#[verifier::opaque]
pub open spec fn reel_row0(idx: int) -> u8 {
    if idx == 0 {
        0x00
    } else if idx == 1 {
        0x01
    } else if idx == 2 {
        0x01
    } else if idx == 3 {
        0x01
    } else if idx == 4 {
        0x01
    } else if idx == 5 {
        0x02
    } else if idx == 6 {
        0x02
    } else if idx == 7 {
        0x03
    } else if idx == 8 {
        0x03
    } else if idx == 9 {
        0x03
    } else if idx == 10 {
        0x03
    } else if idx == 11 {
        0x04
    } else if idx == 12 {
        0x04
    } else if idx == 13 {
        0x05
    } else if idx == 14 {
        0x05
    } else if idx == 15 {
        0x05
    } else if idx == 16 {
        0x05
    } else if idx == 17 {
        0x06
    } else if idx == 18 {
        0x06
    } else if idx == 19 {
        0x07
    } else if idx == 20 {
        0x07
    } else if idx == 21 {
        0x07
    } else if idx == 22 {
        0x07
    } else if idx == 23 {
        0x08
    } else if idx == 24 {
        0x08
    } else if idx == 25 {
        0x09
    } else if idx == 26 {
        0x09
    } else if idx == 27 {
        0x09
    } else if idx == 28 {
        0x09
    } else if idx == 29 {
        0x0A
    } else if idx == 30 {
        0x0A
    } else if idx == 31 {
        0x0B
    } else if idx == 32 {
        0x0B
    } else if idx == 33 {
        0x0B
    } else if idx == 34 {
        0x0B
    } else if idx == 35 {
        0x0C
    } else if idx == 36 {
        0x0C
    } else if idx == 37 {
        0x0D
    } else if idx == 38 {
        0x0D
    } else if idx == 39 {
        0x0D
    } else if idx == 40 {
        0x0D
    } else if idx == 41 {
        0x0E
    } else if idx == 42 {
        0x0E
    } else if idx == 43 {
        0x0F
    } else if idx == 44 {
        0x0F
    } else if idx == 45 {
        0x0F
    } else if idx == 46 {
        0x0F
    } else if idx == 47 {
        0x10
    } else if idx == 48 {
        0x10
    } else if idx == 49 {
        0x11
    } else if idx == 50 {
        0x11
    } else if idx == 51 {
        0x11
    } else if idx == 52 {
        0x11
    } else if idx == 53 {
        0x12
    } else if idx == 54 {
        0x12
    } else if idx == 55 {
        0x13
    } else if idx == 56 {
        0x13
    } else if idx == 57 {
        0x13
    } else if idx == 58 {
        0x13
    } else if idx == 59 {
        0x14
    } else if idx == 60 {
        0x14
    } else if idx == 61 {
        0x15
    } else if idx == 62 {
        0x15
    } else {
        0x15
    }
}

/// The second reel-value index table.
#[verifier::opaque]
pub open spec fn reel_row1(idx: int) -> u8 {
    if idx == 0 {
        0x00
    } else if idx == 1 {
        0x01
    } else if idx == 2 {
        0x01
    } else if idx == 3 {
        0x01
    } else if idx == 4 {
        0x01
    } else if idx == 5 {
        0x02
    } else if idx == 6 {
        0x02
    } else if idx == 7 {
        0x02
    } else if idx == 8 {
        0x03
    } else if idx == 9 {
        0x03
    } else if idx == 10 {
        0x03
    } else if idx == 11 {
        0x04
    } else if idx == 12 {
        0x04
    } else if idx == 13 {
        0x05
    } else if idx == 14 {
        0x05
    } else if idx == 15 {
        0x05
    } else if idx == 16 {
        0x05
    } else if idx == 17 {
        0x06
    } else if idx == 18 {
        0x06
    } else if idx == 19 {
        0x07
    } else if idx == 20 {
        0x07
    } else if idx == 21 {
        0x07
    } else if idx == 22 {
        0x07
    } else if idx == 23 {
        0x08
    } else if idx == 24 {
        0x08
    } else if idx == 25 {
        0x09
    } else if idx == 26 {
        0x09
    } else if idx == 27 {
        0x09
    } else if idx == 28 {
        0x09
    } else if idx == 29 {
        0x0A
    } else if idx == 30 {
        0x0A
    } else if idx == 31 {
        0x0B
    } else if idx == 32 {
        0x0B
    } else if idx == 33 {
        0x0B
    } else if idx == 34 {
        0x0B
    } else if idx == 35 {
        0x0C
    } else if idx == 36 {
        0x0C
    } else if idx == 37 {
        0x0D
    } else if idx == 38 {
        0x0D
    } else if idx == 39 {
        0x0D
    } else if idx == 40 {
        0x0D
    } else if idx == 41 {
        0x0E
    } else if idx == 42 {
        0x0E
    } else if idx == 43 {
        0x0F
    } else if idx == 44 {
        0x0F
    } else if idx == 45 {
        0x0F
    } else if idx == 46 {
        0x0F
    } else if idx == 47 {
        0x10
    } else if idx == 48 {
        0x10
    } else if idx == 49 {
        0x11
    } else if idx == 50 {
        0x11
    } else if idx == 51 {
        0x11
    } else if idx == 52 {
        0x11
    } else if idx == 53 {
        0x12
    } else if idx == 54 {
        0x12
    } else if idx == 55 {
        0x13
    } else if idx == 56 {
        0x13
    } else if idx == 57 {
        0x13
    } else if idx == 58 {
        0x13
    } else if idx == 59 {
        0x14
    } else if idx == 60 {
        0x14
    } else if idx == 61 {
        0x15
    } else if idx == 62 {
        0x15
    } else {
        0x15
    }
}

/// The symbol strip read by the outer reels.
#[verifier::opaque]
pub open spec fn symbol_strip0(idx: int) -> Symbol {
    if idx == 0 {
        Symbol::BlackSeven
    } else if idx == 1 {
        Symbol::GreenSeven
    } else if idx == 2 {
        Symbol::GreenSeven
    } else if idx == 3 {
        Symbol::GreenSeven
    } else if idx == 4 {
        Symbol::RedSeven
    } else if idx == 5 {
        Symbol::GreenSeven
    } else if idx == 6 {
        Symbol::GreenSeven
    } else if idx == 7 {
        Symbol::GreenSeven
    } else if idx == 8 {
        Symbol::Cherry
    } else if idx == 9 {
        Symbol::GreenSeven
    } else {
        Symbol::GreenSeven
    }
}

/// The symbol strip read by the inner reels.
#[verifier::opaque]
pub open spec fn symbol_strip1(idx: int) -> Symbol {
    if idx == 0 {
        Symbol::BlackSeven
    } else if idx == 1 {
        Symbol::RedSeven
    } else if idx == 2 {
        Symbol::RedSeven
    } else if idx == 3 {
        Symbol::RedSeven
    } else if idx == 4 {
        Symbol::GreenSeven
    } else if idx == 5 {
        Symbol::RedSeven
    } else if idx == 6 {
        Symbol::RedSeven
    } else if idx == 7 {
        Symbol::RedSeven
    } else if idx == 8 {
        Symbol::Cherry
    } else if idx == 9 {
        Symbol::RedSeven
    } else {
        Symbol::RedSeven
    }
}

/// Which of the two tables reel `i` reads: the two outer reels share one,
/// the two inner reels the other.
pub open spec fn table_choice(i: int) -> int {
    if i == 1 || i == 2 {
        1
    } else {
        0
    }
}

/// The reel-value table entry of table `j` at position `idx`.
pub open spec fn reel_table_spec(j: int, idx: int) -> u8 {
    if j == 0 {
        reel_row0(idx)
    } else {
        reel_row1(idx)
    }
}

/// The symbol-strip entry of table `j` at position `idx`.
pub open spec fn symbol_table_spec(j: int, idx: int) -> Symbol {
    if j == 0 {
        symbol_strip0(idx)
    } else {
        symbol_strip1(idx)
    }
}

/// The fixed base table index of each reel.
pub open spec fn base_spec(i: int) -> int {
    if i == 0 {
        18
    } else if i == 1 {
        10
    } else if i == 2 {
        2
    } else {
        16
    }
}

/// The value of reel `i`: cursor outputs are applied in reverse order of
/// generation, the most recent output turning the first reel.
pub open spec fn reel_spec(rs: Seq<u8>, i: int) -> u8 {
    reel_table_spec(table_choice(i), (base_spec(i) + rs[3 - i]) % 64)
}

/// All four reel values for the outputs `rs`.
pub open spec fn reels_spec(rs: Seq<u8>) -> Seq<u8> {
    Seq::new(4, |i: int| reel_spec(rs, i))
}

/// The reel values as the payline reads them, two positions on.
pub open spec fn plus2_spec(reels: Seq<u8>) -> Seq<u8> {
    Seq::new(reels.len(), |i: int| ((reels[i] + 2) % 256) as u8)
}

/// The symbols shown by the given reel values: odd values sit between two
/// symbols and show none.
pub open spec fn symbols_spec(reels: Seq<u8>) -> Seq<Symbol> {
    Seq::new(4, |i: int|
        if reels[i] % 2 == 0 {
            symbol_table_spec(table_choice(i), reels[i] as int % 22 / 2)
        } else {
            Symbol::Null
        })
}

/// How many of the four symbols equal `t`.
pub open spec fn count4(syms: Seq<Symbol>, t: Symbol) -> int {
    (if syms[0] == t { 1int } else { 0int }) + (if syms[1] == t { 1int } else { 0int })
        + (if syms[2] == t { 1int } else { 0int }) + (if syms[3] == t { 1int } else { 0int })
}

/// How many of the four symbols are sevens of any colour.
pub open spec fn count4_seven(syms: Seq<Symbol>) -> int {
    (if syms[0].spec_is_seven() { 1int } else { 0int })
        + (if syms[1].spec_is_seven() { 1int } else { 0int })
        + (if syms[2].spec_is_seven() { 1int } else { 0int })
        + (if syms[3].spec_is_seven() { 1int } else { 0int })
}

/// The prize a line of four symbols is classified as: black sevens first,
/// then green, then red, then mixed sevens, then cherries.
pub open spec fn calc_prize_spec(syms: Seq<Symbol>) -> BanditFofPrize {
    let black = count4(syms, Symbol::BlackSeven);
    let green = count4(syms, Symbol::GreenSeven);
    let red = count4(syms, Symbol::RedSeven);
    let seven = count4_seven(syms);
    let cherry = count4(syms, Symbol::Cherry);
    if black == 4 {
        BanditFofPrize::AllBlackSeven
    } else if black == 3 {
        BanditFofPrize::Normal { rank: 5 }
    } else if green == 4 {
        BanditFofPrize::AllGreenSeven
    } else if green == 3 {
        BanditFofPrize::Normal { rank: 4 }
    } else if red == 4 {
        BanditFofPrize::Normal { rank: 5 }
    } else if red == 3 {
        BanditFofPrize::Normal { rank: 3 }
    } else if seven == 4 {
        BanditFofPrize::Normal { rank: 3 }
    } else if seven == 3 {
        BanditFofPrize::Normal { rank: 1 }
    } else if cherry == 4 {
        BanditFofPrize::Normal { rank: 4 }
    } else if cherry == 3 {
        BanditFofPrize::Normal { rank: 2 }
    } else if cherry == 2 {
        BanditFofPrize::Normal { rank: 1 }
    } else if cherry == 1 {
        BanditFofPrize::Normal { rank: 0 }
    } else {
        BanditFofPrize::Null
    }
}

/// The whole oracle: outputs to reels to symbols to prize.
#[verifier::opaque]
pub open spec fn play_spec(rs: Seq<u8>) -> BanditFofPrize {
    calc_prize_spec(symbols_spec(plus2_spec(reels_spec(rs))))
}

/// The payout factor of a normal prize of rank `rank` at `bet_count` coins.
pub open spec fn factor_spec(rank: int, bet_count: int) -> u32 {
    if rank == 0 {
        if bet_count == 1 { 2 } else if bet_count == 2 { 4 } else { 6 }
    } else if rank == 1 {
        if bet_count == 1 { 5 } else if bet_count == 2 { 10 } else { 15 }
    } else if rank == 2 {
        if bet_count == 1 { 10 } else if bet_count == 2 { 20 } else { 30 }
    } else if rank == 3 {
        if bet_count == 1 { 10 } else if bet_count == 2 { 20 } else { 30 }
    } else if rank == 4 {
        if bet_count == 1 { 20 } else if bet_count == 2 { 40 } else { 60 }
    } else if rank == 5 {
        if bet_count == 1 { 100 } else if bet_count == 2 { 200 } else { 300 }
    } else if rank == 6 {
        if bet_count == 1 { 200 } else if bet_count == 2 { 400 } else { 0 }
    } else if rank == 7 {
        if bet_count == 1 { 2000 } else if bet_count == 2 { 5000 } else { 0 }
    } else {
        if bet_count == 1 { 100 } else if bet_count == 2 { 200 } else { 300 }
    }
}

/// The amount a prize pays at a given bet unit and coin count. Betting all
/// three coins on four green or four black sevens pays the jackpot's
/// minimum amount instead of a multiple of the unit (the machine's jackpot
/// grows slowly with time; the minimum is what a fresh machine pays).
pub open spec fn calc_spec(prize: BanditFofPrize, bet_unit: int, bet_count: int) -> int {
    match prize {
        BanditFofPrize::Null => 0,
        BanditFofPrize::Normal { rank } => bet_unit * factor_spec(rank as int, bet_count),
        BanditFofPrize::AllGreenSeven => if bet_count == 3 {
            750
        } else {
            bet_unit * (if bet_count == 1 { 200int } else { 400int })
        },
        BanditFofPrize::AllBlackSeven => if bet_count == 3 {
            100000
        } else {
            bet_unit * (if bet_count == 1 { 2000int } else { 5000int })
        },
    }
}

impl BanditFofPrize {
    /// A normal prize's rank indexes the nine-row factor table.
    pub open spec fn wf(self) -> bool {
        match self {
            BanditFofPrize::Normal { rank } => rank < 9,
            _ => true,
        }
    }

    /// The amount the prize pays: see `calc_spec`.
    pub fn calc(self, bet_unit: u32, bet_count: usize) -> (r: u32)
        requires
            self.wf(),
            1 <= bet_count <= 3,
            calc_spec(self, bet_unit as int, bet_count as int) <= u32::MAX,
        ensures
            r == calc_spec(self, bet_unit as int, bet_count as int),
    {
        match self {
            BanditFofPrize::Null => 0,
            BanditFofPrize::Normal { rank } => {
                let factor = factor_at(rank, bet_count - 1);
                bet_unit * factor
            },
            BanditFofPrize::AllGreenSeven => {
                if bet_count == 3 {
                    750
                } else if bet_count == 1 {
                    bet_unit * 200
                } else {
                    bet_unit * 400
                }
            },
            BanditFofPrize::AllBlackSeven => {
                if bet_count == 3 {
                    100000
                } else if bet_count == 1 {
                    bet_unit * 2000
                } else {
                    bet_unit * 5000
                }
            },
        }
    }
}

/// Plays "Fountains of Fortune" with the given cursor outputs.
pub fn bandit_fof_play(rs: [u8; 4]) -> (r: BanditFofPrize)
    ensures
        r == play_spec(rs@),
        r.wf(),
    {
    proof {
        reveal(play_spec);
    }
    let reels = randoms_to_reels(rs);
    let p0 = ((reels[0] as u16 + 2) % 256) as u8;
    let p1 = ((reels[1] as u16 + 2) % 256) as u8;
    let p2 = ((reels[2] as u16 + 2) % 256) as u8;
    let p3 = ((reels[3] as u16 + 2) % 256) as u8;
    let shifted: [u8; 4] = [p0, p1, p2, p3];
    proof {
        assert(shifted@ =~= plus2_spec(reels_spec(rs@)));
    }
    let syms = reels_to_symbols(shifted);
    calc_prize(syms)
}

/// Turns four cursor outputs into the four reel values.
fn randoms_to_reels(rs: [u8; 4]) -> (r: [u8; 4])
    ensures
        r@ == reels_spec(rs@),
{
    let r0 = reel_value_at(0, (18 + rs[3] as usize) % 64);
    let r1 = reel_value_at(1, (10 + rs[2] as usize) % 64);
    let r2 = reel_value_at(1, (2 + rs[1] as usize) % 64);
    let r3 = reel_value_at(0, (16 + rs[0] as usize) % 64);
    let r: [u8; 4] = [r0, r1, r2, r3];
    proof {
        assert(r@ =~= reels_spec(rs@));
    }
    r
}

/// Reads the symbol each reel value points at.
fn reels_to_symbols(reels: [u8; 4]) -> (r: [Symbol; 4])
    ensures
        r@ == symbols_spec(reels@),
{
    let s0 = symbol_value_at(0, reels[0]);
    let s1 = symbol_value_at(1, reels[1]);
    let s2 = symbol_value_at(1, reels[2]);
    let s3 = symbol_value_at(0, reels[3]);
    let r: [Symbol; 4] = [s0, s1, s2, s3];
    proof {
        assert(r@ =~= symbols_spec(reels@));
    }
    r
}

/// The symbol a single reel value shows on table `j`.
fn symbol_value_at(j: usize, reel: u8) -> (r: Symbol)
    requires
        j < 2,
    ensures
        r == (if reel % 2 == 0 {
            symbol_table_spec(j as int, reel as int % 22 / 2)
        } else {
            Symbol::Null
        }),
{
    if reel % 2 == 0 {
        symbol_at(j, (reel % 22 / 2) as usize)
    } else {
        Symbol::Null
    }
}

/// Classifies a line of four symbols: see `calc_prize_spec`.
fn calc_prize(syms: [Symbol; 4]) -> (r: BanditFofPrize)
    ensures
        r == calc_prize_spec(syms@),
        r.wf(),
{
    let mut black: usize = 0;
    let mut green: usize = 0;
    let mut red: usize = 0;
    let mut seven: usize = 0;
    let mut cherry: usize = 0;
    let mut i: usize = 0;
    while i < 4
        invariant
            i <= 4,
            black <= i && green <= i && red <= i && seven <= i && cherry <= i,
            black == count_prefix(syms@, Symbol::BlackSeven, i as int),
            green == count_prefix(syms@, Symbol::GreenSeven, i as int),
            red == count_prefix(syms@, Symbol::RedSeven, i as int),
            cherry == count_prefix(syms@, Symbol::Cherry, i as int),
            seven == count_prefix_seven(syms@, i as int),
        decreases 4 - i,
    {
        let s = syms[i];
        if s == Symbol::BlackSeven {
            black = black + 1;
        }
        if s == Symbol::GreenSeven {
            green = green + 1;
        }
        if s == Symbol::RedSeven {
            red = red + 1;
        }
        if s.is_seven() {
            seven = seven + 1;
        }
        if s == Symbol::Cherry {
            cherry = cherry + 1;
        }
        i = i + 1;
    }
    proof {
        reveal_with_fuel(count_prefix, 5);
        reveal_with_fuel(count_prefix_seven, 5);
        assert(count_prefix(syms@, Symbol::BlackSeven, 4) == count4(syms@, Symbol::BlackSeven));
        assert(count_prefix(syms@, Symbol::GreenSeven, 4) == count4(syms@, Symbol::GreenSeven));
        assert(count_prefix(syms@, Symbol::RedSeven, 4) == count4(syms@, Symbol::RedSeven));
        assert(count_prefix(syms@, Symbol::Cherry, 4) == count4(syms@, Symbol::Cherry));
        assert(count_prefix_seven(syms@, 4) == count4_seven(syms@));
    }
    if black == 4 {
        BanditFofPrize::AllBlackSeven
    } else if black == 3 {
        BanditFofPrize::Normal { rank: 5 }
    } else if green == 4 {
        BanditFofPrize::AllGreenSeven
    } else if green == 3 {
        BanditFofPrize::Normal { rank: 4 }
    } else if red == 4 {
        BanditFofPrize::Normal { rank: 5 }
    } else if red == 3 {
        BanditFofPrize::Normal { rank: 3 }
    } else if seven == 4 {
        BanditFofPrize::Normal { rank: 3 }
    } else if seven == 3 {
        BanditFofPrize::Normal { rank: 1 }
    } else if cherry == 4 {
        BanditFofPrize::Normal { rank: 4 }
    } else if cherry == 3 {
        BanditFofPrize::Normal { rank: 2 }
    } else if cherry == 2 {
        BanditFofPrize::Normal { rank: 1 }
    } else if cherry == 1 {
        BanditFofPrize::Normal { rank: 0 }
    } else {
        BanditFofPrize::Null
    }
}

/// How many of the first `n` symbols equal `t`.
pub open spec fn count_prefix(syms: Seq<Symbol>, t: Symbol, n: int) -> int
    decreases n,
{
    if n <= 0 {
        0
    } else {
        count_prefix(syms, t, n - 1) + (if syms[n - 1] == t { 1int } else { 0int })
    }
}

/// How many of the first `n` symbols are sevens of any colour.
pub open spec fn count_prefix_seven(syms: Seq<Symbol>, n: int) -> int
    decreases n,
{
    if n <= 0 {
        0
    } else {
        count_prefix_seven(syms, n - 1) + (if syms[n - 1].spec_is_seven() { 1int } else { 0int })
    }
}

/// Looks the payout-factor table up: row `rank`, column `idx`.
fn factor_at(rank: usize, idx: usize) -> (r: u32)
    requires
        rank < 9,
        idx < 3,
    ensures
        r == factor_spec(rank as int, idx as int + 1),
{
    let t: [u32; 27] = [
        2, 4, 6,
        5, 10, 15,
        10, 20, 30,
        10, 20, 30,
        20, 40, 60,
        100, 200, 300,
        200, 400, 0,
        2000, 5000, 0,
        100, 200, 300,
    ];
    t[rank * 3 + idx]
}

/// Looks the reel-value table `j` up at position `idx`.
fn reel_value_at(j: usize, idx: usize) -> (r: u8)
    requires
        j < 2,
        idx < 64,
    ensures
        r == reel_table_spec(j as int, idx as int),
{
    proof {
        reveal(reel_row0);
        reveal(reel_row1);
    }
    let t: [u8; 64] = if j == 0 {
        [
            0x00,
            0x01,
            0x01,
            0x01,
            0x01,
            0x02,
            0x02,
            0x03,
            0x03,
            0x03,
            0x03,
            0x04,
            0x04,
            0x05,
            0x05,
            0x05,
            0x05,
            0x06,
            0x06,
            0x07,
            0x07,
            0x07,
            0x07,
            0x08,
            0x08,
            0x09,
            0x09,
            0x09,
            0x09,
            0x0A,
            0x0A,
            0x0B,
            0x0B,
            0x0B,
            0x0B,
            0x0C,
            0x0C,
            0x0D,
            0x0D,
            0x0D,
            0x0D,
            0x0E,
            0x0E,
            0x0F,
            0x0F,
            0x0F,
            0x0F,
            0x10,
            0x10,
            0x11,
            0x11,
            0x11,
            0x11,
            0x12,
            0x12,
            0x13,
            0x13,
            0x13,
            0x13,
            0x14,
            0x14,
            0x15,
            0x15,
            0x15,
        ]
    } else {
        [
            0x00,
            0x01,
            0x01,
            0x01,
            0x01,
            0x02,
            0x02,
            0x02,
            0x03,
            0x03,
            0x03,
            0x04,
            0x04,
            0x05,
            0x05,
            0x05,
            0x05,
            0x06,
            0x06,
            0x07,
            0x07,
            0x07,
            0x07,
            0x08,
            0x08,
            0x09,
            0x09,
            0x09,
            0x09,
            0x0A,
            0x0A,
            0x0B,
            0x0B,
            0x0B,
            0x0B,
            0x0C,
            0x0C,
            0x0D,
            0x0D,
            0x0D,
            0x0D,
            0x0E,
            0x0E,
            0x0F,
            0x0F,
            0x0F,
            0x0F,
            0x10,
            0x10,
            0x11,
            0x11,
            0x11,
            0x11,
            0x12,
            0x12,
            0x13,
            0x13,
            0x13,
            0x13,
            0x14,
            0x14,
            0x15,
            0x15,
            0x15,
        ]
    };
    t[idx]
}

/// Looks the symbol strip `j` up at position `idx`.
fn symbol_at(j: usize, idx: usize) -> (r: Symbol)
    requires
        j < 2,
        idx < 11,
    ensures
        r == symbol_table_spec(j as int, idx as int),
{
    proof {
        reveal(symbol_strip0);
        reveal(symbol_strip1);
    }
    let t: [Symbol; 11] = if j == 0 {
        [
            Symbol::BlackSeven,
            Symbol::GreenSeven,
            Symbol::GreenSeven,
            Symbol::GreenSeven,
            Symbol::RedSeven,
            Symbol::GreenSeven,
            Symbol::GreenSeven,
            Symbol::GreenSeven,
            Symbol::Cherry,
            Symbol::GreenSeven,
            Symbol::GreenSeven,
        ]
    } else {
        [
            Symbol::BlackSeven,
            Symbol::RedSeven,
            Symbol::RedSeven,
            Symbol::RedSeven,
            Symbol::GreenSeven,
            Symbol::RedSeven,
            Symbol::RedSeven,
            Symbol::RedSeven,
            Symbol::Cherry,
            Symbol::RedSeven,
            Symbol::RedSeven,
        ]
    };
    t[idx]
}

} // verus!
