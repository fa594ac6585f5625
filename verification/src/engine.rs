//! The search/state engine: a bankroll coupled to one cursor, abstract
//! moves bounded by what the bankroll affords, an apply/undo pair that
//! mutates the state in place and reverses exactly, and a depth-bounded
//! exhaustive search over (move, cursor position) pairs.

use vstd::prelude::*;

use crate::bandit::calc_spec;
use crate::bandit::fountains_of_fortune as fof;
use crate::bandit::magnicent_sevens as ms;
use crate::bandit::riches_of_rome as ror;
use crate::cursor::Rng;
use crate::cursor::lemma_advance_chain;
use crate::cursor::rng_advance_spec;
use crate::cursor::rng_outputs;
use crate::poker::COST_POKER;
use crate::poker::play_poker;
use crate::poker::poker_income_spec;

verus! {

/// The dollar unit of one "Fountains of Fortune" coin. The five-dollar
/// unit pays no better on anything short of the large jackpot.
pub const BET_UNIT_BANDIT_FOF: u32 = 1;

/// The dollar unit of one "Magnificent Sevens" coin.
pub const BET_UNIT_BANDIT_MS: u32 = 100;

/// The dollar unit of one "Riches of Rome" coin.
pub const BET_UNIT_BANDIT_ROR: u32 = 500;

/// No single move's net income exceeds this: the large jackpot pays
/// 100000, and the widest three-coin line win pays 500 times a factor sum
/// of at most 600.
pub const MOVE_GAIN_CAP: u32 = 300000;

/// No single move's worst-case stake exceeds this: three coins at the
/// largest unit.
pub const MOVE_COST_CAP: u32 = 1500;

/// An abstract move: a move kind with its bankroll-dependent bound, but no
/// cursor position and no resolved outcome.
#[derive(Clone, Copy, Debug, Eq, PartialEq, Structural)]
pub enum Move {
    BanditFof { bet_count_max: usize },
    BanditMs { bet_count_max: usize },
    BanditRor { bet_count_max: usize },
    Poker { rng_len: usize },
}

/// A concrete move: an abstract move resolved to a cursor position and the
/// bet count chosen there.
#[derive(Clone, Copy, Debug, Eq, PartialEq, Structural)]
pub enum ConcreteMove {
    BanditFof { rng_index: u8, bet_count: usize },
    BanditMs { rng_index: u8, bet_count: usize },
    BanditRor { rng_index: u8, bet_count: usize },
    Poker { rng_index: u8, rng_len: usize },
}

/// What one applied move needs to be reversed: the cursor position before
/// the move, the position the move ran at, how many outputs it consumed,
/// and the signed income it added.
#[derive(Clone, Copy, Debug, Eq, PartialEq, Structural)]
pub struct UndoInfo {
    pub rng_index_before: u8,
    pub rng_index: u8,
    pub rng_len: usize,
    pub income: i32,
}

/// A well-formed abstract move: one to three coins, or a poker draw of
/// five to ten outputs.
pub open spec fn move_wf(mv: Move) -> bool {
    match mv {
        Move::BanditFof { bet_count_max } => 1 <= bet_count_max <= 3,
        Move::BanditMs { bet_count_max } => 1 <= bet_count_max <= 3,
        Move::BanditRor { bet_count_max } => 1 <= bet_count_max <= 3,
        Move::Poker { rng_len } => 5 <= rng_len <= 10,
    }
}

/// A well-formed concrete move.
pub open spec fn cmove_wf(cmv: ConcreteMove) -> bool {
    match cmv {
        ConcreteMove::BanditFof { bet_count, .. } => 1 <= bet_count <= 3,
        ConcreteMove::BanditMs { bet_count, .. } => 1 <= bet_count <= 3,
        ConcreteMove::BanditRor { bet_count, .. } => 1 <= bet_count <= 3,
        ConcreteMove::Poker { rng_len, .. } => 5 <= rng_len <= 10,
    }
}

/// The net income (gain less stake) of playing the kind of `mv` at cursor
/// position `rng_index` with `bc` coins; a poker move's income does not
/// depend on `bc`.
pub open spec fn move_income(mv: Move, rng_index: u8, bc: int) -> int {
    match mv {
        Move::BanditFof { .. } => fof::calc_spec(
            fof::play_spec(rng_outputs(rng_index, 4)),
            BET_UNIT_BANDIT_FOF as int,
            bc,
        ) - BET_UNIT_BANDIT_FOF * bc,
        Move::BanditMs { .. } => calc_spec(
            ms::play_spec(rng_outputs(rng_index, 3)),
            BET_UNIT_BANDIT_MS as int,
            bc,
        ) - BET_UNIT_BANDIT_MS * bc,
        Move::BanditRor { .. } => calc_spec(
            ror::play_spec(rng_outputs(rng_index, 3)),
            BET_UNIT_BANDIT_ROR as int,
            bc,
        ) - BET_UNIT_BANDIT_ROR * bc,
        Move::Poker { rng_len } => poker_income_spec(rng_outputs(rng_index, rng_len as nat)),
    }
}


/// Law (oracle determinism and totality): each oracle's outcome is a pure
/// function of its input tuple alone. The exec oracles' contracts pin
/// them to these total spec functions, so two plays of the same oracle on
/// equal tuples resolve identically, and every tuple has a defined
/// outcome.
pub proof fn lemma_oracle_deterministic(rs3: Seq<u8>, other3: Seq<u8>, rs4: Seq<u8>, other4: Seq<u8>)
    requires
        rs3 == other3,
        rs4 == other4,
    ensures
        ror::play_spec(rs3) == ror::play_spec(other3),
        ms::play_spec(rs3) == ms::play_spec(other3),
        fof::play_spec(rs4) == fof::play_spec(other4),
        poker_income_spec(rs3) == poker_income_spec(other3),
{
}

/// The smallest coin count among 1..=m with the largest net income.
pub open spec fn best_bet_spec(mv: Move, rng_index: u8, m: int) -> int
    decreases m,
{
    if m <= 1 {
        1
    } else {
        let b = best_bet_spec(mv, rng_index, m - 1);
        if move_income(mv, rng_index, m) > move_income(mv, rng_index, b) {
            m
        } else {
            b
        }
    }
}

/// Law (bet-choice optimality): the chosen coin count's net income is at
/// least that of every other affordable coin count, and every strictly
/// smaller count earns strictly less — on ties the smallest count wins.
pub proof fn lemma_best_bet_optimal(mv: Move, rng_index: u8, m: int)
    requires
        1 <= m,
    ensures
        1 <= best_bet_spec(mv, rng_index, m) <= m,
        forall|c: int|
            1 <= c <= m ==> #[trigger] move_income(mv, rng_index, c) <= move_income(
                mv,
                rng_index,
                best_bet_spec(mv, rng_index, m),
            ),
        forall|c: int|
            1 <= c < best_bet_spec(mv, rng_index, m) ==> #[trigger] move_income(mv, rng_index, c)
                < move_income(mv, rng_index, best_bet_spec(mv, rng_index, m)),
    decreases m,
{
    if m > 1 {
        lemma_best_bet_optimal(mv, rng_index, m - 1);
    }
}

/// The concrete move an abstract move resolves to at a cursor position.
pub open spec fn cmove_of(mv: Move, rng_index: u8) -> ConcreteMove {
    match mv {
        Move::BanditFof { bet_count_max } => ConcreteMove::BanditFof {
            rng_index,
            bet_count: best_bet_spec(mv, rng_index, bet_count_max as int) as usize,
        },
        Move::BanditMs { bet_count_max } => ConcreteMove::BanditMs {
            rng_index,
            bet_count: best_bet_spec(mv, rng_index, bet_count_max as int) as usize,
        },
        Move::BanditRor { bet_count_max } => ConcreteMove::BanditRor {
            rng_index,
            bet_count: best_bet_spec(mv, rng_index, bet_count_max as int) as usize,
        },
        Move::Poker { rng_len } => ConcreteMove::Poker { rng_index, rng_len },
    }
}

/// The cursor position a concrete move starts at.
pub open spec fn cmove_rng_index(cmv: ConcreteMove) -> u8 {
    match cmv {
        ConcreteMove::BanditFof { rng_index, .. } => rng_index,
        ConcreteMove::BanditMs { rng_index, .. } => rng_index,
        ConcreteMove::BanditRor { rng_index, .. } => rng_index,
        ConcreteMove::Poker { rng_index, .. } => rng_index,
    }
}

/// How many cursor outputs a concrete move consumes.
pub open spec fn cmove_rng_len(cmv: ConcreteMove) -> int {
    match cmv {
        ConcreteMove::BanditFof { .. } => 4,
        ConcreteMove::BanditMs { .. } => 3,
        ConcreteMove::BanditRor { .. } => 3,
        ConcreteMove::Poker { rng_len, .. } => rng_len as int,
    }
}

/// The net income a concrete move adds to the bankroll.
pub open spec fn cmove_income(cmv: ConcreteMove) -> int {
    match cmv {
        ConcreteMove::BanditFof { rng_index, bet_count } => move_income(
            Move::BanditFof { bet_count_max: bet_count },
            rng_index,
            bet_count as int,
        ),
        ConcreteMove::BanditMs { rng_index, bet_count } => move_income(
            Move::BanditMs { bet_count_max: bet_count },
            rng_index,
            bet_count as int,
        ),
        ConcreteMove::BanditRor { rng_index, bet_count } => move_income(
            Move::BanditRor { bet_count_max: bet_count },
            rng_index,
            bet_count as int,
        ),
        ConcreteMove::Poker { rng_index, rng_len } => poker_income_spec(
            rng_outputs(rng_index, rng_len as nat),
        ),
    }
}

/// A well-formed concrete move's income lies between losing the largest
/// stake and the income cap.
pub proof fn lemma_cmove_income_bounds(cmv: ConcreteMove)
    requires
        cmove_wf(cmv),
    ensures
        -(MOVE_COST_CAP as int) <= cmove_income(cmv) <= MOVE_GAIN_CAP,
{
    match cmv {
        ConcreteMove::BanditFof { rng_index, bet_count } => {
            let prize = fof::play_spec(rng_outputs(rng_index, 4));
            lemma_fof_calc_bounds(prize, bet_count as int);
        },
        ConcreteMove::BanditMs { rng_index, bet_count } => {
            let factors = ms::play_spec(rng_outputs(rng_index, 3));
            ms::lemma_play_spec_bounds(rng_outputs(rng_index, 3));
            lemma_line_calc_bounds(factors, BET_UNIT_BANDIT_MS as int, bet_count as int, 1000);
        },
        ConcreteMove::BanditRor { rng_index, bet_count } => {
            let factors = ror::play_spec(rng_outputs(rng_index, 3));
            ror::lemma_play_spec_bounds(rng_outputs(rng_index, 3));
            lemma_line_calc_bounds(factors, BET_UNIT_BANDIT_ROR as int, bet_count as int, 200);
        },
        ConcreteMove::Poker { .. } => {
            reveal(crate::poker::poker_income_spec);
        },
    }
}

/// A "Fountains of Fortune" payout at the one-dollar unit never exceeds
/// the large jackpot's minimum, and is never negative.
proof fn lemma_fof_calc_bounds(prize: fof::BanditFofPrize, bc: int)
    requires
        1 <= bc <= 3,
    ensures
        0 <= fof::calc_spec(prize, BET_UNIT_BANDIT_FOF as int, bc) <= 100000,
{
}

/// A line payout with per-line factors bounded by `bound` never exceeds
/// three lines' worth, and is never negative.
proof fn lemma_line_calc_bounds(factors: Seq<u32>, unit: int, bc: int, bound: int)
    requires
        1 <= bc <= 3,
        factors.len() == 3,
        0 <= unit,
        0 <= bound,
        forall|i: int| 0 <= i < 3 ==> (#[trigger] factors[i]) <= bound,
    ensures
        0 <= calc_spec(factors, unit, bc) <= 3 * (unit * bound),
{
    let t0 = unit * factors[0];
    let t1 = unit * factors[1];
    let t2 = unit * factors[2];
    assert(0 <= t0 <= unit * bound) by (nonlinear_arith)
        requires
            0 <= unit,
            0 <= factors[0] <= bound,
            t0 == unit * factors[0],
    ;
    assert(0 <= t1 <= unit * bound) by (nonlinear_arith)
        requires
            0 <= unit,
            0 <= factors[1] <= bound,
            t1 == unit * factors[1],
    ;
    assert(0 <= t2 <= unit * bound) by (nonlinear_arith)
        requires
            0 <= unit,
            0 <= factors[2] <= bound,
            t2 == unit * factors[2],
    ;
    assert(calc_spec(factors, unit, 0) == 0);
    assert(calc_spec(factors, unit, 1) == t0);
    assert(calc_spec(factors, unit, 2) == t0 + t1);
    assert(calc_spec(factors, unit, 3) == t0 + t1 + t2);
}

/// The specification-level image of a state: its money and its cursor
/// position.
pub struct StateModel {
    pub money: int,
    pub pos: u8,
}

/// The state a concrete move turns `s` into: the income is added and the
/// cursor rests just past the consumed outputs.
pub open spec fn step_spec(s: StateModel, cmv: ConcreteMove) -> StateModel {
    StateModel {
        money: s.money + cmove_income(cmv),
        pos: rng_advance_spec(cmove_rng_index(cmv), cmove_rng_len(cmv)),
    }
}

/// The undo record a move applied to `s` produces.
pub open spec fn undo_record_of(s: StateModel, cmv: ConcreteMove) -> UndoInfo {
    UndoInfo {
        rng_index_before: s.pos,
        rng_index: cmove_rng_index(cmv),
        rng_len: cmove_rng_len(cmv) as usize,
        income: cmove_income(cmv) as i32,
    }
}

/// The state an undo record turns `s` back into.
pub open spec fn undo_spec(s: StateModel, undo: UndoInfo) -> StateModel {
    StateModel { money: s.money - undo.income, pos: undo.rng_index_before }
}

/// Law (apply/undo round trip): applying any well-formed concrete move to
/// any state and then undoing it with the record the application produced
/// restores both the money and the cursor position exactly. Because each
/// pair leaves the state it found, any LIFO nesting of such pairs restores
/// the state as it unwinds.
pub proof fn lemma_apply_undo_round_trip(s: StateModel, cmv: ConcreteMove)
    requires
        cmove_wf(cmv),
    ensures
        undo_spec(step_spec(s, cmv), undo_record_of(s, cmv)) == s,
{
    lemma_cmove_income_bounds(cmv);
}

/// The bankroll state: a money amount coupled to one cursor, mutated in
/// place by applying and undoing moves.
#[derive(Debug)]
pub struct State {
    money: u32,
    rng: Rng,
}

impl State {
    /// The current bankroll.
    pub closed spec fn spec_money(self) -> u32 {
        self.money
    }

    /// The cursor's current position.
    pub closed spec fn spec_rng_index(self) -> u8 {
        self.rng.spec_index()
    }

    /// The state's specification-level image.
    pub open spec fn model(self) -> StateModel {
        StateModel { money: self.spec_money() as int, pos: self.spec_rng_index() }
    }

    pub fn new() -> (r: Self)
        ensures
            r.spec_money() == 1000,
            r.spec_rng_index() == 0,
    {
        Self { money: 1000, rng: Rng::new() }
    }

    /// A state with the given starting bankroll and the cursor at zero.
    pub fn with_money(money: u32) -> (r: Self)
        ensures
            r.spec_money() == money,
            r.spec_rng_index() == 0,
    {
        Self { money, rng: Rng::new() }
    }

    pub fn money(&self) -> (r: u32)
        ensures
            r == self.spec_money(),
    {
        self.money
    }

    /// The cursor's current position.
    pub fn rng_index(&self) -> (r: u8)
        ensures
            r == self.spec_rng_index(),
    {
        self.rng.index()
    }

    /// Whether the bankroll can cover the worst-case stake of `mv`.
    pub open spec fn affordable(mv: Move, money: u32) -> bool {
        match mv {
            Move::BanditFof { bet_count_max } => money >= BET_UNIT_BANDIT_FOF * bet_count_max,
            Move::BanditMs { bet_count_max } => money >= BET_UNIT_BANDIT_MS * bet_count_max,
            Move::BanditRor { bet_count_max } => money >= BET_UNIT_BANDIT_ROR * bet_count_max,
            Move::Poker { .. } => money >= COST_POKER,
        }
    }
}

impl Default for State {
    fn default() -> (r: Self)
        ensures
            r.spec_money() == 1000,
            r.spec_rng_index() == 0,
    {
        Self::new()
    }
}

/// Draws three consecutive cursor outputs.
fn rand_3(rng: &mut Rng) -> (r: [u8; 3])
    ensures
        r@ == rng_outputs(old(rng).spec_index(), 3),
        final(rng).spec_index() == rng_advance_spec(old(rng).spec_index(), 3),
{
    let ghost start = old(rng).spec_index();
    let a = rng.gen();
    proof {
        lemma_advance_chain(start, 0);
    }
    let b = rng.gen();
    proof {
        lemma_advance_chain(start, 1);
    }
    let c = rng.gen();
    proof {
        lemma_advance_chain(start, 2);
    }
    let r: [u8; 3] = [a, b, c];
    proof {
        assert(rng_advance_spec(start, 0) == start);
        assert(r@ =~= rng_outputs(start, 3));
    }
    r
}

/// Draws four consecutive cursor outputs.
fn rand_4(rng: &mut Rng) -> (r: [u8; 4])
    ensures
        r@ == rng_outputs(old(rng).spec_index(), 4),
        final(rng).spec_index() == rng_advance_spec(old(rng).spec_index(), 4),
{
    let ghost start = old(rng).spec_index();
    let a = rng.gen();
    proof {
        lemma_advance_chain(start, 0);
    }
    let b = rng.gen();
    proof {
        lemma_advance_chain(start, 1);
    }
    let c = rng.gen();
    proof {
        lemma_advance_chain(start, 2);
    }
    let d = rng.gen();
    proof {
        lemma_advance_chain(start, 3);
    }
    let r: [u8; 4] = [a, b, c, d];
    proof {
        assert(rng_advance_spec(start, 0) == start);
        assert(r@ =~= rng_outputs(start, 4));
    }
    r
}


/// The largest affordable coin count at `money` for a machine whose coin
/// costs `unit`, capped at three.
pub open spec fn bandit_max_spec(money: u32, unit: u32) -> int {
    if money / unit < 3 {
        (money / unit) as int
    } else {
        3
    }
}

/// The abstract moves affordable at `money`, in fixed order: the three
/// slot machines (each with its largest affordable coin count), then one
/// poker move per draw length, ascending.
pub open spec fn gen_moves_spec(money: u32) -> Seq<Move> {
    let fof_part: Seq<Move> = if money >= BET_UNIT_BANDIT_FOF {
        seq![
            (Move::BanditFof { bet_count_max: bandit_max_spec(money, BET_UNIT_BANDIT_FOF) as usize }),
        ]
    } else {
        Seq::empty()
    };
    let ms_part: Seq<Move> = if money >= BET_UNIT_BANDIT_MS {
        seq![
            (Move::BanditMs { bet_count_max: bandit_max_spec(money, BET_UNIT_BANDIT_MS) as usize }),
        ]
    } else {
        Seq::empty()
    };
    let ror_part: Seq<Move> = if money >= BET_UNIT_BANDIT_ROR {
        seq![
            (Move::BanditRor {
                bet_count_max: bandit_max_spec(money, BET_UNIT_BANDIT_ROR) as usize,
            }),
        ]
    } else {
        Seq::empty()
    };
    let poker_part: Seq<Move> = if money >= COST_POKER {
        seq![
            (Move::Poker { rng_len: 5 }),
            (Move::Poker { rng_len: 6 }),
            (Move::Poker { rng_len: 7 }),
            (Move::Poker { rng_len: 8 }),
            (Move::Poker { rng_len: 9 }),
            (Move::Poker { rng_len: 10 }),
        ]
    } else {
        Seq::empty()
    };
    fof_part + ms_part + ror_part + poker_part
}

/// Every enumerated move is well-formed and affordable at the money it was
/// enumerated for.
pub proof fn lemma_gen_moves_wf(money: u32)
    ensures
        forall|i: int|
            0 <= i < gen_moves_spec(money).len() ==> move_wf(#[trigger] gen_moves_spec(money)[i])
                && State::affordable(gen_moves_spec(money)[i], money),
{
    assert(BET_UNIT_BANDIT_FOF * (money / BET_UNIT_BANDIT_FOF) <= money) by (nonlinear_arith);
    assert(BET_UNIT_BANDIT_MS * (money / BET_UNIT_BANDIT_MS) <= money) by (nonlinear_arith);
    assert(BET_UNIT_BANDIT_ROR * (money / BET_UNIT_BANDIT_ROR) <= money) by (nonlinear_arith);
    assert(money / BET_UNIT_BANDIT_FOF >= 3 ==> money >= 3 * BET_UNIT_BANDIT_FOF)
        by (nonlinear_arith);
    assert(money / BET_UNIT_BANDIT_MS >= 3 ==> money >= 3 * BET_UNIT_BANDIT_MS)
        by (nonlinear_arith);
    assert(money / BET_UNIT_BANDIT_ROR >= 3 ==> money >= 3 * BET_UNIT_BANDIT_ROR)
        by (nonlinear_arith);
    assert(money >= BET_UNIT_BANDIT_FOF ==> money / BET_UNIT_BANDIT_FOF >= 1) by (nonlinear_arith);
    assert(money >= BET_UNIT_BANDIT_MS ==> money / BET_UNIT_BANDIT_MS >= 1) by (nonlinear_arith);
    assert(money >= BET_UNIT_BANDIT_ROR ==> money / BET_UNIT_BANDIT_ROR >= 1) by (nonlinear_arith);
}

impl State {
    /// Enumerates the abstract moves affordable at the current bankroll,
    /// in a fixed, reproducible order.
    pub fn gen_moves(&self) -> (r: Vec<Move>)
        ensures
            r@ == gen_moves_spec(self.spec_money()),
    {
        let money = self.money;
        let mut moves: Vec<Move> = Vec::new();
        if money >= BET_UNIT_BANDIT_FOF {
            let q = money / BET_UNIT_BANDIT_FOF;
            let bcm: u32 = if q < 3 {
                q
            } else {
                3
            };
            moves.push(Move::BanditFof { bet_count_max: bcm as usize });
        }
        if money >= BET_UNIT_BANDIT_MS {
            let q = money / BET_UNIT_BANDIT_MS;
            let bcm: u32 = if q < 3 {
                q
            } else {
                3
            };
            moves.push(Move::BanditMs { bet_count_max: bcm as usize });
        }
        if money >= BET_UNIT_BANDIT_ROR {
            let q = money / BET_UNIT_BANDIT_ROR;
            let bcm: u32 = if q < 3 {
                q
            } else {
                3
            };
            moves.push(Move::BanditRor { bet_count_max: bcm as usize });
        }
        if money >= COST_POKER {
            moves.push(Move::Poker { rng_len: 5 });
            moves.push(Move::Poker { rng_len: 6 });
            moves.push(Move::Poker { rng_len: 7 });
            moves.push(Move::Poker { rng_len: 8 });
            moves.push(Move::Poker { rng_len: 9 });
            moves.push(Move::Poker { rng_len: 10 });
        }
        proof {
            assert(moves@ =~= gen_moves_spec(money));
        }
        moves
    }

    /// Applies an abstract move at the chosen cursor position: repositions
    /// the cursor, consumes the move's outputs, picks the coin count with
    /// the best net income (ties to the smallest), and adds that income to
    /// the bankroll. Returns the resolved concrete move and the record
    /// that reverses the application.
    pub fn do_move(&mut self, mv: Move, rng_index: u8) -> (r: (ConcreteMove, UndoInfo))
        requires
            move_wf(mv),
            State::affordable(mv, old(self).spec_money()),
            old(self).spec_money() + MOVE_GAIN_CAP <= u32::MAX,
        ensures
            r.0 == cmove_of(mv, rng_index),
            cmove_wf(r.0),
            r.1 == undo_record_of(old(self).model(), r.0),
            final(self).model() == step_spec(old(self).model(), r.0),
    {
        match mv {
            Move::BanditFof { bet_count_max } => self.do_move_bandit_fof(bet_count_max, rng_index),
            Move::BanditMs { bet_count_max } => self.do_move_bandit_ms(bet_count_max, rng_index),
            Move::BanditRor { bet_count_max } => self.do_move_bandit_ror(bet_count_max, rng_index),
            Move::Poker { rng_len } => self.do_move_poker(rng_len, rng_index),
        }
    }

    #[verifier::rlimit(100)]
    fn do_move_bandit_fof(&mut self, bet_count_max: usize, rng_index: u8) -> (r: (
        ConcreteMove,
        UndoInfo,
    ))
        requires
            1 <= bet_count_max <= 3,
            old(self).spec_money() >= BET_UNIT_BANDIT_FOF * bet_count_max,
            old(self).spec_money() + MOVE_GAIN_CAP <= u32::MAX,
        ensures
            r.0 == cmove_of((Move::BanditFof { bet_count_max }), rng_index),
            cmove_wf(r.0),
            r.1 == undo_record_of(old(self).model(), r.0),
            final(self).model() == step_spec(old(self).model(), r.0),
    {
        let ghost mv = Move::BanditFof { bet_count_max };
        let rng_index_before = self.rng.index();
        self.rng.set_index(rng_index);
        let rs = rand_4(&mut self.rng);
        let prize = fof::bandit_fof_play(rs);

        let mut bet_count: usize = 1;
        let mut income: i32 = fof_income(prize, 1);
        proof {
            assert(income as int == move_income(mv, rng_index, 1));
            assert(best_bet_spec(mv, rng_index, 1) == 1);
        }
        if bet_count_max >= 2 {
            let inc2 = fof_income(prize, 2);
            proof {
                assert(inc2 as int == move_income(mv, rng_index, 2));
            }
            if inc2 > income {
                bet_count = 2;
                income = inc2;
            }
            proof {
                assert(bet_count as int == best_bet_spec(mv, rng_index, 2));
            }
        }
        if bet_count_max >= 3 {
            let inc3 = fof_income(prize, 3);
            proof {
                assert(inc3 as int == move_income(mv, rng_index, 3));
            }
            if inc3 > income {
                bet_count = 3;
                income = inc3;
            }
            proof {
                assert(bet_count as int == best_bet_spec(mv, rng_index, 3));
            }
        }
        let cmv = ConcreteMove::BanditFof { rng_index, bet_count };
        proof {
            assert(cmv == cmove_of(mv, rng_index));
            assert(cmove_income(cmv) == income as int);
            lemma_cmove_income_bounds(cmv);
        }
        self.money = apply_income(self.money, income);
        let undo = UndoInfo { rng_index_before, rng_index, rng_len: 4, income };
        (cmv, undo)
    }

    #[verifier::rlimit(100)]
    #[verifier::spinoff_prover]
    fn do_move_bandit_ms(&mut self, bet_count_max: usize, rng_index: u8) -> (r: (
        ConcreteMove,
        UndoInfo,
    ))
        requires
            1 <= bet_count_max <= 3,
            old(self).spec_money() >= BET_UNIT_BANDIT_MS * bet_count_max,
            old(self).spec_money() + MOVE_GAIN_CAP <= u32::MAX,
        ensures
            r.0 == cmove_of((Move::BanditMs { bet_count_max }), rng_index),
            cmove_wf(r.0),
            r.1 == undo_record_of(old(self).model(), r.0),
            final(self).model() == step_spec(old(self).model(), r.0),
    {
        let ghost mv = Move::BanditMs { bet_count_max };
        let rng_index_before = self.rng.index();
        self.rng.set_index(rng_index);
        let rs = rand_3(&mut self.rng);
        let prize = ms::bandit_ms_play(rs);
        proof {
            ms::lemma_play_spec_bounds(rs@);
        }

        let mut bet_count: usize = 1;
        let mut income: i32 = ms_income(prize, 1);
        proof {
            assert(income as int == move_income(mv, rng_index, 1));
            assert(best_bet_spec(mv, rng_index, 1) == 1);
        }
        if bet_count_max >= 2 {
            let inc2 = ms_income(prize, 2);
            proof {
                assert(inc2 as int == move_income(mv, rng_index, 2));
            }
            if inc2 > income {
                bet_count = 2;
                income = inc2;
            }
            proof {
                assert(bet_count as int == best_bet_spec(mv, rng_index, 2));
            }
        }
        if bet_count_max >= 3 {
            let inc3 = ms_income(prize, 3);
            proof {
                assert(inc3 as int == move_income(mv, rng_index, 3));
            }
            if inc3 > income {
                bet_count = 3;
                income = inc3;
            }
            proof {
                assert(bet_count as int == best_bet_spec(mv, rng_index, 3));
            }
        }
        let cmv = ConcreteMove::BanditMs { rng_index, bet_count };
        proof {
            assert(cmv == cmove_of(mv, rng_index));
            assert(cmove_income(cmv) == income as int);
            lemma_cmove_income_bounds(cmv);
        }
        self.money = apply_income(self.money, income);
        let undo = UndoInfo { rng_index_before, rng_index, rng_len: 3, income };
        (cmv, undo)
    }

    #[verifier::rlimit(100)]
    #[verifier::spinoff_prover]
    fn do_move_bandit_ror(&mut self, bet_count_max: usize, rng_index: u8) -> (r: (
        ConcreteMove,
        UndoInfo,
    ))
        requires
            1 <= bet_count_max <= 3,
            old(self).spec_money() >= BET_UNIT_BANDIT_ROR * bet_count_max,
            old(self).spec_money() + MOVE_GAIN_CAP <= u32::MAX,
        ensures
            r.0 == cmove_of((Move::BanditRor { bet_count_max }), rng_index),
            cmove_wf(r.0),
            r.1 == undo_record_of(old(self).model(), r.0),
            final(self).model() == step_spec(old(self).model(), r.0),
    {
        let ghost mv = Move::BanditRor { bet_count_max };
        let rng_index_before = self.rng.index();
        self.rng.set_index(rng_index);
        let rs = rand_3(&mut self.rng);
        let prize = ror::bandit_ror_play(rs);
        proof {
            ror::lemma_play_spec_bounds(rs@);
        }

        let mut bet_count: usize = 1;
        let mut income: i32 = ror_income(prize, 1);
        proof {
            assert(income as int == move_income(mv, rng_index, 1));
            assert(best_bet_spec(mv, rng_index, 1) == 1);
        }
        if bet_count_max >= 2 {
            let inc2 = ror_income(prize, 2);
            proof {
                assert(inc2 as int == move_income(mv, rng_index, 2));
            }
            if inc2 > income {
                bet_count = 2;
                income = inc2;
            }
            proof {
                assert(bet_count as int == best_bet_spec(mv, rng_index, 2));
            }
        }
        if bet_count_max >= 3 {
            let inc3 = ror_income(prize, 3);
            proof {
                assert(inc3 as int == move_income(mv, rng_index, 3));
            }
            if inc3 > income {
                bet_count = 3;
                income = inc3;
            }
            proof {
                assert(bet_count as int == best_bet_spec(mv, rng_index, 3));
            }
        }
        let cmv = ConcreteMove::BanditRor { rng_index, bet_count };
        proof {
            assert(cmv == cmove_of(mv, rng_index));
            assert(cmove_income(cmv) == income as int);
            lemma_cmove_income_bounds(cmv);
        }
        self.money = apply_income(self.money, income);
        let undo = UndoInfo { rng_index_before, rng_index, rng_len: 3, income };
        (cmv, undo)
    }

    fn do_move_poker(&mut self, rng_len: usize, rng_index: u8) -> (r: (ConcreteMove, UndoInfo))
        requires
            5 <= rng_len <= 10,
            old(self).spec_money() >= COST_POKER,
            old(self).spec_money() + MOVE_GAIN_CAP <= u32::MAX,
        ensures
            r.0 == cmove_of((Move::Poker { rng_len }), rng_index),
            cmove_wf(r.0),
            r.1 == undo_record_of(old(self).model(), r.0),
            final(self).model() == step_spec(old(self).model(), r.0),
    {
        let rng_index_before = self.rng.index();
        self.rng.set_index(rng_index);
        let income = play_poker(&mut self.rng, rng_len);
        let cmv = ConcreteMove::Poker { rng_index, rng_len };
        proof {
            assert(cmove_income(cmv) == income as int);
            lemma_cmove_income_bounds(cmv);
        }
        self.money = apply_income(self.money, income);
        let undo = UndoInfo { rng_index_before, rng_index, rng_len, income };
        (cmv, undo)
    }

    /// Reverses the most recently applied move: subtracts its income, rolls
    /// the cursor's consumption back, and restores the position the state
    /// held before the move. Must be called in LIFO order with respect to
    /// `do_move`.
    pub fn undo_move(&mut self, undo: UndoInfo)
        requires
            0 <= old(self).spec_money() - undo.income,
            old(self).spec_money() - undo.income <= u32::MAX,
            old(self).spec_rng_index() == rng_advance_spec(undo.rng_index, undo.rng_len as int),
        ensures
            final(self).model() == undo_spec(old(self).model(), undo),
    {
        let m = self.money as i64 - undo.income as i64;
        self.money = m as u32;
        self.rng.undo(undo.rng_index, undo.rng_len);
        self.rng.set_index(undo.rng_index_before);
    }
}

/// Adds a signed income to the bankroll.
fn apply_income(money: u32, income: i32) -> (r: u32)
    requires
        0 <= money + income,
        money + income <= u32::MAX,
    ensures
        r as int == money + income,
{
    let m = money as i64 + income as i64;
    m as u32
}

/// The net income of a "Fountains of Fortune" prize at `bc` coins.
fn fof_income(prize: fof::BanditFofPrize, bc: usize) -> (r: i32)
    requires
        prize.wf(),
        1 <= bc <= 3,
    ensures
        r as int == fof::calc_spec(prize, BET_UNIT_BANDIT_FOF as int, bc as int)
            - BET_UNIT_BANDIT_FOF * bc,
        r as int >= -(BET_UNIT_BANDIT_FOF * bc),
{
    proof {
        lemma_fof_calc_bounds(prize, bc as int);
    }
    let gain = prize.calc(BET_UNIT_BANDIT_FOF, bc);
    let loss = BET_UNIT_BANDIT_FOF * (bc as u32);
    gain as i32 - loss as i32
}

/// The net income of a "Magnificent Sevens" prize at `bc` coins.
fn ms_income(prize: ms::BanditMsPrize, bc: usize) -> (r: i32)
    requires
        1 <= bc <= 3,
        prize.spec_factors().len() == 3,
        forall|i: int| 0 <= i < 3 ==> (#[trigger] prize.spec_factors()[i]) <= 1000,
    ensures
        r as int == calc_spec(prize.spec_factors(), BET_UNIT_BANDIT_MS as int, bc as int)
            - BET_UNIT_BANDIT_MS * bc,
        r as int >= -(BET_UNIT_BANDIT_MS * bc),
{
    proof {
        lemma_line_calc_bounds(prize.spec_factors(), BET_UNIT_BANDIT_MS as int, bc as int, 1000);
    }
    let gain = prize.calc(BET_UNIT_BANDIT_MS, bc);
    let loss = BET_UNIT_BANDIT_MS * (bc as u32);
    gain as i32 - loss as i32
}

/// The net income of a "Riches of Rome" prize at `bc` coins.
fn ror_income(prize: ror::BanditRorPrize, bc: usize) -> (r: i32)
    requires
        1 <= bc <= 3,
        prize.spec_factors().len() == 3,
        forall|i: int| 0 <= i < 3 ==> (#[trigger] prize.spec_factors()[i]) <= 200,
    ensures
        r as int == calc_spec(prize.spec_factors(), BET_UNIT_BANDIT_ROR as int, bc as int)
            - BET_UNIT_BANDIT_ROR * bc,
        r as int >= -(BET_UNIT_BANDIT_ROR * bc),
{
    proof {
        lemma_line_calc_bounds(prize.spec_factors(), BET_UNIT_BANDIT_ROR as int, bc as int, 200);
    }
    let gain = prize.calc(BET_UNIT_BANDIT_ROR, bc);
    let loss = BET_UNIT_BANDIT_ROR * (bc as u32);
    gain as i32 - loss as i32
}


/// The pruning slack at the leaf ply: the large jackpot's minimum amount
/// plus room for its slow growth over time — an overestimate of the gain
/// one move can realistically add toward the target.
pub const LEAF_PRUNE_SLACK: u32 = 100050;

/// The state reached by replaying a sequence of concrete moves in order.
pub open spec fn replay_spec(s: StateModel, cmvs: Seq<ConcreteMove>) -> StateModel
    decreases cmvs.len(),
{
    if cmvs.len() == 0 {
        s
    } else {
        replay_spec(step_spec(s, cmvs[0]), cmvs.skip(1))
    }
}

/// What the search promises of a reported sequence `r`, relative to the
/// state `entry` and move prefix `prefix` it was entered with: `r` extends
/// the prefix by exactly `depth + 1` moves, and replaying the added moves
/// from `entry` reaches a bankroll at or above the target.
pub open spec fn reported_ok(
    entry: StateModel,
    prefix: Seq<ConcreteMove>,
    money_target: u32,
    depth: int,
    r: Seq<ConcreteMove>,
) -> bool {
    &&& r.len() == prefix.len() + depth + 1
    &&& r.take(prefix.len() as int) == prefix
    &&& replay_spec(entry, r.skip(prefix.len() as int)).money >= money_target
}

/// A sequence sound for the subtree below an applied move is sound for
/// the node that applied it.
proof fn lemma_reported_lift(
    entry: StateModel,
    prefix: Seq<ConcreteMove>,
    cmv: ConcreteMove,
    money_target: u32,
    depth: int,
    r: Seq<ConcreteMove>,
)
    requires
        depth >= 1,
        reported_ok(step_spec(entry, cmv), prefix.push(cmv), money_target, depth - 1, r),
    ensures
        reported_ok(entry, prefix, money_target, depth, r),
{
    let p = prefix.len() as int;
    assert(r.take(p + 1) == prefix.push(cmv));
    assert(r.take(p) =~= r.take(p + 1).take(p));
    assert(prefix.push(cmv).take(p) =~= prefix);
    assert(r.skip(p)[0] == r[p]);
    assert(r[p] == r.take(p + 1)[p]);
    assert(r.skip(p).skip(1) =~= r.skip(p + 1));
    assert(r.skip(p).len() == depth + 1);
    assert(replay_spec(entry, r.skip(p)) == replay_spec(
        step_spec(entry, cmv),
        r.skip(p).skip(1),
    ));
}

/// Copies a move sequence.
fn clone_moves(v: &Vec<ConcreteMove>) -> (r: Vec<ConcreteMove>)
    ensures
        r@ == v@,
{
    let mut r: Vec<ConcreteMove> = Vec::new();
    let mut i: usize = 0;
    while i < v.len()
        invariant
            i <= v@.len(),
            r@ == v@.take(i as int),
        decreases v@.len() - i,
    {
        r.push(v[i]);
        proof {
            assert(v@.take(i as int).push(v@[i as int]) =~= v@.take(i as int + 1));
        }
        i = i + 1;
    }
    proof {
        assert(v@.take(v@.len() as int) =~= v@);
    }
    r
}


/// Whether a result list holds the move sequence `s`.
pub open spec fn results_contain(rs: Seq<Vec<ConcreteMove>>, s: Seq<ConcreteMove>) -> bool {
    exists|i: int| 0 <= i < rs.len() && (#[trigger] rs[i])@ == s
}

/// A sequence contained in a list is contained in any extension of it.
proof fn lemma_contain_monotone(
    rs1: Seq<Vec<ConcreteMove>>,
    rs2: Seq<Vec<ConcreteMove>>,
    s: Seq<ConcreteMove>,
)
    requires
        results_contain(rs1, s),
        rs2.len() >= rs1.len(),
        forall|i: int| 0 <= i < rs1.len() ==> (#[trigger] rs2[i]) == rs1[i],
    ensures
        results_contain(rs2, s),
{
    let i = choose|i: int| 0 <= i < rs1.len() && (#[trigger] rs1[i])@ == s;
    assert(rs2[i]@ == s);
}

/// Whether the search entered at `s` with `depth` plies left visits and
/// reports `suffix`: some enumerated move resolves at some position to its
/// first element, and the rest qualifies below that move — at the leaf
/// ply, the entry bankroll must survive the pruning test and the one
/// remaining move must reach the target.
pub open spec fn qualifies(s: StateModel, target: u32, depth: int, suffix: Seq<ConcreteMove>) -> bool
    decreases depth,
{
    if depth < 0 {
        false
    } else {
        &&& suffix.len() == depth + 1
        &&& (exists|mi: int, idx: u8|
            0 <= mi < gen_moves_spec(s.money as u32).len() && suffix[0] == #[trigger] cmove_of(
                gen_moves_spec(s.money as u32)[mi],
                idx,
            ))
        &&& if depth == 0 {
            s.money + LEAF_PRUNE_SLACK >= target && step_spec(s, suffix[0]).money >= target
        } else {
            qualifies(step_spec(s, suffix[0]), target, depth - 1, suffix.skip(1))
        }
    }
}

/// `qualifies`, with the enumeration position `mi` and cursor position
/// `idx` of the first move made explicit.
pub open spec fn qualifies_at(
    s: StateModel,
    target: u32,
    depth: int,
    suffix: Seq<ConcreteMove>,
    mi: int,
    idx: u8,
) -> bool {
    &&& depth >= 0
    &&& suffix.len() == depth + 1
    &&& 0 <= mi < gen_moves_spec(s.money as u32).len()
    &&& suffix[0] == cmove_of(gen_moves_spec(s.money as u32)[mi], idx)
    &&& if depth == 0 {
        s.money + LEAF_PRUNE_SLACK >= target && step_spec(s, suffix[0]).money >= target
    } else {
        qualifies(step_spec(s, suffix[0]), target, depth - 1, suffix.skip(1))
    }
}

/// A qualifying sequence has an explicit witnessing enumeration position
/// and cursor position.
proof fn lemma_qualifies_unfold(s: StateModel, target: u32, depth: int, suffix: Seq<ConcreteMove>)
    requires
        qualifies(s, target, depth, suffix),
    ensures
        depth >= 0,
        exists|mi: int, idx: u8| #[trigger] qualifies_at(s, target, depth, suffix, mi, idx),
{
    let (mi, idx) = choose|mi: int, idx: u8|
        0 <= mi < gen_moves_spec(s.money as u32).len() && suffix[0] == #[trigger] cmove_of(
            gen_moves_spec(s.money as u32)[mi],
            idx,
        );
    assert(qualifies_at(s, target, depth, suffix, mi, idx));
}

/// The recursive depth-bounded exhaustive search. At an internal ply it
/// applies every enumerated abstract move at every cursor position,
/// recurses, and undoes; at the leaf ply it hands over to `solve_leaf`.
/// The state and the move prefix are restored on exit, and results only
/// grow. The last two clauses state the two search laws exactly: every
/// appended sequence is sound for the entry state (replaying it reaches
/// the target), and every qualifying sequence is reported (completeness —
/// the search visits every reachable (move, position) combination).
#[verifier::rlimit(100)]
#[verifier::spinoff_prover]
pub fn solve(
    state: &mut State,
    cmoves: &mut Vec<ConcreteMove>,
    money_target: u32,
    depth_remain: u32,
    results: &mut Vec<Vec<ConcreteMove>>,
)
    requires
        old(state).spec_money() + (depth_remain + 1) * MOVE_GAIN_CAP <= u32::MAX,
    ensures
        final(state).model() == old(state).model(),
        final(cmoves)@ == old(cmoves)@,
        final(results)@.len() >= old(results)@.len(),
        forall|i: int|
            0 <= i < old(results)@.len() ==> (#[trigger] final(results)@[i]) == old(results)@[i],
        forall|i: int|
            old(results)@.len() <= i < final(results)@.len() ==> reported_ok(
                old(state).model(),
                old(cmoves)@,
                money_target,
                depth_remain as int,
                (#[trigger] final(results)@[i])@,
            ),
        forall|suffix: Seq<ConcreteMove>|
            #[trigger] qualifies(old(state).model(), money_target, depth_remain as int, suffix)
                ==> results_contain(final(results)@, old(cmoves)@ + suffix),
    decreases depth_remain,
{
    if depth_remain == 0 {
        solve_leaf(state, cmoves, money_target, results);
        return;
    }

    let ghost entry = state.model();
    let ghost prefix = cmoves@;
    let ghost results0 = results@;
    let ghost depth: int = depth_remain as int;
    let ghost money0: u32 = state.spec_money();
    let moves = state.gen_moves();
    proof {
        lemma_gen_moves_wf(money0);
    }

    let n = moves.len();
    let mut mi: usize = 0;
    while mi < n
        invariant
            n == moves@.len(),
            moves@ == gen_moves_spec(money0),
            money0 == entry.money,
            depth == depth_remain,
            1 <= depth_remain,
            entry.money + (depth_remain + 1) * MOVE_GAIN_CAP <= u32::MAX,
            state.model() == entry,
            cmoves@ == prefix,
            results@.len() >= results0.len(),
            forall|i: int| 0 <= i < results0.len() ==> (#[trigger] results@[i]) == results0[i],
            forall|i: int|
                results0.len() <= i < results@.len() ==> reported_ok(
                    entry,
                    prefix,
                    money_target,
                    depth,
                    (#[trigger] results@[i])@,
                ),
            forall|suffix: Seq<ConcreteMove>, mi2: int, idx2: u8|
                mi2 < mi && #[trigger] qualifies_at(entry, money_target, depth, suffix, mi2, idx2)
                    ==> results_contain(results@, prefix + suffix),
        decreases n - mi,
    {
        let mv = moves[mi];
        let mut idx: usize = 0;
        while idx < 256
            invariant
                n == moves@.len(),
                moves@ == gen_moves_spec(money0),
                money0 == entry.money,
                mi < n,
                idx <= 256,
                mv == moves@[mi as int],
                depth == depth_remain,
                1 <= depth_remain,
                entry.money + (depth_remain + 1) * MOVE_GAIN_CAP <= u32::MAX,
                state.model() == entry,
                cmoves@ == prefix,
                results@.len() >= results0.len(),
                forall|i: int| 0 <= i < results0.len() ==> (#[trigger] results@[i]) == results0[i],
                forall|i: int|
                    results0.len() <= i < results@.len() ==> reported_ok(
                        entry,
                        prefix,
                        money_target,
                        depth,
                        (#[trigger] results@[i])@,
                    ),
                forall|suffix: Seq<ConcreteMove>, mi2: int, idx2: u8|
                    (mi2 < mi || (mi2 == mi && idx2 < idx)) && #[trigger] qualifies_at(
                        entry,
                        money_target,
                        depth,
                        suffix,
                        mi2,
                        idx2,
                    ) ==> results_contain(results@, prefix + suffix),
            decreases 256 - idx,
        {
            let rng_index = idx as u8;
            proof {
                assert(move_wf(mv) && State::affordable(mv, money0));
            }
            let ghost results_pre = results@;
            let (cmv, undo) = state.do_move(mv, rng_index);
            proof {
                lemma_cmove_income_bounds(cmv);
            }
            cmoves.push(cmv);
            solve(state, cmoves, money_target, depth_remain - 1, results);
            let ghost results_post = results@;
            let _ = cmoves.pop();
            state.undo_move(undo);
            proof {
                lemma_apply_undo_round_trip(entry, cmv);
                assert(state.model() == entry);
                assert(prefix.push(cmv).drop_last() =~= prefix);
                assert(cmoves@ == prefix);
                assert forall|i: int|
                    results_pre.len() <= i < results@.len() implies reported_ok(
                    entry,
                    prefix,
                    money_target,
                    depth,
                    (#[trigger] results@[i])@,
                ) by {
                    lemma_reported_lift(entry, prefix, cmv, money_target, depth, results@[i]@);
                }
                assert forall|suffix: Seq<ConcreteMove>, mi2: int, idx2: u8|
                    (mi2 < mi || (mi2 == mi && idx2 < idx + 1)) && #[trigger] qualifies_at(
                        entry,
                        money_target,
                        depth,
                        suffix,
                        mi2,
                        idx2,
                    ) implies results_contain(results@, prefix + suffix) by {
                    if mi2 < mi || (mi2 == mi && idx2 < idx) {
                        lemma_contain_monotone(results_pre, results@, prefix + suffix);
                    } else {
                        assert(mi2 == mi && idx2 == rng_index);
                        assert(suffix[0] == cmove_of(mv, rng_index));
                        assert(suffix[0] == cmv);
                        assert(qualifies(
                            step_spec(entry, cmv),
                            money_target,
                            depth - 1,
                            suffix.skip(1),
                        ));
                        assert(results_contain(results_post, prefix.push(cmv) + suffix.skip(1)));
                        assert(prefix.push(cmv) + suffix.skip(1) =~= prefix + suffix);
                    }
                }
            }
            idx = idx + 1;
        }
        mi = mi + 1;
    }
    proof {
        assert forall|suffix: Seq<ConcreteMove>| #[trigger] qualifies(
            entry,
            money_target,
            depth,
            suffix,
        ) implies results_contain(results@, prefix + suffix) by {
            lemma_qualifies_unfold(entry, money_target, depth, suffix);
            let (mi2, idx2) = choose|mi2: int, idx2: u8|
                #[trigger] qualifies_at(entry, money_target, depth, suffix, mi2, idx2);
            assert(entry.money as u32 == money0);
            assert(0 <= mi2 < gen_moves_spec(money0).len());
            assert(mi2 < n);
        }
    }
}

/// The leaf ply of the search: unless even the most generous single gain
/// cannot bridge the gap to the target, every move is applied at every
/// cursor position, the bankroll compared against the target, and the
/// whole move sequence reported on success. The contract mirrors `solve`
/// at depth zero: reported sequences are sound, qualifying ones reported.
#[verifier::rlimit(100)]
#[verifier::spinoff_prover]
pub fn solve_leaf(
    state: &mut State,
    cmoves: &mut Vec<ConcreteMove>,
    money_target: u32,
    results: &mut Vec<Vec<ConcreteMove>>,
)
    requires
        old(state).spec_money() + MOVE_GAIN_CAP <= u32::MAX,
    ensures
        final(state).model() == old(state).model(),
        final(cmoves)@ == old(cmoves)@,
        final(results)@.len() >= old(results)@.len(),
        forall|i: int|
            0 <= i < old(results)@.len() ==> (#[trigger] final(results)@[i]) == old(results)@[i],
        forall|i: int|
            old(results)@.len() <= i < final(results)@.len() ==> reported_ok(
                old(state).model(),
                old(cmoves)@,
                money_target,
                0,
                (#[trigger] final(results)@[i])@,
            ),
        forall|suffix: Seq<ConcreteMove>|
            #[trigger] qualifies(old(state).model(), money_target, 0, suffix) ==> results_contain(
                final(results)@,
                old(cmoves)@ + suffix,
            ),
{
    let ghost entry = state.model();
    let ghost prefix = cmoves@;
    if state.money() + LEAF_PRUNE_SLACK < money_target {
        proof {
            assert forall|suffix: Seq<ConcreteMove>| #[trigger] qualifies(
                entry,
                money_target,
                0,
                suffix,
            ) implies results_contain(results@, prefix + suffix) by {
                lemma_qualifies_unfold(entry, money_target, 0, suffix);
                let (mi2, idx2) = choose|mi2: int, idx2: u8|
                    #[trigger] qualifies_at(entry, money_target, 0, suffix, mi2, idx2);
                assert(entry.money + LEAF_PRUNE_SLACK >= money_target);
                assert(false);
            }
        }
        return;
    }

    let ghost results0 = results@;
    let ghost money0: u32 = state.spec_money();
    let moves = state.gen_moves();
    proof {
        lemma_gen_moves_wf(money0);
    }

    let n = moves.len();
    let mut mi: usize = 0;
    while mi < n
        invariant
            n == moves@.len(),
            moves@ == gen_moves_spec(money0),
            money0 == entry.money,
            entry.money + MOVE_GAIN_CAP <= u32::MAX,
            state.model() == entry,
            cmoves@ == prefix,
            results@.len() >= results0.len(),
            forall|i: int| 0 <= i < results0.len() ==> (#[trigger] results@[i]) == results0[i],
            forall|i: int|
                results0.len() <= i < results@.len() ==> reported_ok(
                    entry,
                    prefix,
                    money_target,
                    0,
                    (#[trigger] results@[i])@,
                ),
            forall|suffix: Seq<ConcreteMove>, mi2: int, idx2: u8|
                mi2 < mi && #[trigger] qualifies_at(entry, money_target, 0, suffix, mi2, idx2)
                    ==> results_contain(results@, prefix + suffix),
        decreases n - mi,
    {
        let mv = moves[mi];
        let mut idx: usize = 0;
        while idx < 256
            invariant
                n == moves@.len(),
                moves@ == gen_moves_spec(money0),
                money0 == entry.money,
                mi < n,
                idx <= 256,
                mv == moves@[mi as int],
                entry.money + MOVE_GAIN_CAP <= u32::MAX,
                state.model() == entry,
                cmoves@ == prefix,
                results@.len() >= results0.len(),
                forall|i: int| 0 <= i < results0.len() ==> (#[trigger] results@[i]) == results0[i],
                forall|i: int|
                    results0.len() <= i < results@.len() ==> reported_ok(
                        entry,
                        prefix,
                        money_target,
                        0,
                        (#[trigger] results@[i])@,
                    ),
                forall|suffix: Seq<ConcreteMove>, mi2: int, idx2: u8|
                    (mi2 < mi || (mi2 == mi && idx2 < idx)) && #[trigger] qualifies_at(
                        entry,
                        money_target,
                        0,
                        suffix,
                        mi2,
                        idx2,
                    ) ==> results_contain(results@, prefix + suffix),
            decreases 256 - idx,
        {
            let rng_index = idx as u8;
            proof {
                assert(move_wf(mv) && State::affordable(mv, money0));
            }
            let ghost results_pre = results@;
            let (cmv, undo) = state.do_move(mv, rng_index);
            proof {
                lemma_cmove_income_bounds(cmv);
            }
            cmoves.push(cmv);
            if state.money() >= money_target {
                let hit = clone_moves(cmoves);
                results.push(hit);
                proof {
                    let r = prefix.push(cmv);
                    assert(r.take(prefix.len() as int) =~= prefix);
                    assert(r.skip(prefix.len() as int) =~= seq![cmv]);
                    assert(seq![cmv].len() == 1);
                    assert(seq![cmv][0] == cmv);
                    assert(seq![cmv].skip(1) =~= Seq::<ConcreteMove>::empty());
                    assert(replay_spec(entry, seq![cmv]) == replay_spec(
                        step_spec(entry, cmv),
                        seq![cmv].skip(1),
                    ));
                    assert(replay_spec(step_spec(entry, cmv), seq![cmv].skip(1)) == step_spec(
                        entry,
                        cmv,
                    ));
                    assert(reported_ok(entry, prefix, money_target, 0, r));
                }
            }
            let _ = cmoves.pop();
            state.undo_move(undo);
            proof {
                lemma_apply_undo_round_trip(entry, cmv);
                assert(prefix.push(cmv).drop_last() =~= prefix);
                assert forall|suffix: Seq<ConcreteMove>, mi2: int, idx2: u8|
                    (mi2 < mi || (mi2 == mi && idx2 < idx + 1)) && #[trigger] qualifies_at(
                        entry,
                        money_target,
                        0,
                        suffix,
                        mi2,
                        idx2,
                    ) implies results_contain(results@, prefix + suffix) by {
                    if mi2 < mi || (mi2 == mi && idx2 < idx) {
                        lemma_contain_monotone(results_pre, results@, prefix + suffix);
                    } else {
                        assert(mi2 == mi && idx2 == rng_index);
                        assert(suffix.len() == 1);
                        assert(suffix[0] == cmove_of(mv, rng_index));
                        assert(suffix[0] == cmv);
                        assert(step_spec(entry, cmv).money >= money_target);
                        assert(suffix =~= seq![cmv]);
                        assert(prefix + suffix =~= prefix.push(cmv));
                        assert(results@.len() == results_pre.len() + 1);
                        assert(results@[results_pre.len() as int]@ == prefix.push(cmv));
                        assert(results_contain(results@, prefix.push(cmv)));
                    }
                }
            }
            idx = idx + 1;
        }
        mi = mi + 1;
    }
    proof {
        assert forall|suffix: Seq<ConcreteMove>| #[trigger] qualifies(
            entry,
            money_target,
            0,
            suffix,
        ) implies results_contain(results@, prefix + suffix) by {
            lemma_qualifies_unfold(entry, money_target, 0, suffix);
            let (mi2, idx2) = choose|mi2: int, idx2: u8|
                #[trigger] qualifies_at(entry, money_target, 0, suffix, mi2, idx2);
            assert(entry.money as u32 == money0);
            assert(0 <= mi2 < gen_moves_spec(money0).len());
            assert(mi2 < n);
        }
    }
}

/// The cyclic forward distance from `src` to `dst` that consecutive play
/// can traverse. Positions from 250 up cannot be reached without a reset;
/// from such a position the next output consumed is the one at 0.
pub open spec fn rng_index_distance_spec(src: u8, dst: u8) -> Option<u8> {
    if dst >= 250 {
        None
    } else if src >= 250 {
        Some((dst + 1) as u8)
    } else if src <= dst {
        Some((dst - src) as u8)
    } else {
        Some((250 - (src - dst)) as u8)
    }
}

/// The cyclic forward distance from `src` to `dst`: see
/// `rng_index_distance_spec`.
pub fn rng_index_distance(src: u8, dst: u8) -> (r: Option<u8>)
    ensures
        r == rng_index_distance_spec(src, dst),
{
    if dst >= 250 {
        return None;
    }
    if src >= 250 {
        return Some(dst + 1);
    }
    Some(
        if src <= dst {
            dst - src
        } else {
            250 - (src - dst)
        },
    )
}

/// Whether `cur` can be executed immediately after `pre` without an
/// intervening reset: same move kind, and the cyclic forward distance
/// between their positions equals exactly the number of outputs `cur`
/// consumes.
pub open spec fn can_fast_forward_spec(cur: ConcreteMove, pre: ConcreteMove) -> bool {
    match (cur, pre) {
        (
            ConcreteMove::BanditFof { rng_index: index, .. },
            ConcreteMove::BanditFof { rng_index: index_pre, .. },
        ) => rng_index_distance_spec(index_pre, index) == Some(4u8),
        (
            ConcreteMove::BanditMs { rng_index: index, .. },
            ConcreteMove::BanditMs { rng_index: index_pre, .. },
        ) => rng_index_distance_spec(index_pre, index) == Some(3u8),
        (
            ConcreteMove::BanditRor { rng_index: index, .. },
            ConcreteMove::BanditRor { rng_index: index_pre, .. },
        ) => rng_index_distance_spec(index_pre, index) == Some(3u8),
        (
            ConcreteMove::Poker { rng_index: index, rng_len: len },
            ConcreteMove::Poker { rng_index: index_pre, .. },
        ) => match rng_index_distance_spec(index_pre, index) {
            Some(d) => d as int == len as int,
            None => false,
        },
        _ => false,
    }
}

impl ConcreteMove {
    /// Whether `self` can be executed immediately after `pre` without an
    /// intervening reset: see `can_fast_forward_spec`.
    pub fn can_fast_forward_from(self, pre: Self) -> (r: bool)
        ensures
            r == can_fast_forward_spec(self, pre),
    {
        match (self, pre) {
            (
                ConcreteMove::BanditFof { rng_index: index, .. },
                ConcreteMove::BanditFof { rng_index: index_pre, .. },
            ) => match rng_index_distance(index_pre, index) {
                Some(d) => d == 4,
                None => false,
            },
            (
                ConcreteMove::BanditMs { rng_index: index, .. },
                ConcreteMove::BanditMs { rng_index: index_pre, .. },
            ) => match rng_index_distance(index_pre, index) {
                Some(d) => d == 3,
                None => false,
            },
            (
                ConcreteMove::BanditRor { rng_index: index, .. },
                ConcreteMove::BanditRor { rng_index: index_pre, .. },
            ) => match rng_index_distance(index_pre, index) {
                Some(d) => d == 3,
                None => false,
            },
            (
                ConcreteMove::Poker { rng_index: index, rng_len: len },
                ConcreteMove::Poker { rng_index: index_pre, .. },
            ) => match rng_index_distance(index_pre, index) {
                Some(d) => (d as usize) == len,
                None => false,
            },
            _ => false,
        }
    }
}

/// The continuity flag of each position in a move sequence: whether the
/// move there can run immediately after the one before it without a reset.
/// The first move, having no predecessor, is never flagged.
pub fn continuity_flags(cmoves: &Vec<ConcreteMove>) -> (r: Vec<bool>)
    ensures
        r@.len() == cmoves@.len(),
        forall|i: int|
            0 <= i < r@.len() ==> (#[trigger] r@[i]) == (i > 0 && can_fast_forward_spec(
                cmoves@[i],
                cmoves@[i - 1],
            )),
{
    let mut r: Vec<bool> = Vec::new();
    let mut i: usize = 0;
    while i < cmoves.len()
        invariant
            i <= cmoves@.len(),
            r@.len() == i,
            forall|j: int|
                0 <= j < i ==> (#[trigger] r@[j]) == (j > 0 && can_fast_forward_spec(
                    cmoves@[j],
                    cmoves@[j - 1],
                )),
        decreases cmoves@.len() - i,
    {
        let flag = if i > 0 {
            cmoves[i].can_fast_forward_from(cmoves[i - 1])
        } else {
            false
        };
        r.push(flag);
        i = i + 1;
    }
    r
}

} // verus!
