use caesars_palace_nes::ConcreteMove;
use caesars_palace_nes::Move;
use caesars_palace_nes::Rng;
use caesars_palace_nes::State;
use caesars_palace_nes::bandit_fof_play;
use caesars_palace_nes::continuity_flags;
use caesars_palace_nes::play_poker;
use caesars_palace_nes::rng_index_distance;
use caesars_palace_nes::solve;

/// Applies a reported concrete move to a state. The abstract move is
/// rebuilt with the reported bet count as its bound: the smallest-tie rule
/// makes the best choice under that bound the reported count itself, so the
/// replay resolves to the same concrete move.
fn replay_one(state: &mut State, cmv: &ConcreteMove) {
    let (mv, idx) = match *cmv {
        ConcreteMove::BanditFof { rng_index, bet_count } => {
            (Move::BanditFof { bet_count_max: bet_count }, rng_index)
        }
        ConcreteMove::BanditMs { rng_index, bet_count } => {
            (Move::BanditMs { bet_count_max: bet_count }, rng_index)
        }
        ConcreteMove::BanditRor { rng_index, bet_count } => {
            (Move::BanditRor { bet_count_max: bet_count }, rng_index)
        }
        ConcreteMove::Poker { rng_index, rng_len } => (Move::Poker { rng_len }, rng_index),
    };
    let (applied, _) = state.do_move(mv, idx);
    assert_eq!(applied, *cmv);
}

#[test]
fn gen_moves_at_starting_bankroll() {
    let state = State::new();
    assert_eq!(state.money(), 1000);
    let moves = state.gen_moves();
    assert_eq!(
        moves,
        vec![
            Move::BanditFof { bet_count_max: 3 },
            Move::BanditMs { bet_count_max: 3 },
            Move::BanditRor { bet_count_max: 2 },
            Move::Poker { rng_len: 5 },
            Move::Poker { rng_len: 6 },
            Move::Poker { rng_len: 7 },
            Move::Poker { rng_len: 8 },
            Move::Poker { rng_len: 9 },
            Move::Poker { rng_len: 10 },
        ]
    );
}

#[test]
fn gen_moves_scales_with_bankroll() {
    assert_eq!(State::with_money(0).gen_moves(), vec![]);
    assert_eq!(
        State::with_money(1).gen_moves(),
        vec![Move::BanditFof { bet_count_max: 1 }]
    );
    let at_250 = State::with_money(250).gen_moves();
    assert_eq!(at_250.len(), 8);
    assert_eq!(at_250[0], Move::BanditFof { bet_count_max: 3 });
    assert_eq!(at_250[1], Move::BanditMs { bet_count_max: 2 });
    assert_eq!(at_250[2], Move::Poker { rng_len: 5 });
}

#[test]
fn apply_undo_round_trip() {
    let mut state = State::with_money(1000);
    let (cmv, undo) = state.do_move(Move::BanditMs { bet_count_max: 3 }, 0x42);
    assert_eq!(
        cmv,
        ConcreteMove::BanditMs { rng_index: 0x42, bet_count: 1 }
    );
    assert_eq!(undo.rng_index_before, 0);
    assert_eq!(undo.rng_index, 0x42);
    assert_eq!(undo.rng_len, 3);
    assert_eq!(undo.income, -100);
    assert_eq!(state.money(), 900);
    assert_eq!(state.rng_index(), 0x45);
    state.undo_move(undo);
    assert_eq!(state.money(), 1000);
    assert_eq!(state.rng_index(), 0);
}

#[test]
fn apply_undo_nested_lifo() {
    let mut state = State::with_money(1000);
    let (_, u1) = state.do_move(Move::BanditFof { bet_count_max: 3 }, 1);
    let mid_money = state.money();
    let mid_index = state.rng_index();
    let (_, u2) = state.do_move(Move::BanditMs { bet_count_max: 3 }, 0x42);
    state.undo_move(u2);
    assert_eq!(state.money(), mid_money);
    assert_eq!(state.rng_index(), mid_index);
    state.undo_move(u1);
    assert_eq!(state.money(), 1000);
    assert_eq!(state.rng_index(), 0);
}

#[test]
fn fof_bet_choice_exact() {
    let mut state = State::with_money(1000);
    let (cmv, undo) = state.do_move(Move::BanditFof { bet_count_max: 3 }, 1);
    assert_eq!(cmv, ConcreteMove::BanditFof { rng_index: 1, bet_count: 3 });
    assert_eq!(undo.income, 12);
}

#[test]
fn bet_choice_optimality() {
    for idx in 0..=255u8 {
        let mut state = State::with_money(1000);
        let (cmv, undo) = state.do_move(Move::BanditFof { bet_count_max: 3 }, idx);
        let bet_count = match cmv {
            ConcreteMove::BanditFof { bet_count, .. } => bet_count,
            _ => unreachable!(),
        };

        let mut rng = Rng::with_index(idx);
        let rs = [rng.gen(), rng.gen(), rng.gen(), rng.gen()];
        let prize = bandit_fof_play(rs);
        let incomes: Vec<i32> = (1..=3usize)
            .map(|bc| prize.calc(1, bc) as i32 - bc as i32)
            .collect();

        assert_eq!(undo.income, incomes[bet_count - 1]);
        for bc in 1..=3usize {
            assert!(incomes[bc - 1] <= undo.income);
            if bc < bet_count {
                assert!(incomes[bc - 1] < undo.income);
            }
        }
    }
}

#[test]
fn poker_move_exact() {
    let mut rng = Rng::with_index(0);
    let income = play_poker(&mut rng, 10);
    assert_eq!(income, -200);
    assert_eq!(rng.index(), 10);

    let mut state = State::with_money(1000);
    let (cmv, undo) = state.do_move(Move::Poker { rng_len: 10 }, 0);
    assert_eq!(cmv, ConcreteMove::Poker { rng_index: 0, rng_len: 10 });
    assert_eq!(undo.income, -200);
    assert_eq!(state.money(), 800);
    assert_eq!(state.rng_index(), 10);
    state.undo_move(undo);
    assert_eq!(state.money(), 1000);
}

#[test]
fn search_reports_exactly_the_best_pairs() {
    let mut state = State::with_money(1000);
    let mut cmoves = Vec::new();
    let mut results = Vec::new();
    solve(&mut state, &mut cmoves, 9500, 0, &mut results);
    assert_eq!(
        results,
        vec![
            vec![ConcreteMove::BanditRor { rng_index: 85, bet_count: 1 }],
            vec![ConcreteMove::BanditRor { rng_index: 137, bet_count: 1 }],
            vec![ConcreteMove::BanditRor { rng_index: 189, bet_count: 1 }],
        ]
    );
    assert_eq!(state.money(), 1000);
    assert_eq!(state.rng_index(), 0);
    assert!(cmoves.is_empty());
}

#[test]
fn search_soundness_single_ply() {
    let mut state = State::with_money(1000);
    let mut cmoves = Vec::new();
    let mut results = Vec::new();
    solve(&mut state, &mut cmoves, 1001, 0, &mut results);
    assert_eq!(results.len(), 122);
    for seq in &results {
        assert_eq!(seq.len(), 1);
        let mut replay = State::with_money(1000);
        for cmv in seq {
            replay_one(&mut replay, cmv);
        }
        assert!(replay.money() >= 1001);
    }
}

#[test]
fn search_soundness_depth_one() {
    let mut state = State::with_money(5);
    let mut cmoves = Vec::new();
    let mut results = Vec::new();
    solve(&mut state, &mut cmoves, 25, 1, &mut results);
    assert_eq!(results.len(), 784);
    for seq in &results {
        assert_eq!(seq.len(), 2);
        let mut replay = State::with_money(5);
        for cmv in seq {
            replay_one(&mut replay, cmv);
        }
        assert!(replay.money() >= 25);
    }
    assert_eq!(state.money(), 5);
    assert_eq!(state.rng_index(), 0);
    assert!(cmoves.is_empty());
}

#[test]
fn search_prunes_unreachable_targets() {
    let mut state = State::with_money(1000);
    let mut cmoves = Vec::new();
    let mut results = Vec::new();
    solve(&mut state, &mut cmoves, 1200000, 0, &mut results);
    assert!(results.is_empty());
    assert_eq!(state.money(), 1000);
}

#[test]
fn continuity_adjacent_slot_moves() {
    let pre = ConcreteMove::BanditMs { rng_index: 0x10, bet_count: 1 };
    let on = ConcreteMove::BanditMs { rng_index: 0x13, bet_count: 2 };
    let off = ConcreteMove::BanditMs { rng_index: 0x14, bet_count: 1 };
    assert!(on.can_fast_forward_from(pre));
    assert!(!off.can_fast_forward_from(pre));
    assert_eq!(continuity_flags(&vec![pre, on]), vec![false, true]);
    assert_eq!(continuity_flags(&vec![pre, off]), vec![false, false]);
}

#[test]
fn continuity_other_kinds() {
    let fof_pre = ConcreteMove::BanditFof { rng_index: 0x10, bet_count: 1 };
    let fof_on = ConcreteMove::BanditFof { rng_index: 0x14, bet_count: 1 };
    assert!(fof_on.can_fast_forward_from(fof_pre));
    assert!(!fof_on.can_fast_forward_from(ConcreteMove::BanditMs {
        rng_index: 0x10,
        bet_count: 1,
    }));

    let poker_pre = ConcreteMove::Poker { rng_index: 0x10, rng_len: 5 };
    let poker_on = ConcreteMove::Poker { rng_index: 0x15, rng_len: 5 };
    let poker_off = ConcreteMove::Poker { rng_index: 0x16, rng_len: 5 };
    assert!(poker_on.can_fast_forward_from(poker_pre));
    assert!(!poker_off.can_fast_forward_from(poker_pre));

    let wrap_pre = ConcreteMove::BanditFof { rng_index: 250, bet_count: 1 };
    let wrap_on = ConcreteMove::BanditFof { rng_index: 3, bet_count: 1 };
    assert!(wrap_on.can_fast_forward_from(wrap_pre));
}

#[test]
fn rng_index_distance_cases() {
    assert_eq!(rng_index_distance(0x10, 0x13), Some(3));
    assert_eq!(rng_index_distance(0x13, 0x10), Some(247));
    assert_eq!(rng_index_distance(250, 5), Some(6));
    assert_eq!(rng_index_distance(7, 251), None);
}
