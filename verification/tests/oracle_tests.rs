use caesars_palace_nes::BanditFofPrize;
use caesars_palace_nes::bandit_fof_play;
use caesars_palace_nes::bandit_ms_play;
use caesars_palace_nes::bandit_ror_play;
use caesars_palace_nes::bandit;
use caesars_palace_nes::bandit::fountains_of_fortune::Symbol;

#[test]
fn ror_play_exact() {
    let prize = bandit_ror_play([0, 0, 0]);
    assert_eq!(prize.factors(), [0, 0, 14]);
    assert_eq!(prize.calc(500, 3), 7000);
    assert_eq!(prize.calc(500, 2), 0);
    assert_eq!(prize.calc(500, 1), 0);
}

#[test]
fn ror_direct_interface_matches() {
    assert_eq!(bandit::bandit_ror_play([0, 0, 0]), [0, 0, 14]);
    for r in 0..=255u8 {
        let rs = [r, r.wrapping_mul(7), r.wrapping_add(100)];
        assert_eq!(bandit::bandit_ror_play(rs), bandit_ror_play(rs).factors());
    }
}

#[test]
fn ms_play_exact() {
    let prize = bandit_ms_play([0, 0, 0]);
    assert_eq!(prize.factors(), [0, 0, 10]);
    assert_eq!(prize.calc(100, 3), 1000);
    assert_eq!(prize.calc(100, 2), 0);
}

#[test]
fn fof_play_exact() {
    assert_eq!(bandit_fof_play([0, 0, 0, 0]), BanditFofPrize::Null);
    assert_eq!(BanditFofPrize::Null.calc(1, 3), 0);
}

#[test]
fn fof_calc_table() {
    assert_eq!(BanditFofPrize::Normal { rank: 7 }.calc(1, 2), 5000);
    assert_eq!(BanditFofPrize::Normal { rank: 0 }.calc(3, 3), 18);
    assert_eq!(BanditFofPrize::Normal { rank: 5 }.calc(1, 1), 100);
    assert_eq!(BanditFofPrize::AllBlackSeven.calc(1, 3), 100000);
    assert_eq!(BanditFofPrize::AllBlackSeven.calc(2, 1), 4000);
    assert_eq!(BanditFofPrize::AllGreenSeven.calc(5, 2), 2000);
    assert_eq!(BanditFofPrize::AllGreenSeven.calc(1, 3), 750);
}

#[test]
fn fof_symbol_is_seven() {
    assert!(Symbol::RedSeven.is_seven());
    assert!(Symbol::GreenSeven.is_seven());
    assert!(Symbol::BlackSeven.is_seven());
    assert!(!Symbol::Cherry.is_seven());
    assert!(!Symbol::Null.is_seven());
}

#[test]
fn oracles_deterministic() {
    for r in [0u8, 17, 200, 255] {
        let rs3 = [r, r.wrapping_add(3), r.wrapping_mul(5)];
        let rs4 = [r, r.wrapping_add(3), r.wrapping_mul(5), r.wrapping_add(9)];
        assert_eq!(bandit_ror_play(rs3), bandit_ror_play(rs3));
        assert_eq!(bandit_ms_play(rs3), bandit_ms_play(rs3));
        assert_eq!(bandit_fof_play(rs4), bandit_fof_play(rs4));
    }
}

#[test]
fn oracles_total_over_all_bytes() {
    for r in 0..=255u8 {
        let rs3 = [r, 255 - r, r.wrapping_mul(3)];
        let rs4 = [r, 255 - r, r.wrapping_mul(3), r.wrapping_add(1)];
        let _ = bandit_ror_play(rs3);
        let _ = bandit_ms_play(rs3);
        let _ = bandit_fof_play(rs4);
    }
}
