use caesars_palace_nes::Rng;

#[test]
fn cursor_outputs_and_round_trip() {
    let mut rng = Rng::with_index(5);
    let first = [rng.gen(), rng.gen(), rng.gen()];
    assert_eq!(rng.index(), 8);
    rng.undo(5, 3);
    assert_eq!(rng.index(), 5);
    let second = [rng.gen(), rng.gen(), rng.gen()];
    assert_eq!(first, second);
}

#[test]
fn cursor_wraps_past_255() {
    let mut rng = Rng::with_index(255);
    let _ = rng.gen();
    assert_eq!(rng.index(), 0);
    rng.undo(255, 1);
    assert_eq!(rng.index(), 255);
}

#[test]
fn cursor_values_fixed() {
    let mut rng = Rng::new();
    assert_eq!(rng.index(), 0);
    assert_eq!(rng.gen(), 13);
    assert_eq!(rng.gen(), 180);
    assert_eq!(rng.gen(), 91);
}

#[test]
fn cursor_set_index_repositions() {
    let mut rng = Rng::new();
    rng.set_index(42);
    assert_eq!(rng.index(), 42);
    let a = rng.gen();
    rng.set_index(42);
    assert_eq!(rng.gen(), a);
}

#[test]
fn cursor_full_cycle_round_trip() {
    let mut rng = Rng::with_index(7);
    let mut outs = Vec::new();
    for _ in 0..255 {
        outs.push(rng.gen());
    }
    rng.undo(7, 255);
    assert_eq!(rng.index(), 7);
    for i in 0..255 {
        assert_eq!(rng.gen(), outs[i]);
    }
}
