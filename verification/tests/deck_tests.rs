use caesars_palace_nes::Card;
use caesars_palace_nes::CardRank;
use caesars_palace_nes::CardSuit;
use caesars_palace_nes::Deck;

#[test]
fn suit_model() {
    let all = CardSuit::all();
    assert_eq!(all.len(), 4);
    for (i, s) in all.iter().enumerate() {
        assert_eq!(s.inner(), i as u8);
        assert_eq!(CardSuit::from_inner(i as u8), Some(*s));
    }
    assert_eq!(CardSuit::from_inner(4), None);
    assert_eq!(CardSuit::Heart.inner(), 0);
    assert_eq!(CardSuit::Club.inner(), 3);
}

#[test]
fn rank_model() {
    let all = CardRank::all();
    assert_eq!(all.len(), 13);
    for (i, r) in all.iter().enumerate() {
        assert_eq!(r.inner(), i as u8);
        assert_eq!(CardRank::from_inner(i as u8), Some(*r));
    }
    assert_eq!(CardRank::from_inner(13), None);
}

#[test]
fn card_model() {
    let c = Card::from_inner(51).unwrap();
    assert_eq!(c.suit(), CardSuit::Club);
    assert_eq!(c.rank().inner(), 12);
    assert_eq!(Card::from_inner(52), None);

    let rank9 = CardRank::from_inner(9).unwrap();
    let c = Card::from_suit_rank(CardSuit::Spade, rank9);
    assert_eq!(c.suit(), CardSuit::Spade);
    assert_eq!(c.rank().inner(), 9);

    let all = Card::all();
    assert_eq!(all.len(), 52);
    for (i, c) in all.iter().enumerate() {
        assert_eq!(c.suit().inner(), (i / 13) as u8);
        assert_eq!(c.rank().inner(), (i % 13) as u8);
    }
}

#[test]
fn deck_deal_removes_cards() {
    let mut deck = Deck::new();
    let c0 = deck.deal(0);
    assert_eq!(c0, Card::from_inner(0).unwrap());
    let c1 = deck.deal(0);
    assert_eq!(c1, Card::from_inner(1).unwrap());
    let c2 = deck.deal(255);
    assert_eq!(c2, Card::from_inner(7).unwrap());
}

#[test]
fn deck_refills_when_empty() {
    let mut deck = Deck::new();
    for i in 0..52u8 {
        let c = deck.deal(0);
        assert_eq!(c, Card::from_inner(i).unwrap());
    }
    let c = deck.deal(0);
    assert_eq!(c, Card::from_inner(0).unwrap());
}

#[test]
fn deck_default_matches_new() {
    let mut a = Deck::new();
    let mut b = Deck::default();
    for r in [3u8, 200, 77] {
        assert_eq!(a.deal(r), b.deal(r));
    }
}
