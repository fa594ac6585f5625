//! The card and deck model consumed by the poker oracle. A deck is a
//! bounded in-place vector of card values; dealing picks a card by reducing
//! a cursor output modulo the number of cards left.

use vstd::prelude::*;

verus! {

#[verifier::external_type_specification]
#[verifier::external_body]
#[verifier::reject_recursive_types(T)]
pub struct ExArrayVec<T, const CAP: usize>(arrayvec::ArrayVec<T, CAP>);

/// The card values held by a deck's backing vector, in deck order.
pub uninterp spec fn av52_contents(v: arrayvec::ArrayVec<u8, 52>) -> Seq<u8>;

/// Relies on `arrayvec::ArrayVec::remove`: removes and returns the element
/// at `idx`, shifting the following elements down.
#[verifier::external_body]
fn av52_remove(v: &mut arrayvec::ArrayVec<u8, 52>, idx: usize) -> (r: u8)
    requires
        idx < av52_contents(*old(v)).len(),
    ensures
        r == av52_contents(*old(v))[idx as int],
        av52_contents(*final(v)) == av52_contents(*old(v)).remove(idx as int),
{
    v.remove(idx)
}

/// Relies on `arrayvec::ArrayVec::len`: the number of elements held.
#[verifier::external_body]
fn av52_len(v: &arrayvec::ArrayVec<u8, 52>) -> (r: usize)
    ensures
        r == av52_contents(*v).len(),
{
    v.len()
}

/// Relies on `arrayvec::ArrayVec`'s `From<[T; CAP]>` impl: the vector holds
/// exactly the array's elements, in order.
#[verifier::external_body]
fn av52_from(arr: [u8; 52]) -> (r: arrayvec::ArrayVec<u8, 52>)
    ensures
        av52_contents(r) == arr@,
{
    arrayvec::ArrayVec::from(arr)
}

#[derive(Clone, Copy, Debug, Eq, Ord, PartialEq, PartialOrd)]
pub enum CardSuit {
    Heart,
    Diamond,
    Spade,
    Club,
}

/// The suit encoded by an internal value below 4.
pub open spec fn suit_from_spec(inner: u8) -> CardSuit {
    if inner == 0 {
        CardSuit::Heart
    } else if inner == 1 {
        CardSuit::Diamond
    } else if inner == 2 {
        CardSuit::Spade
    } else {
        CardSuit::Club
    }
}

impl CardSuit {
    /// The internal value of the suit: `Heart` is 0, `Diamond` 1, `Spade` 2,
    /// `Club` 3.
    pub open spec fn spec_inner(self) -> u8 {
        match self {
            CardSuit::Heart => 0,
            CardSuit::Diamond => 1,
            CardSuit::Spade => 2,
            CardSuit::Club => 3,
        }
    }

    pub fn from_inner(inner: u8) -> (r: Option<Self>)
        ensures
            inner < 4 ==> (r matches Some(s) && s == suit_from_spec(inner)),
            inner >= 4 ==> r is None,
    {
        if inner == 0 {
            Some(CardSuit::Heart)
        } else if inner == 1 {
            Some(CardSuit::Diamond)
        } else if inner == 2 {
            Some(CardSuit::Spade)
        } else if inner == 3 {
            Some(CardSuit::Club)
        } else {
            None
        }
    }

    pub fn inner(self) -> (r: u8)
        ensures
            r == self.spec_inner(),
    {
        match self {
            CardSuit::Heart => 0,
            CardSuit::Diamond => 1,
            CardSuit::Spade => 2,
            CardSuit::Club => 3,
        }
    }

    pub fn all() -> (r: [Self; 4])
        ensures
            r@.len() == 4,
            forall|i: int| 0 <= i < 4 ==> (#[trigger] r@[i]) == suit_from_spec(i as u8),
    {
        [CardSuit::Heart, CardSuit::Diamond, CardSuit::Spade, CardSuit::Club]
    }
}

#[derive(Clone, Copy, Debug, Eq, Ord, PartialEq, PartialOrd)]
pub struct CardRank(u8);

impl CardRank {
    /// The internal value of the rank: 0 is the ace, 12 the king.
    pub closed spec fn spec_inner(self) -> u8 {
        self.0
    }

    /// A valid rank value lies below 13.
    pub open spec fn wf(self) -> bool {
        self.spec_inner() < 13
    }

    pub fn from_inner(inner: u8) -> (r: Option<Self>)
        ensures
            inner < 13 ==> (r matches Some(k) && k.spec_inner() == inner && k.wf()),
            inner >= 13 ==> r is None,
    {
        if inner < 13 {
            Some(CardRank(inner))
        } else {
            None
        }
    }

    pub fn inner(self) -> (r: u8)
        ensures
            r == self.spec_inner(),
    {
        self.0
    }

    pub fn all() -> (r: [Self; 13])
        ensures
            r@.len() == 13,
            forall|i: int|
                0 <= i < 13 ==> (#[trigger] r@[i]).spec_inner() == i && r@[i].wf(),
    {
        [
            CardRank(0),
            CardRank(1),
            CardRank(2),
            CardRank(3),
            CardRank(4),
            CardRank(5),
            CardRank(6),
            CardRank(7),
            CardRank(8),
            CardRank(9),
            CardRank(10),
            CardRank(11),
            CardRank(12),
        ]
    }
}

#[derive(Clone, Copy, Debug, Eq, Ord, PartialEq, PartialOrd)]
pub struct Card(u8);

impl Card {
    /// The internal value of the card: 13 times the suit value plus the rank
    /// value.
    pub closed spec fn spec_inner(self) -> u8 {
        self.0
    }

    /// A valid card value lies below 52.
    pub open spec fn wf(self) -> bool {
        self.spec_inner() < 52
    }

    /// The suit encoded in the card value.
    pub open spec fn spec_suit(self) -> CardSuit {
        suit_from_spec((self.spec_inner() / 13) as u8)
    }

    /// The rank value encoded in the card value.
    pub open spec fn spec_rank(self) -> u8 {
        self.spec_inner() % 13
    }

    pub fn from_inner(inner: u8) -> (r: Option<Self>)
        ensures
            inner < 52 ==> (r matches Some(c) && c.spec_inner() == inner && c.wf()),
            inner >= 52 ==> r is None,
    {
        if inner < 52 {
            Some(Card(inner))
        } else {
            None
        }
    }

    pub fn from_suit_rank(suit: CardSuit, rank: CardRank) -> (r: Self)
        requires
            rank.wf(),
        ensures
            r.wf(),
            r.spec_inner() == 13 * suit.spec_inner() + rank.spec_inner(),
            r.spec_suit() == suit,
            r.spec_rank() == rank.spec_inner(),
    {
        Card(13 * suit.inner() + rank.inner())
    }

    pub fn suit(self) -> (r: CardSuit)
        requires
            self.wf(),
        ensures
            r == self.spec_suit(),
    {
        let q = self.0 / 13;
        if q == 0 {
            CardSuit::Heart
        } else if q == 1 {
            CardSuit::Diamond
        } else if q == 2 {
            CardSuit::Spade
        } else {
            CardSuit::Club
        }
    }

    pub fn rank(self) -> (r: CardRank)
        ensures
            r.spec_inner() == self.spec_rank(),
            r.wf(),
    {
        CardRank(self.0 % 13)
    }

    pub fn all() -> (r: [Self; 52])
        ensures
            r@.len() == 52,
            forall|i: int|
                0 <= i < 52 ==> (#[trigger] r@[i]).spec_inner() == i && r@[i].wf(),
    {
        [
            Card(0),
            Card(1),
            Card(2),
            Card(3),
            Card(4),
            Card(5),
            Card(6),
            Card(7),
            Card(8),
            Card(9),
            Card(10),
            Card(11),
            Card(12),
            Card(13),
            Card(14),
            Card(15),
            Card(16),
            Card(17),
            Card(18),
            Card(19),
            Card(20),
            Card(21),
            Card(22),
            Card(23),
            Card(24),
            Card(25),
            Card(26),
            Card(27),
            Card(28),
            Card(29),
            Card(30),
            Card(31),
            Card(32),
            Card(33),
            Card(34),
            Card(35),
            Card(36),
            Card(37),
            Card(38),
            Card(39),
            Card(40),
            Card(41),
            Card(42),
            Card(43),
            Card(44),
            Card(45),
            Card(46),
            Card(47),
            Card(48),
            Card(49),
            Card(50),
            Card(51),
        ]
    }
}

/// The fresh deck: all 52 card values in order.
pub open spec fn full_deck() -> Seq<u8> {
    Seq::new(52, |i: int| i as u8)
}

/// The cards a deal draws from: the deck itself, or a fresh deck when it has
/// run out.
pub open spec fn deck_effective(cards: Seq<u8>) -> Seq<u8> {
    if cards.len() == 0 {
        full_deck()
    } else {
        cards
    }
}

/// The position the cursor output `r` picks among the cards drawn from.
pub open spec fn deck_pick_index(cards: Seq<u8>, r: u8) -> int {
    r as int % deck_effective(cards).len() as int
}

/// The card value a deal with cursor output `r` returns.
pub open spec fn deck_dealt_card(cards: Seq<u8>, r: u8) -> u8 {
    deck_effective(cards)[deck_pick_index(cards, r)]
}

/// The deck left behind by a deal with cursor output `r`.
pub open spec fn deck_after_deal(cards: Seq<u8>, r: u8) -> Seq<u8> {
    deck_effective(cards).remove(deck_pick_index(cards, r))
}

/// The deck left after dealing once per output in `rs`, from a fresh deck.
pub open spec fn sim_deck(rs: Seq<u8>) -> Seq<u8>
    decreases rs.len(),
{
    if rs.len() == 0 {
        full_deck()
    } else {
        deck_after_deal(sim_deck(rs.drop_last()), rs.last())
    }
}

/// The card values dealt, in order, by dealing once per output in `rs` from
/// a fresh deck.
pub open spec fn sim_dealt(rs: Seq<u8>) -> Seq<u8>
    decreases rs.len(),
{
    if rs.len() == 0 {
        Seq::empty()
    } else {
        sim_dealt(rs.drop_last()).push(deck_dealt_card(sim_deck(rs.drop_last()), rs.last()))
    }
}

/// Every card value still in the deck, or dealt from it, lies below 52.
pub proof fn lemma_sim_deals_wf(rs: Seq<u8>)
    ensures
        sim_dealt(rs).len() == rs.len(),
        forall|i: int|
            0 <= i < sim_deck(rs).len() ==> (#[trigger] sim_deck(rs)[i]) < 52,
        forall|i: int|
            0 <= i < sim_dealt(rs).len() ==> (#[trigger] sim_dealt(rs)[i]) < 52,
    decreases rs.len(),
{
    if rs.len() > 0 {
        lemma_sim_deals_wf(rs.drop_last());
        let prev = sim_deck(rs.drop_last());
        assert(deck_effective(prev).len() > 0);
    }
}

pub struct Deck {
    cards: arrayvec::ArrayVec<u8, 52>,
}

impl Default for Deck {
    fn default() -> (r: Self)
        ensures
            r.spec_cards() == full_deck(),
            r.wf(),
    {
        let r = Deck { cards: Self::cards_default() };
        proof {
            assert forall|i: int|
                0 <= i < r.spec_cards().len() implies (#[trigger] r.spec_cards()[i]) < 52 by {
                assert(r.spec_cards()[i] == full_deck()[i]);
            }
        }
        r
    }
}

impl Deck {
    /// The card values the deck holds, in deck order.
    pub closed spec fn spec_cards(self) -> Seq<u8> {
        av52_contents(self.cards)
    }

    /// A well-formed deck holds only valid card values.
    pub open spec fn wf(self) -> bool {
        forall|i: int| 0 <= i < self.spec_cards().len() ==> (#[trigger] self.spec_cards()[i]) < 52
    }

    pub fn new() -> (r: Self)
        ensures
            r.spec_cards() == full_deck(),
            r.wf(),
    {
        Self::default()
    }

    /// Deals one card: the cursor output `r` picks a position modulo the
    /// number of cards left (a fresh deck is taken when none are), and the
    /// card there leaves the deck.
    pub fn deal(&mut self, r: u8) -> (card: Card)
        requires
            old(self).wf(),
        ensures
            card.spec_inner() == deck_dealt_card(old(self).spec_cards(), r),
            card.wf(),
            final(self).spec_cards() == deck_after_deal(old(self).spec_cards(), r),
            final(self).wf(),
    {
        let ghost cards0 = self.spec_cards();
        if av52_len(&self.cards) == 0 {
            self.cards = Self::cards_default();
            proof {
                assert forall|i: int|
                    0 <= i < self.spec_cards().len() implies (#[trigger] self.spec_cards()[i])
                    < 52 by {
                    assert(self.spec_cards()[i] == full_deck()[i]);
                }
            }
        }
        let len = av52_len(&self.cards);
        assert(self.spec_cards() == deck_effective(cards0));
        let idx = (r as usize) % len;
        let v = av52_remove(&mut self.cards, idx);
        proof {
            assert forall|i: int|
                0 <= i < self.spec_cards().len() implies (#[trigger] self.spec_cards()[i]) < 52 by {
                assert(self.spec_cards()[i] == deck_effective(cards0).remove(idx as int)[i]);
            }
        }
        Card(v)
    }

    fn cards_default() -> (r: arrayvec::ArrayVec<u8, 52>)
        ensures
            av52_contents(r) == full_deck(),
    {
        let arr: [u8; 52] = [
            0,
            1,
            2,
            3,
            4,
            5,
            6,
            7,
            8,
            9,
            10,
            11,
            12,
            13,
            14,
            15,
            16,
            17,
            18,
            19,
            20,
            21,
            22,
            23,
            24,
            25,
            26,
            27,
            28,
            29,
            30,
            31,
            32,
            33,
            34,
            35,
            36,
            37,
            38,
            39,
            40,
            41,
            42,
            43,
            44,
            45,
            46,
            47,
            48,
            49,
            50,
            51,
        ];
        proof {
            assert(arr@ =~= full_deck());
        }
        av52_from(arr)
    }
}

} // verus!
