//! The poker oracle: deals a five-card hand and a fixed number of exchange
//! cards from a fresh deck, and pays out on a royal flush — the only hand
//! the payout model tracks. The number of cursor outputs consumed is always
//! the whole declared length, even when the outcome is decided early, so
//! that search depth accounting stays exact.

use vstd::prelude::*;

use crate::cursor::Rng;
use crate::cursor::lemma_advance_chain;
use crate::cursor::rng_advance_spec;
use crate::cursor::rng_outputs;
use crate::trump::Deck;
use crate::trump::deck_dealt_card;
use crate::trump::lemma_sim_deals_wf;
use crate::trump::sim_dealt;
use crate::trump::sim_deck;

verus! {

/// What one poker play costs: two coins at the hundred-dollar unit.
pub const COST_POKER: u32 = 200;

/// The rank set of a royal flush: ace, ten, jack, queen, king.
pub const MASK_ROYAL: u32 = (1 << 9) | (1 << 10) | (1 << 11) | (1 << 12) | (1 << 0);

/// The rank bit of a card value.
pub open spec fn rank_bit(card: u8) -> u32 {
    1u32 << ((card % 13) as u32)
}

/// The suit a card value belongs to, as an index.
pub open spec fn suit_index(card: u8) -> int {
    card as int / 13
}

/// The rank bits of those of the first `n` cards that belong to suit `s`.
pub open spec fn mask_prefix(cards: Seq<u8>, s: int, n: int) -> u32
    decreases n,
{
    if n <= 0 {
        0
    } else if suit_index(cards[n - 1]) == s {
        mask_prefix(cards, s, n - 1) | rank_bit(cards[n - 1])
    } else {
        mask_prefix(cards, s, n - 1)
    }
}

/// Whether the exchange cards from position `i` on complete a royal flush,
/// given the hand's bits in the exchange suit (`mask_cur`) and the bits of
/// the exchange cards taken so far (`mask_new`). Every exchange card must
/// belong to the same suit, add a new rank, and hold a royal rank; the
/// check succeeds the moment the union covers the royal set.
pub open spec fn royal_from_exchange(
    mask_cur: u32,
    mask_new: u32,
    suit: int,
    cards: Seq<u8>,
    i: int,
) -> bool
    decreases cards.len() - i,
{
    if i < 0 || i >= cards.len() {
        false
    } else {
        let c = cards[i];
        if suit_index(c) != suit {
            false
        } else if mask_new & rank_bit(c) != 0 {
            false
        } else if !MASK_ROYAL & rank_bit(c) != 0 {
            false
        } else {
            let m2 = mask_new | rank_bit(c);
            if (mask_cur | m2) & MASK_ROYAL == MASK_ROYAL {
                true
            } else {
                royal_from_exchange(mask_cur, m2, suit, cards, i + 1)
            }
        }
    }
}

/// Whether the dealt cards pay as a royal flush: either the first five
/// cards hold one outright, or the exchange cards (the sixth on) complete
/// one in a single suit.
pub open spec fn royal_spec(cards: Seq<u8>) -> bool {
    if mask_prefix(cards, 0, 5) == MASK_ROYAL || mask_prefix(cards, 1, 5) == MASK_ROYAL
        || mask_prefix(cards, 2, 5) == MASK_ROYAL || mask_prefix(cards, 3, 5) == MASK_ROYAL {
        true
    } else if cards.len() <= 5 {
        false
    } else {
        let c0 = cards[5];
        if !MASK_ROYAL & rank_bit(c0) != 0 {
            false
        } else {
            let suit = suit_index(c0);
            royal_from_exchange(mask_prefix(cards, suit, 5), rank_bit(c0), suit, cards, 6)
        }
    }
}

/// The net income of one poker play resolved by the outputs `rs`: the
/// royal-flush payout less the cost, or the bare cost lost.
#[verifier::opaque]
pub open spec fn poker_income_spec(rs: Seq<u8>) -> int {
    if royal_spec(sim_dealt(rs)) {
        50000 - COST_POKER
    } else {
        -(COST_POKER as int)
    }
}

/// Plays poker, consuming exactly `rng_len` cursor outputs, and returns the
/// net income.
#[verifier::rlimit(100)]
pub fn play_poker(rng: &mut Rng, rng_len: usize) -> (income: i32)
    requires
        5 <= rng_len <= 10,
    ensures
        income == poker_income_spec(rng_outputs(old(rng).spec_index(), rng_len as nat)),
        -(COST_POKER as int) <= income <= 50000 - COST_POKER,
        final(rng).spec_index() == rng_advance_spec(old(rng).spec_index(), rng_len as int),
{
    let ghost start = old(rng).spec_index();
    let ghost rs = rng_outputs(start, rng_len as nat);
    let ghost dealt = sim_dealt(rs);
    proof {
        reveal(poker_income_spec);
        lemma_sim_deals_wf(rs);
    }

    let mut deck = Deck::new();
    let mut mask0: u32 = 0;
    let mut mask1: u32 = 0;
    let mut mask2: u32 = 0;
    let mut mask3: u32 = 0;

    let mut i: usize = 0;
    while i < 5
        invariant
            i <= 5,
            5 <= rng_len <= 10,
            rs == rng_outputs(start, rng_len as nat),
            dealt == sim_dealt(rs),
            rng.spec_index() == rng_advance_spec(start, i as int),
            deck.wf(),
            deck.spec_cards() == sim_deck(rs.take(i as int)),
            mask0 == mask_prefix(dealt, 0, i as int),
            mask1 == mask_prefix(dealt, 1, i as int),
            mask2 == mask_prefix(dealt, 2, i as int),
            mask3 == mask_prefix(dealt, 3, i as int),
        decreases 5 - i,
    {
        let r = rng.gen();
        proof {
            lemma_advance_chain(start, i as int);
            assert(r == rs[i as int]);
            lemma_sim_step(rs, i as int);
        }
        let card = deck.deal(r);
        proof {
            assert(card.spec_inner() == dealt[i as int]);
        }
        let s = card.suit().inner();
        let bit: u32 = 1u32 << (card.rank().inner() as u32);
        proof {
            assert(bit == rank_bit(dealt[i as int]));
            assert(s as int == suit_index(dealt[i as int]));
        }
        if s == 0 {
            mask0 = mask0 | bit;
        } else if s == 1 {
            mask1 = mask1 | bit;
        } else if s == 2 {
            mask2 = mask2 | bit;
        } else {
            mask3 = mask3 | bit;
        }
        i = i + 1;
    }

    // Every card must be drawn before the outcome is reported, to keep the
    // output consumption equal to the declared length.
    let exchange_count = rng_len - 5;
    let mut cards_new: Vec<crate::trump::Card> = Vec::new();
    let mut k: usize = 0;
    while k < exchange_count
        invariant
            k <= exchange_count,
            exchange_count == rng_len - 5,
            5 <= rng_len <= 10,
            rs == rng_outputs(start, rng_len as nat),
            dealt == sim_dealt(rs),
            dealt.len() == rng_len,
            rng.spec_index() == rng_advance_spec(start, 5 + k as int),
            deck.wf(),
            deck.spec_cards() == sim_deck(rs.take(5 + k as int)),
            cards_new@.len() == k,
            forall|j: int|
                0 <= j < k ==> (#[trigger] cards_new@[j]).spec_inner() == dealt[5 + j]
                    && cards_new@[j].wf(),
        decreases exchange_count - k,
    {
        let r = rng.gen();
        proof {
            lemma_advance_chain(start, 5 + k as int);
            assert(r == rs[5 + k as int]);
            lemma_sim_step(rs, 5 + k as int);
        }
        let card = deck.deal(r);
        proof {
            assert(card.spec_inner() == dealt[5 + k as int]);
        }
        cards_new.push(card);
        k = k + 1;
    }
    proof {
        reveal(poker_income_spec);
        assert(dealt.len() == rng_len);
        assert(mask_prefix(dealt, 0, 5) == mask0);
    }

    // A royal flush already in the first five cards of some suit.
    if mask0 == MASK_ROYAL || mask1 == MASK_ROYAL || mask2 == MASK_ROYAL || mask3 == MASK_ROYAL {
        return 50000 - COST_POKER as i32;
    }

    // Without an exchange there is nothing more to pay on.
    if exchange_count == 0 {
        return -(COST_POKER as i32);
    }

    // The first exchange card fixes the suit the rest must follow.
    let card0 = cards_new[0];
    let mask_new0: u32 = 1u32 << (card0.rank().inner() as u32);
    if (!MASK_ROYAL & mask_new0) != 0 {
        return -(COST_POKER as i32);
    }
    let suit0 = card0.suit().inner();
    let mask_cur: u32 = if suit0 == 0 {
        mask0
    } else if suit0 == 1 {
        mask1
    } else if suit0 == 2 {
        mask2
    } else {
        mask3
    };
    proof {
        assert(mask_cur == mask_prefix(dealt, suit_index(dealt[5]), 5));
        assert(mask_new0 == rank_bit(dealt[5]));
        assert(royal_spec(dealt) == royal_from_exchange(
            mask_cur,
            mask_new0,
            suit_index(dealt[5]),
            dealt,
            6,
        ));
    }

    let mut mask_new = mask_new0;
    let mut j: usize = 1;
    while j < exchange_count
        invariant
            1 <= j <= exchange_count,
            exchange_count == rng_len - 5,
            5 <= rng_len <= 10,
            start == old(rng).spec_index(),
            rs == rng_outputs(start, rng_len as nat),
            dealt == sim_dealt(rs),
            dealt.len() == rng_len,
            cards_new@.len() == exchange_count,
            forall|m: int|
                0 <= m < exchange_count ==> (#[trigger] cards_new@[m]).spec_inner() == dealt[5 + m]
                    && cards_new@[m].wf(),
            card0 == cards_new@[0],
            suit0 as int == suit_index(dealt[5]),
            rng.spec_index() == rng_advance_spec(start, rng_len as int),
            royal_spec(dealt) == royal_from_exchange(
                mask_cur,
                mask_new,
                suit_index(dealt[5]),
                dealt,
                5 + j as int,
            ),
        decreases exchange_count - j,
    {
        let card = cards_new[j];
        proof {
            reveal(poker_income_spec);
            assert(card.spec_inner() == dealt[5 + j as int]);
        }
        if card.suit().inner() != suit0 {
            return -(COST_POKER as i32);
        }
        let bit: u32 = 1u32 << (card.rank().inner() as u32);
        proof {
            assert(bit == rank_bit(dealt[5 + j as int]));
        }
        if (mask_new & bit) != 0 {
            return -(COST_POKER as i32);
        }
        if (!MASK_ROYAL & bit) != 0 {
            return -(COST_POKER as i32);
        }
        mask_new = mask_new | bit;
        if ((mask_cur | mask_new) & MASK_ROYAL) == MASK_ROYAL {
            return 50000 - COST_POKER as i32;
        }
        j = j + 1;
    }

    -(COST_POKER as i32)
}

/// One more deal takes `deck_dealt_card` from the deck so far and leaves
/// `deck_after_deal` of it: the step the dealing loops take.
proof fn lemma_sim_step(rs: Seq<u8>, n: int)
    requires
        0 <= n < rs.len(),
    ensures
        sim_deck(rs.take(n + 1)) == crate::trump::deck_after_deal(sim_deck(rs.take(n)), rs[n]),
        sim_dealt(rs).len() == rs.len(),
        sim_dealt(rs)[n] == deck_dealt_card(sim_deck(rs.take(n)), rs[n]),
{
    lemma_take_one_more(rs, n);
    lemma_sim_dealt_prefix(rs, n + 1);
    assert(sim_dealt(rs.take(n + 1)) == sim_dealt(rs.take(n)).push(
        deck_dealt_card(sim_deck(rs.take(n)), rs[n]),
    ));
    assert(sim_dealt(rs).take(n + 1).last() == sim_dealt(rs)[n]);
}

/// Taking one more element appends exactly that element.
proof fn lemma_take_one_more(rs: Seq<u8>, i: int)
    requires
        0 <= i < rs.len(),
    ensures
        rs.take(i + 1).drop_last() == rs.take(i),
        rs.take(i + 1).last() == rs[i],
{
    assert(rs.take(i + 1).drop_last() =~= rs.take(i));
}

/// The cards dealt by a prefix of the outputs are the prefix of the cards
/// dealt by all of them.
proof fn lemma_sim_dealt_prefix(rs: Seq<u8>, m: int)
    requires
        0 <= m <= rs.len(),
    ensures
        sim_dealt(rs).take(m) == sim_dealt(rs.take(m)),
        sim_dealt(rs).len() == rs.len(),
    decreases rs.len(),
{
    if rs.len() == 0 {
        assert(sim_dealt(rs).take(m) =~= sim_dealt(rs.take(m)));
    } else {
        lemma_sim_dealt_prefix(rs.drop_last(), if m > rs.len() - 1 {
            rs.len() - 1
        } else {
            m
        });
        if m == rs.len() {
            assert(rs.take(m) =~= rs);
            assert(sim_dealt(rs).take(m) =~= sim_dealt(rs));
        } else {
            assert(rs.drop_last().take(m) =~= rs.take(m));
            assert(sim_dealt(rs).take(m) =~= sim_dealt(rs.drop_last()).take(m));
        }
    }
}

} // verus!
