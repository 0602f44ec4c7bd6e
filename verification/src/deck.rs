//! The deck, and the description of a deck variant that it is built from.

pub mod decktype;
pub mod model;
mod random;

use crate::card::{Card, Color, Rank, Suit};
use decktype::{lemma_deck_sizes, standard_cards, Standard, STANDARD_DECKSIZE};
use model::{
    differs_from, draw_one, lemma_pivot_swaps_permute, lemma_without_holds_none, picks_in_range,
    pivot_swap, pivot_swaps, shuffled_from, without,
};
use random::random_index;
use vstd::prelude::*;

verus! {

/// The number of swaps that [`Deck::shuffle`] makes.
pub const SHUFFLE_SWAPS: usize = 1000;

/// A deck variant: which cards a deck of that kind holds, and in which order.
///
/// A variant always describes the same cards: `spec_cards` names what every
/// call of `cards` returns. A variant written in verified code says there
/// which cards these are; one written in plain Rust leaves `spec_cards` out
/// and writes `cards` alone.
pub trait DeckType {
    /// The cards of the variant, in the order in which a new deck holds them.
    open spec fn spec_cards(&self) -> Seq<Card> {
        arbitrary()
    }

    /// The cards of the variant, in the order in which a new deck holds them.
    fn cards(&self) -> (cards: Vec<Card>)
        ensures
            cards@ == self.spec_cards(),
    ;

    /// The number of cards of the variant. Unless a variant says otherwise,
    /// this is the number of cards that `cards` returns.
    fn decksize(&self) -> (size: usize)
        default_ensures
            size == self.spec_cards().len(),
    {
        self.cards().len()
    }
}

/// A variant can be asked for its cards again and again: any two answers
/// hold the same cards in the same order.
pub proof fn lemma_cards_repeat<T: DeckType + ?Sized>(
    decktype: &T,
    first: Vec<Card>,
    second: Vec<Card>,
)
    requires
        call_ensures(T::cards, (decktype,), first),
        call_ensures(T::cards, (decktype,), second),
    ensures
        first@ == second@,
        first@ == decktype.spec_cards(),
{
}

/// A stack of cards. The top of the deck is the end of the sequence: a card
/// that is added goes there, and a card that is drawn comes from there.
///
/// A deck is built from a [`DeckType`] and keeps it, but is free to grow and
/// shrink afterwards: its cards need not stay those of the variant.
pub struct Deck {
    /// The variant that the deck was built from. The deck keeps it for its
    /// owner and does not ask it again.
    #[allow(dead_code)]
    decktype: Box<dyn DeckType>,
    /// The cards from the bottom of the deck to its top.
    cards: Vec<Card>,
}

impl View for Deck {
    type V = Seq<Card>;

    /// The cards of the deck from bottom to top.
    closed spec fn view(&self) -> Seq<Card> {
        self.cards@
    }
}

impl Deck {
    /// A standard deck of fifty-two cards in their order, the king of spades
    /// on top.
    pub fn new() -> (deck: Deck)
        ensures
            deck@ == standard_cards(),
    {
        let decktype = Box::new(Standard);
        let cards = decktype.cards();
        Deck { decktype, cards }
    }

    /// A standard deck of fifty-two cards, shuffled.
    pub fn shuffled() -> (deck: Deck)
        ensures
            shuffled_from(deck@, standard_cards(), SHUFFLE_SWAPS as nat),
            deck@.len() == standard_cards().len(),
            deck@.to_multiset() == standard_cards().to_multiset(),
    {
        proof {
            lemma_deck_sizes();
        }
        let mut deck = Deck::new();
        deck.shuffle();
        deck
    }

    /// A standard deck without a card in it, with room for fifty-two.
    pub fn empty() -> (deck: Deck)
        ensures
            deck@ == Seq::<Card>::empty(),
            deck.reserved(STANDARD_DECKSIZE),
    {
        let decktype = Box::new(Standard);
        let cards = Vec::with_capacity(decktype.decksize());
        Deck { decktype, cards }
    }

    /// A deck that holds the cards of `decktype` in their order.
    pub fn new_from_decktype<T: DeckType + 'static>(decktype: Box<T>) -> (deck: Deck)
        ensures
            deck@ == decktype.spec_cards(),
    {
        let cards = decktype.cards();
        Deck { decktype, cards }
    }

    /// A deck that holds the cards of `decktype`, shuffled.
    ///
    /// A deck that is to be shuffled holds at least two cards.
    pub fn shuffled_from_decktype<T: DeckType + 'static>(decktype: Box<T>) -> (deck: Deck)
        requires
            decktype.spec_cards().len() >= 2,
        ensures
            shuffled_from(deck@, decktype.spec_cards(), SHUFFLE_SWAPS as nat),
            deck@.len() == decktype.spec_cards().len(),
            deck@.to_multiset() == decktype.spec_cards().to_multiset(),
    {
        let mut deck = Deck::new_from_decktype(decktype);
        deck.shuffle();
        deck
    }

    /// A deck of `decktype` without a card in it, with room for as many as `decksize` says.
    pub fn empty_from_decktype<T: DeckType + 'static>(decktype: Box<T>) -> (deck: Deck)
        ensures
            deck@ == Seq::<Card>::empty(),
            exists|size: usize|
                call_ensures(T::decksize, (&*decktype,), size) && #[trigger] deck.reserved(size),
    {
        let size: usize = decktype.decksize();
        let cards = Vec::with_capacity(size);
        let deck = Deck { decktype, cards };
        assert(deck.reserved(size));
        deck
    }

    /// The number of cards that the deck holds now.
    pub fn size(&self) -> (size: usize)
        ensures
            size == self@.len(),
    {
        self.cards.len()
    }

    /// Puts `card` on top of the deck.
    pub fn add_card(&mut self, card: Card)
        ensures
            final(self)@ == old(self)@.push(card),
    {
        self.cards.push(card);
    }

    /// Puts the standard card of `rank` and `suit` on top of the deck.
    pub fn add_standard(&mut self, rank: Rank, suit: Suit)
        ensures
            final(self)@ == old(self)@.push(Card::Standard(rank, suit)),
    {
        self.cards.push(Card::Standard(rank, suit));
    }

    /// Puts the joker of `color` on top of the deck.
    pub fn add_joker(&mut self, color: Color)
        ensures
            final(self)@ == old(self)@.push(Card::Joker(color)),
    {
        self.cards.push(Card::Joker(color));
    }

    /// Takes the top card off the deck and returns it. An empty deck gives
    /// no card and stays empty.
    pub fn draw(&mut self) -> (card: Option<Card>)
        ensures
            (card, final(self)@) == draw_one(old(self)@),
    {
        self.cards.pop()
    }

    /// Exchanges the bottom card with the card at `pick`.
    fn swap_with_first(&mut self, pick: usize)
        requires
            1 <= pick < old(self)@.len(),
        ensures
            final(self)@ == pivot_swap(old(self)@, pick as int),
    {
        let first = self.cards[0];
        let other = self.cards[pick];
        self.cards[0] = other;
        self.cards[pick] = first;
    }

    /// Shuffles the deck by the swaps that `picks` names: for each pick in
    /// turn, the bottom card changes places with the card at that index.
    ///
    /// This is the shuffle with the random choices handed in, for callers
    /// that bring their own source of randomness or want a shuffle that can
    /// be repeated.
    pub fn shuffle_with(&mut self, picks: &[usize])
        requires
            picks_in_range(picks@, old(self)@.len()),
        ensures
            final(self)@ == pivot_swaps(old(self)@, picks@),
            final(self)@.len() == old(self)@.len(),
            final(self)@.to_multiset() == old(self)@.to_multiset(),
    {
        let mut done: usize = 0;
        while done < picks.len()
            invariant
                done <= picks@.len(),
                picks_in_range(picks@, old(self)@.len()),
                self@.len() == old(self)@.len(),
                self@ == pivot_swaps(old(self)@, picks@.take(done as int)),
            decreases picks@.len() - done,
        {
            proof {
                assert(picks@.take(done + 1).drop_last() == picks@.take(done as int));
            }
            self.swap_with_first(picks[done]);
            done += 1;
        }
        proof {
            assert(picks@.take(done as int) == picks@);
            lemma_pivot_swaps_permute(old(self)@, picks@);
        }
    }

    /// Shuffles the deck by `n` swaps: each one exchanges the bottom card
    /// with another card of the deck, drawn at random with the same chance
    /// for each. The cards stay the same, only their order changes.
    ///
    /// This is not an even shuffle. Every swap goes through the bottom of
    /// the deck, so after few swaps most cards lie where they lay, and even
    /// after many the orders are not all equally likely.
    ///
    /// A deck that is to be shuffled holds at least two cards.
    pub fn shuffle_n_times(&mut self, n: usize)
        requires
            n > 0 ==> old(self)@.len() >= 2,
        ensures
            shuffled_from(final(self)@, old(self)@, n as nat),
            final(self)@.len() == old(self)@.len(),
            final(self)@.to_multiset() == old(self)@.to_multiset(),
            n == 0 ==> final(self)@ == old(self)@,
    {
        let ghost mut picks: Seq<usize> = Seq::empty();
        let mut done: usize = 0;
        while done < n
            invariant
                done <= n,
                n > 0 ==> old(self)@.len() >= 2,
                picks.len() == done,
                picks_in_range(picks, old(self)@.len()),
                self@.len() == old(self)@.len(),
                self@ == pivot_swaps(old(self)@, picks),
            decreases n - done,
        {
            let pick: usize = random_index(1, self.cards.len());
            self.swap_with_first(pick);
            proof {
                assert(picks.push(pick).drop_last() == picks);
                picks = picks.push(pick);
            }
            done += 1;
        }
        proof {
            lemma_pivot_swaps_permute(old(self)@, picks);
        }
    }

    /// Shuffles the deck by [`SHUFFLE_SWAPS`] random swaps, as
    /// [`Deck::shuffle_n_times`] does.
    ///
    /// A deck that is to be shuffled holds at least two cards.
    pub fn shuffle(&mut self)
        requires
            old(self)@.len() >= 2,
        ensures
            shuffled_from(final(self)@, old(self)@, SHUFFLE_SWAPS as nat),
            final(self)@.len() == old(self)@.len(),
            final(self)@.to_multiset() == old(self)@.to_multiset(),
    {
        self.shuffle_n_times(SHUFFLE_SWAPS);
    }

    /// Takes every card equal to `card` out of the deck: not one copy of it
    /// but all, however many there are. The other cards stay in their order.
    pub fn remove_matches(&mut self, card: Card)
        ensures
            final(self)@ == without(old(self)@, card),
            !final(self)@.contains(card),
    {
        let mut kept: Vec<Card> = Vec::new();
        let mut i: usize = 0;
        while i < self.cards.len()
            invariant
                i <= self.cards@.len(),
                self.cards@ == old(self).cards@,
                kept@ == without(self.cards@.take(i as int), card),
            decreases self.cards@.len() - i,
        {
            proof {
                let seen = self.cards@.take(i as int);
                assert(self.cards@.take(i + 1) == seen.push(self.cards@[i as int]));
                seen.lemma_filter_push(self.cards@[i as int], differs_from(card));
            }
            if self.cards[i] != card {
                kept.push(self.cards[i]);
            }
            i += 1;
        }
        proof {
            assert(self.cards@.take(i as int) == self.cards@);
            lemma_without_holds_none(self.cards@, card);
        }
        self.cards = kept;
    }
}

impl Deck {
    /// Whether the deck is as it comes from a request for room for `size`
    /// cards: its cards are what `Vec::with_capacity` gave when it was
    /// called with `size`, no card yet and room for `size` of them.
    pub closed spec fn reserved(&self, size: usize) -> bool {
        call_ensures(Vec::<Card>::with_capacity, (size,), self.cards)
    }
}

} // verus!
