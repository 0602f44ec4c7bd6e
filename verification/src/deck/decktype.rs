//! The deck variants that come with the library.

use crate::card::{Card, Color, Rank, Suit};
use crate::deck::DeckType;
use vstd::arithmetic::div_mod::lemma_fundamental_div_mod_converse;
use vstd::prelude::*;

verus! {

/// The number of cards of a standard deck.
pub const STANDARD_DECKSIZE: usize = 52;

/// The number of cards of a piquet deck.
pub const PIQUET_DECKSIZE: usize = 32;

/// The number of cards of a jass deck.
pub const JASS_DECKSIZE: usize = 36;

/// One standard card for each pair of a suit and a rank: suit by suit in the
/// order of `suits`, and within a suit rank by rank in the order of `ranks`.
pub open spec fn base_cards(ranks: Seq<Rank>, suits: Seq<Suit>) -> Seq<Card> {
    Seq::new(
        suits.len() * ranks.len(),
        |i: int| Card::Standard(ranks[i % (ranks.len() as int)], suits[i / (ranks.len() as int)]),
    )
}

/// One joker for each color, in the order of `colors`.
pub open spec fn jokers(colors: Seq<Color>) -> Seq<Card> {
    Seq::new(colors.len(), |i: int| Card::Joker(colors[i]))
}

/// The fifty-two cards of a standard deck.
pub open spec fn standard_cards() -> Seq<Card> {
    base_cards(Rank::all(), Suit::all())
}

/// The ranks of a piquet deck: the ace and seven to king.
pub open spec fn piquet_ranks() -> Seq<Rank> {
    seq![
        Rank::Ace,
        Rank::Seven,
        Rank::Eight,
        Rank::Nine,
        Rank::Ten,
        Rank::Jack,
        Rank::Queen,
        Rank::King,
    ]
}

/// The ranks of a jass deck: the ace and six to king.
pub open spec fn jass_ranks() -> Seq<Rank> {
    seq![
        Rank::Ace,
        Rank::Six,
        Rank::Seven,
        Rank::Eight,
        Rank::Nine,
        Rank::Ten,
        Rank::Jack,
        Rank::Queen,
        Rank::King,
    ]
}

/// The card of the `r`-th rank and the `s`-th suit stands at `s * ranks.len() + r`:
/// the cards of one suit stand together, earlier suits first.
pub proof fn lemma_base_cards_order(ranks: Seq<Rank>, suits: Seq<Suit>, s: int, r: int)
    requires
        0 <= s < suits.len(),
        0 <= r < ranks.len(),
    ensures
        0 <= s * ranks.len() + r < base_cards(ranks, suits).len(),
        base_cards(ranks, suits)[s * ranks.len() + r] == Card::Standard(ranks[r], suits[s]),
{
    let width = ranks.len() as int;
    let height = suits.len() as int;
    assert(0 <= s * width && s * width + width <= height * width) by (nonlinear_arith)
        requires
            0 <= s < height,
            0 <= width,
    ;
    lemma_fundamental_div_mod_converse(s * width + r, width, s, r);
}

/// The decks that come with the library have the sizes that their names
/// promise: 52 cards in a standard deck, 32 in a piquet deck, 36 in a jass deck.
pub proof fn lemma_deck_sizes()
    ensures
        standard_cards().len() == STANDARD_DECKSIZE,
        base_cards(piquet_ranks(), Suit::all()).len() == PIQUET_DECKSIZE,
        base_cards(jass_ranks(), Suit::all()).len() == JASS_DECKSIZE,
{
    assert(Suit::all().len() == 4);
    assert(Rank::all().len() == 13);
    assert(piquet_ranks().len() == 8);
    assert(jass_ranks().len() == 9);
}

/// Builds one standard card for each pair of a suit and a rank, suit by suit
/// and within a suit rank by rank.
pub fn base_deck(ranks: &[Rank], suits: &[Suit]) -> (cards: Vec<Card>)
    ensures
        cards@ == base_cards(ranks@, suits@),
{
    let mut cards: Vec<Card> = Vec::new();
    let mut s: usize = 0;
    while s < suits.len()
        invariant
            s <= suits.len(),
            cards@.len() == s * ranks.len(),
            forall|k: int| 0 <= k < cards@.len() ==> cards@[k] == base_cards(ranks@, suits@)[k],
        decreases suits.len() - s,
    {
        let mut r: usize = 0;
        while r < ranks.len()
            invariant
                s < suits.len(),
                r <= ranks.len(),
                cards@.len() == s * ranks.len() + r,
                forall|k: int| 0 <= k < cards@.len() ==> cards@[k] == base_cards(ranks@, suits@)[k],
            decreases ranks.len() - r,
        {
            proof {
                lemma_base_cards_order(ranks@, suits@, s as int, r as int);
            }
            cards.push(Card::Standard(ranks[r], suits[s]));
            r += 1;
        }
        assert(s * ranks.len() + ranks.len() == (s + 1) * ranks.len()) by (nonlinear_arith);
        s += 1;
    }
    cards
}

/// The four suits in the order in which a deck is built.
fn every_suit() -> (suits: [Suit; 4])
    ensures
        suits@ == Suit::all(),
{
    [Suit::Clubs, Suit::Diamonds, Suit::Hearts, Suit::Spades]
}

/// The standard deck of fifty-two cards: every rank in every suit.
pub struct Standard;

impl Standard {
    /// The ranks of the deck: all thirteen.
    pub fn ranks(&self) -> (ranks: Vec<Rank>)
        ensures
            ranks@ == Rank::all(),
    {
        vec![
            Rank::Ace,
            Rank::Two,
            Rank::Three,
            Rank::Four,
            Rank::Five,
            Rank::Six,
            Rank::Seven,
            Rank::Eight,
            Rank::Nine,
            Rank::Ten,
            Rank::Jack,
            Rank::Queen,
            Rank::King,
        ]
    }
}

impl DeckType for Standard {
    open spec fn spec_cards(&self) -> Seq<Card> {
        standard_cards()
    }

    fn cards(&self) -> (cards: Vec<Card>)
        ensures
            cards@.len() == STANDARD_DECKSIZE,
    {
        proof {
            lemma_deck_sizes();
        }
        let ranks = self.ranks();
        let suits = every_suit();
        base_deck(&ranks, &suits)
    }

    fn decksize(&self) -> (size: usize)
        ensures
            size == STANDARD_DECKSIZE,
            size == self.spec_cards().len(),
    {
        proof {
            lemma_deck_sizes();
        }
        STANDARD_DECKSIZE
    }
}

/// The piquet deck of thirty-two cards: the ace and seven to king in every suit.
pub struct Piquet;

impl Piquet {
    /// The ranks of the deck: the ace and seven to king.
    pub fn ranks(&self) -> (ranks: Vec<Rank>)
        ensures
            ranks@ == piquet_ranks(),
    {
        vec![
            Rank::Ace,
            Rank::Seven,
            Rank::Eight,
            Rank::Nine,
            Rank::Ten,
            Rank::Jack,
            Rank::Queen,
            Rank::King,
        ]
    }
}

impl DeckType for Piquet {
    open spec fn spec_cards(&self) -> Seq<Card> {
        base_cards(piquet_ranks(), Suit::all())
    }

    fn cards(&self) -> (cards: Vec<Card>)
        ensures
            cards@.len() == PIQUET_DECKSIZE,
    {
        proof {
            lemma_deck_sizes();
        }
        let ranks = self.ranks();
        let suits = every_suit();
        base_deck(&ranks, &suits)
    }

    fn decksize(&self) -> (size: usize)
        ensures
            size == PIQUET_DECKSIZE,
            size == self.spec_cards().len(),
    {
        proof {
            lemma_deck_sizes();
        }
        PIQUET_DECKSIZE
    }
}

/// The jass deck of thirty-six cards: the ace and six to king in every suit.
pub struct Jass;

impl Jass {
    /// The ranks of the deck: the ace and six to king.
    pub fn ranks(&self) -> (ranks: Vec<Rank>)
        ensures
            ranks@ == jass_ranks(),
    {
        vec![
            Rank::Ace,
            Rank::Six,
            Rank::Seven,
            Rank::Eight,
            Rank::Nine,
            Rank::Ten,
            Rank::Jack,
            Rank::Queen,
            Rank::King,
        ]
    }
}

impl DeckType for Jass {
    open spec fn spec_cards(&self) -> Seq<Card> {
        base_cards(jass_ranks(), Suit::all())
    }

    fn cards(&self) -> (cards: Vec<Card>)
        ensures
            cards@.len() == JASS_DECKSIZE,
    {
        proof {
            lemma_deck_sizes();
        }
        let ranks = self.ranks();
        let suits = every_suit();
        base_deck(&ranks, &suits)
    }

    fn decksize(&self) -> (size: usize)
        ensures
            size == JASS_DECKSIZE,
            size == self.spec_cards().len(),
    {
        proof {
            lemma_deck_sizes();
        }
        JASS_DECKSIZE
    }
}

/// The standard deck with jokers added: the fifty-two standard cards, then
/// one joker for each of the colors that the variant was made with.
pub struct StandardWithJokers {
    colors: Vec<Color>,
    decksize: usize,
}

impl StandardWithJokers {
    #[verifier::type_invariant]
    spec fn counts_every_card(&self) -> bool {
        self.decksize == STANDARD_DECKSIZE + self.colors@.len()
    }

    /// The colors of the jokers, in the order in which the deck holds them.
    pub closed spec fn colors(&self) -> Seq<Color> {
        self.colors@
    }

    /// The standard deck with a red and a black joker.
    pub fn new() -> (decktype: StandardWithJokers)
        ensures
            decktype.colors() == seq![Color::Red, Color::Black],
    {
        StandardWithJokers::from_colors(vec![Color::Red, Color::Black])
    }

    /// The standard deck with one joker for each of `colors`, in that order.
    ///
    /// The size of the deck has to fit into a `usize`.
    pub fn from_colors(colors: Vec<Color>) -> (decktype: StandardWithJokers)
        requires
            STANDARD_DECKSIZE + colors@.len() <= usize::MAX,
        ensures
            decktype.colors() == colors@,
    {
        let decksize: usize = STANDARD_DECKSIZE + colors.len();
        StandardWithJokers { colors, decksize }
    }
}

impl DeckType for StandardWithJokers {
    open spec fn spec_cards(&self) -> Seq<Card> {
        standard_cards() + jokers(self.colors())
    }

    fn cards(&self) -> (cards: Vec<Card>)
        ensures
            cards@.len() == STANDARD_DECKSIZE + self.colors().len(),
    {
        proof {
            lemma_deck_sizes();
        }
        let ranks = Standard.ranks();
        let suits = every_suit();
        let mut deck = base_deck(&ranks, &suits);
        let mut i: usize = 0;
        while i < self.colors.len()
            invariant
                i <= self.colors@.len(),
                deck@ == standard_cards() + jokers(self.colors@.take(i as int)),
            decreases self.colors@.len() - i,
        {
            deck.push(Card::Joker(self.colors[i]));
            i += 1;
        }
        assert(self.colors@.take(i as int) == self.colors@);
        deck
    }

    fn decksize(&self) -> (size: usize)
        ensures
            size == STANDARD_DECKSIZE + self.colors().len(),
            size == self.spec_cards().len(),
    {
        proof {
            use_type_invariant(self);
            lemma_deck_sizes();
        }
        self.decksize
    }
}

} // verus!
