//! The card vocabulary: ranks, suits, joker colors and the card itself.

pub mod color;
pub mod rank;
pub mod suit;

pub use color::Color;
pub use rank::Rank;
pub use suit::Suit;

use vstd::prelude::*;
use vstd::string::StringExecFns;

verus! {

/// Either a standard card with a rank and a suit or a joker with a color.
///
/// Two cards are equal exactly when they are the same variant with the same
/// fields. The accessors each apply to one variant only: a caller tells the
/// variants apart first, by matching or with [`Card::is_standard`] and
/// [`Card::is_joker`].
#[derive(Debug, Clone, Copy, PartialEq, Eq, Structural)]
pub enum Card {
    Standard(Rank, Suit),
    Joker(Color),
}

impl Card {
    /// The rank of a standard card.
    pub open spec fn spec_rank(&self) -> Rank
        recommends
            self is Standard,
    {
        self->Standard_0
    }

    /// The suit of a standard card.
    pub open spec fn spec_suit(&self) -> Suit
        recommends
            self is Standard,
    {
        self->Standard_1
    }

    /// The rank and the suit of a standard card.
    pub open spec fn spec_rank_and_suit(&self) -> (Rank, Suit)
        recommends
            self is Standard,
    {
        (self->Standard_0, self->Standard_1)
    }

    /// The color of a joker.
    pub open spec fn spec_color(&self) -> Color
        recommends
            self is Joker,
    {
        self->Joker_0
    }

    /// The text that names the card: rank and suit as in "Ace of Spades", or
    /// the color of a joker as in "Red joker".
    pub open spec fn name(&self) -> Seq<char> {
        match self {
            Card::Standard(rank, suit) => rank.name() + " of "@ + suit.name(),
            Card::Joker(color) => color.name() + " joker"@,
        }
    }

    /// Whether the card has a rank and a suit.
    pub fn is_standard(&self) -> (yes: bool)
        ensures
            yes == (self is Standard),
    {
        match self {
            Card::Standard(_, _) => true,
            Card::Joker(_) => false,
        }
    }

    /// Whether the card is a joker.
    pub fn is_joker(&self) -> (yes: bool)
        ensures
            yes == (self is Joker),
    {
        match self {
            Card::Standard(_, _) => false,
            Card::Joker(_) => true,
        }
    }

    /// The rank of a standard card. A joker has none.
    #[verifier::when_used_as_spec(spec_rank)]
    pub fn rank(&self) -> (rank: Rank)
        requires
            self is Standard,
        ensures
            rank == self.spec_rank(),
    {
        match self {
            Card::Standard(rank, _) => *rank,
            Card::Joker(_) => unreached(),
        }
    }

    /// The suit of a standard card. A joker has none.
    #[verifier::when_used_as_spec(spec_suit)]
    pub fn suit(&self) -> (suit: Suit)
        requires
            self is Standard,
        ensures
            suit == self.spec_suit(),
    {
        match self {
            Card::Standard(_, suit) => *suit,
            Card::Joker(_) => unreached(),
        }
    }

    /// The rank and the suit of a standard card. A joker has neither.
    #[verifier::when_used_as_spec(spec_rank_and_suit)]
    pub fn rank_and_suit(&self) -> (parts: (Rank, Suit))
        requires
            self is Standard,
        ensures
            parts == self.spec_rank_and_suit(),
    {
        match self {
            Card::Standard(rank, suit) => (*rank, *suit),
            Card::Joker(_) => unreached(),
        }
    }

    /// The color of a joker. A standard card has none.
    #[verifier::when_used_as_spec(spec_color)]
    pub fn color(&self) -> (color: Color)
        requires
            self is Joker,
        ensures
            color == self.spec_color(),
    {
        match self {
            Card::Standard(_, _) => unreached(),
            Card::Joker(color) => *color,
        }
    }

    /// The text that names the card, as in "Ace of Spades" or "Red joker".
    pub fn to_string(&self) -> (text: String)
        ensures
            text@ == self.name(),
    {
        match self {
            Card::Standard(rank, suit) => {
                let mut text = String::from_str(rank.to_str());
                text.append(" of ");
                text.append(suit.to_str());
                text
            },
            Card::Joker(color) => {
                let mut text = String::from_str(color.to_str());
                text.append(" joker");
                text
            },
        }
    }

    /// What was put into a card is what its accessors give back: rank and
    /// suit of a standard card, color of a joker.
    pub proof fn lemma_accessors_give_parts(rank: Rank, suit: Suit, color: Color)
        ensures
            Card::Standard(rank, suit).rank() == rank,
            Card::Standard(rank, suit).suit() == suit,
            Card::Standard(rank, suit).rank_and_suit() == (rank, suit),
            Card::Joker(color).color() == color,
    {
    }
}

} // verus!
