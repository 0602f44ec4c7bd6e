use vstd::prelude::*;
use vstd::std_specs::iter::IteratorSpec;

verus! {

/// The four suits, in the order in which a deck is built.
#[derive(Debug, Clone, Copy, PartialEq, Eq, Structural)]
pub enum Suit {
    Clubs,
    Diamonds,
    Hearts,
    Spades,
}

impl Suit {
    /// Every suit once, in the order in which a deck is built.
    pub open spec fn all() -> Seq<Suit> {
        seq![Suit::Clubs, Suit::Diamonds, Suit::Hearts, Suit::Spades]
    }

    /// The English name of the suit, plural and capitalized.
    pub open spec fn name(&self) -> Seq<char> {
        match self {
            Suit::Clubs => "Clubs"@,
            Suit::Diamonds => "Diamonds"@,
            Suit::Hearts => "Hearts"@,
            Suit::Spades => "Spades"@,
        }
    }

    /// The English name of the suit, plural and capitalized.
    pub fn to_str(&self) -> (name: &'static str)
        ensures
            name@ == self.name(),
    {
        match self {
            Suit::Clubs => "Clubs",
            Suit::Diamonds => "Diamonds",
            Suit::Hearts => "Hearts",
            Suit::Spades => "Spades",
        }
    }

    /// Goes through every suit once, in the order in which a deck is built.
    pub fn iterator() -> (iter: std::vec::IntoIter<Suit>)
        ensures
            iter.remaining() == Suit::all(),
            iter.initial_value_relation(&iter),
            iter.decrease() is Some,
    {
        let suits: Vec<Suit> = vec![Suit::Clubs, Suit::Diamonds, Suit::Hearts, Suit::Spades];
        suits.into_iter()
    }
}

} // verus!
