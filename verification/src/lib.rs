//! Playing cards and decks for card games.
//!
//! A [`Card`] is either a standard card with a rank and a suit or a joker
//! with a color. A [`Deck`] is a stack of cards that is built from a
//! [`deck::DeckType`], the description of a deck variant, and can then be
//! shuffled, drawn from and changed card by card.
//!
//! Every function states what it does over the cards as a sequence, and the
//! statements are proved. The one thing taken on trust is the draw of a
//! random index for shuffling, which the `rand` crate makes.

pub mod card;
pub mod deck;

pub use card::Card;
pub use deck::Deck;
