use french_suited_playing_cards::card::Color::{Black, Red, White};
use french_suited_playing_cards::card::Rank::{
    Ace, Eight, Five, Four, Jack, King, Nine, Queen, Seven, Six, Ten, Three, Two,
};
use french_suited_playing_cards::card::Suit::{Clubs, Diamonds, Hearts, Spades};
use french_suited_playing_cards::card::{Rank, Suit};
use french_suited_playing_cards::deck::decktype::{
    base_deck, Jass, Piquet, Standard, StandardWithJokers, JASS_DECKSIZE, PIQUET_DECKSIZE,
    STANDARD_DECKSIZE,
};
use french_suited_playing_cards::deck::DeckType;
use french_suited_playing_cards::Card;

#[test]
fn check_ranks() {
    assert_eq!(Standard.ranks().len(), 13);
    assert_eq!(Piquet.ranks().len(), 8);
    assert_eq!(Jass.ranks().len(), 9);
}

#[test]
fn base_decks() {
    assert_eq!(Standard.cards().len(), STANDARD_DECKSIZE);
    assert_eq!(Standard.decksize(), STANDARD_DECKSIZE);

    assert_eq!(Piquet.cards().len(), PIQUET_DECKSIZE);
    assert_eq!(Piquet.decksize(), PIQUET_DECKSIZE);

    assert_eq!(Jass.cards().len(), JASS_DECKSIZE);
    assert_eq!(Jass.decksize(), JASS_DECKSIZE);
}

#[test]
fn standard() {
    let standard_with_two_jokers = StandardWithJokers::new();
    assert_eq!(standard_with_two_jokers.cards().len(), STANDARD_DECKSIZE + 2);
    assert_eq!(standard_with_two_jokers.decksize(), STANDARD_DECKSIZE + 2);

    let standard_with_three_jokers = StandardWithJokers::from_colors(vec![Red, Black, White]);
    assert_eq!(standard_with_three_jokers.cards().len(), STANDARD_DECKSIZE + 3);
    assert_eq!(standard_with_three_jokers.decksize(), STANDARD_DECKSIZE + 3);
}

#[test]
fn deck_sizes_are_52_32_and_36() {
    assert_eq!(STANDARD_DECKSIZE, 52);
    assert_eq!(PIQUET_DECKSIZE, 32);
    assert_eq!(JASS_DECKSIZE, 36);
    assert_eq!(Standard.cards().len(), 52);
    assert_eq!(Piquet.cards().len(), 32);
    assert_eq!(Piquet.decksize(), 32);
    assert_eq!(Jass.cards().len(), 36);
    assert_eq!(StandardWithJokers::from_colors(vec![Red, Black]).decksize(), 54);
    assert_eq!(StandardWithJokers::from_colors(vec![Red, Black, White]).cards().len(), 55);
}

#[test]
fn ranks_of_each_variant() {
    assert_eq!(
        Standard.ranks(),
        vec![Ace, Two, Three, Four, Five, Six, Seven, Eight, Nine, Ten, Jack, Queen, King]
    );
    assert_eq!(Piquet.ranks(), vec![Ace, Seven, Eight, Nine, Ten, Jack, Queen, King]);
    assert_eq!(Jass.ranks(), vec![Ace, Six, Seven, Eight, Nine, Ten, Jack, Queen, King]);
}

#[test]
fn base_deck_goes_suit_by_suit_and_rank_by_rank() {
    let cards = base_deck(&[Ace, King], &[Hearts, Clubs, Spades]);
    assert_eq!(
        cards,
        vec![
            Card::Standard(Ace, Hearts),
            Card::Standard(King, Hearts),
            Card::Standard(Ace, Clubs),
            Card::Standard(King, Clubs),
            Card::Standard(Ace, Spades),
            Card::Standard(King, Spades),
        ]
    );
}

#[test]
fn base_deck_without_ranks_or_suits_is_empty() {
    assert_eq!(base_deck(&[], &[Hearts, Clubs]), vec![]);
    assert_eq!(base_deck(&[Ace, King], &[]), vec![]);
    assert_eq!(base_deck(&[], &[]), vec![]);
}

#[test]
fn base_deck_repeats_what_it_is_given() {
    let cards = base_deck(&[Two, Two], &[Diamonds]);
    assert_eq!(cards, vec![Card::Standard(Two, Diamonds), Card::Standard(Two, Diamonds)]);
}

#[test]
fn standard_cards_stand_at_suit_times_thirteen_plus_rank() {
    let cards = Standard.cards();
    let ranks: Vec<Rank> = Rank::iterator().collect();
    let suits: Vec<Suit> = Suit::iterator().collect();
    for s in 0..4 {
        for r in 0..13 {
            assert_eq!(cards[s * 13 + r], Card::Standard(ranks[r], suits[s]));
        }
    }
    assert_eq!(cards[0], Card::Standard(Ace, Clubs));
    assert_eq!(cards[12], Card::Standard(King, Clubs));
    assert_eq!(cards[13], Card::Standard(Ace, Diamonds));
    assert_eq!(cards[51], Card::Standard(King, Spades));
}

#[test]
fn piquet_holds_ace_and_seven_to_king() {
    let cards = Piquet.cards();
    assert_eq!(
        cards[..8],
        [
            Card::Standard(Ace, Clubs),
            Card::Standard(Seven, Clubs),
            Card::Standard(Eight, Clubs),
            Card::Standard(Nine, Clubs),
            Card::Standard(Ten, Clubs),
            Card::Standard(Jack, Clubs),
            Card::Standard(Queen, Clubs),
            Card::Standard(King, Clubs),
        ]
    );
    assert_eq!(cards[8], Card::Standard(Ace, Diamonds));
    assert_eq!(cards[31], Card::Standard(King, Spades));
    for low in [Two, Three, Four, Five, Six] {
        for suit in Suit::iterator() {
            assert!(!cards.contains(&Card::Standard(low, suit)));
        }
    }
}

#[test]
fn jass_holds_ace_and_six_to_king() {
    let cards = Jass.cards();
    assert_eq!(cards[0], Card::Standard(Ace, Clubs));
    assert_eq!(cards[1], Card::Standard(Six, Clubs));
    assert_eq!(cards[8], Card::Standard(King, Clubs));
    assert_eq!(cards[9], Card::Standard(Ace, Diamonds));
    assert_eq!(cards[35], Card::Standard(King, Spades));
    for low in [Two, Three, Four, Five] {
        for suit in Suit::iterator() {
            assert!(!cards.contains(&Card::Standard(low, suit)));
        }
    }
}

#[test]
fn jokers_follow_the_standard_cards_in_their_order() {
    let cards = StandardWithJokers::from_colors(vec![White, Red, White]).cards();
    assert_eq!(cards.len(), 55);
    assert_eq!(cards[..52], Standard.cards()[..]);
    assert_eq!(cards[52..], [Card::Joker(White), Card::Joker(Red), Card::Joker(White)]);

    let two = StandardWithJokers::new().cards();
    assert_eq!(two[52..], [Card::Joker(Red), Card::Joker(Black)]);
}

#[test]
fn no_colors_give_the_standard_deck() {
    let bare = StandardWithJokers::from_colors(vec![]);
    assert_eq!(bare.decksize(), 52);
    assert_eq!(bare.cards(), Standard.cards());
}

#[test]
fn cards_are_the_same_at_every_call() {
    assert_eq!(Standard.cards(), Standard.cards());
    assert_eq!(Piquet.cards(), Piquet.cards());
    assert_eq!(Jass.cards(), Jass.cards());
    let with_jokers = StandardWithJokers::from_colors(vec![Black, White]);
    assert_eq!(with_jokers.cards(), with_jokers.cards());
}

struct Euchre;

impl DeckType for Euchre {
    fn cards(&self) -> Vec<Card> {
        base_deck(&[Nine, Ten, Jack, Queen, King, Ace], &[Clubs, Diamonds, Hearts, Spades])
    }
}

#[test]
fn a_variant_of_ones_own_counts_its_cards() {
    assert_eq!(Euchre.cards().len(), 24);
    assert_eq!(Euchre.decksize(), 24);
}
