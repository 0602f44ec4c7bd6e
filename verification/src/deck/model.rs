//! The deck as a sequence of cards, bottom card first: what adding, drawing,
//! removing and shuffling make of it, and what follows from that.

use crate::card::Card;
use vstd::prelude::*;
use vstd::seq_lib::to_multiset_update;

verus! {

/// The deck after each of `added` was put on top of it, in their order.
pub open spec fn add_many(cards: Seq<Card>, added: Seq<Card>) -> Seq<Card>
    decreases added.len(),
{
    if added.len() == 0 {
        cards
    } else {
        add_many(cards.push(added.first()), added.drop_first())
    }
}

/// What one draw gives and what it leaves: the top card and the cards under
/// it, or no card and the empty deck as it was.
pub open spec fn draw_one(cards: Seq<Card>) -> (Option<Card>, Seq<Card>) {
    if cards.len() > 0 {
        (Some(cards.last()), cards.drop_last())
    } else {
        (None, cards)
    }
}

/// What `count` draws in a row give, in the order in which they come, and
/// what they leave.
pub open spec fn draw_many(cards: Seq<Card>, count: nat) -> (Seq<Option<Card>>, Seq<Card>)
    decreases count,
{
    if count == 0 {
        (Seq::empty(), cards)
    } else {
        let (first, rest) = draw_one(cards);
        let (others, left) = draw_many(rest, (count - 1) as nat);
        (seq![first] + others, left)
    }
}

/// The test that a card passes when it is not equal to `card`.
pub open spec fn differs_from(card: Card) -> spec_fn(Card) -> bool {
    |other: Card| other != card
}

/// The cards that are left when every card equal to `card` is taken out,
/// the others staying in their order.
pub open spec fn without(cards: Seq<Card>, card: Card) -> Seq<Card> {
    cards.filter(differs_from(card))
}

/// The cards after the bottom card has changed places with the one at
/// `pick`.
pub open spec fn pivot_swap(cards: Seq<Card>, pick: int) -> Seq<Card> {
    cards.update(0, cards[pick]).update(pick, cards[0])
}

/// The cards after one swap for each of `picks`, in their order: each swap
/// exchanges the bottom card with the card at the index picked.
pub open spec fn pivot_swaps(cards: Seq<Card>, picks: Seq<usize>) -> Seq<Card>
    decreases picks.len(),
{
    if picks.len() == 0 {
        cards
    } else {
        pivot_swap(pivot_swaps(cards, picks.drop_last()), picks.last() as int)
    }
}

/// Whether each of `picks` is the index of a card in a deck of `size` cards,
/// and not that of the bottom card.
pub open spec fn picks_in_range(picks: Seq<usize>, size: nat) -> bool {
    forall|k: int| 0 <= k < picks.len() ==> 1 <= #[trigger] picks[k] < size
}

/// Whether `after` can come out of `before` by `swaps` swaps, each of the
/// bottom card with another card of the deck.
pub open spec fn shuffled_from(after: Seq<Card>, before: Seq<Card>, swaps: nat) -> bool {
    exists|picks: Seq<usize>|
        {
            &&& picks.len() == swaps
            &&& picks_in_range(picks, before.len())
            &&& after == #[trigger] pivot_swaps(before, picks)
        }
}

/// Adding cards one after the other puts them at the end of the deck in the
/// order in which they were added.
pub proof fn lemma_add_many_appends(cards: Seq<Card>, added: Seq<Card>)
    ensures
        add_many(cards, added) == cards + added,
    decreases added.len(),
{
    if added.len() > 0 {
        lemma_add_many_appends(cards.push(added.first()), added.drop_first());
        assert(cards.push(added.first()) + added.drop_first() == cards + added);
    }
}

/// As many draws as there are cards in `top` take exactly those cards, the
/// last of them first, and leave what lies under them.
pub proof fn lemma_draw_many_takes_from_top(under: Seq<Card>, top: Seq<Card>)
    ensures
        draw_many(under + top, top.len()).0 == top.reverse().map_values(|card: Card| Some(card)),
        draw_many(under + top, top.len()).1 == under,
    decreases top.len(),
{
    let wrap = |card: Card| Some(card);
    if top.len() == 0 {
        assert(under + top == under);
        assert(draw_many(under + top, top.len()).0 == top.reverse().map_values(wrap));
    } else {
        let rest = top.drop_last();
        lemma_draw_many_takes_from_top(under, rest);
        assert((under + top).drop_last() == under + rest);
        assert((under + top).last() == top.last());
        assert(seq![Some(top.last())] + rest.reverse().map_values(wrap)
            == top.reverse().map_values(wrap));
    }
}

/// Last in, first out: when cards are added to a deck and as many are drawn
/// again, they come back in the reverse of the order in which they went in,
/// and the deck is left as it was before.
pub proof fn lemma_draws_reverse_additions(cards: Seq<Card>, added: Seq<Card>)
    ensures
        draw_many(add_many(cards, added), added.len()).0 == added.reverse().map_values(
            |card: Card| Some(card),
        ),
        draw_many(add_many(cards, added), added.len()).1 == cards,
{
    lemma_add_many_appends(cards, added);
    lemma_draw_many_takes_from_top(cards, added);
}

/// A deck that is drawn from until it is empty gives its cards from the top
/// down, and then no card.
pub proof fn lemma_draining_reverses(cards: Seq<Card>)
    ensures
        draw_many(cards, cards.len() + 1).0 == cards.reverse().map_values(
            |card: Card| Some(card),
        ).push(None),
        draw_many(cards, cards.len() + 1).1 == Seq::<Card>::empty(),
    decreases cards.len(),
{
    let wrap = |card: Card| Some(card);
    if cards.len() == 0 {
        assert(draw_many(cards, 0).0 == Seq::<Option<Card>>::empty());
        assert(draw_many(cards, 1).0 == seq![None::<Card>]);
        assert(cards.reverse().map_values(wrap).push(None) == seq![None::<Card>]);
    } else {
        let rest = cards.drop_last();
        lemma_draining_reverses(rest);
        assert(seq![Some(cards.last())] + rest.reverse().map_values(wrap).push(None)
            == cards.reverse().map_values(wrap).push(None));
    }
}

/// Once every card equal to `card` is taken out, none is left, and every
/// other card is in the deck exactly if it was there before.
pub proof fn lemma_without_holds_none(cards: Seq<Card>, card: Card)
    ensures
        !without(cards, card).contains(card),
        forall|other: Card|
            other != card ==> (without(cards, card).contains(other) <==> cards.contains(other)),
{
    let differs = differs_from(card);
    let left = cards.filter(differs);
    if left.contains(card) {
        let i = choose|i: int| 0 <= i < left.len() && left[i] == card;
        cards.lemma_filter_pred(differs, i);
    }
    assert forall|other: Card| other != card implies (left.contains(other) <==> cards.contains(
        other,
    )) by {
        if left.contains(other) {
            cards.lemma_filter_contains_rev(differs, other);
        }
        if cards.contains(other) {
            let i = choose|i: int| 0 <= i < cards.len() && cards[i] == other;
            cards.lemma_filter_contains(differs, i);
        }
    }
}

/// A shuffle moves cards and neither adds nor loses one: after any swaps
/// with picks that lie in the deck, the deck has its size and holds each card
/// as often as before.
pub proof fn lemma_pivot_swaps_permute(cards: Seq<Card>, picks: Seq<usize>)
    requires
        picks_in_range(picks, cards.len()),
    ensures
        pivot_swaps(cards, picks).len() == cards.len(),
        pivot_swaps(cards, picks).to_multiset() == cards.to_multiset(),
    decreases picks.len(),
{
    if picks.len() > 0 {
        let before = pivot_swaps(cards, picks.drop_last());
        let pick = picks.last() as int;
        lemma_pivot_swaps_permute(cards, picks.drop_last());
        let first = before[0];
        let other = before[pick];
        let halfway = before.update(0, other);
        let all = before.to_multiset();
        broadcast use vstd::multiset::group_multiset_axioms;
        to_multiset_update(before, 0, other);
        to_multiset_update(halfway, pick, first);
        before.to_multiset_ensures();
        assert(before.contains(first) && before.contains(other));
        assert(all.insert(other).remove(first).insert(first).remove(other) =~= all);
    }
}

/// A shuffle of no swaps leaves the deck as it is.
pub proof fn lemma_no_swaps_change_nothing(before: Seq<Card>, after: Seq<Card>)
    requires
        shuffled_from(after, before, 0),
    ensures
        after == before,
{
}

} // verus!
