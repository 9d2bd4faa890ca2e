//! Shuffling the deck and dealing from it.

use vstd::prelude::*;
use rand::seq::SliceRandom;
use crate::card::{create_deck_vec, full_deck, lemma_full_deck_complete, Card, DECK_SIZE};
use crate::error::GameError;

verus! {

/// The top `n` cards of a deck in the order in which they are drawn: the
/// deck is a stack, and its last card leaves first.
pub open spec fn drawn(deck: Seq<Card>, n: int) -> Seq<Card> {
    Seq::new(n as nat, |i: int| deck[deck.len() - 1 - i])
}

/// What is left of a deck once its top `n` cards are drawn.
pub open spec fn remaining(deck: Seq<Card>, n: int) -> Seq<Card> {
    deck.take(deck.len() - n)
}

/// Whether a deck holds the cards of a fresh deck, in any order.
pub open spec fn is_complete_deck(deck: Seq<Card>) -> bool {
    deck.to_multiset() == full_deck().to_multiset()
}

/// `rand::seq::SliceRandom::shuffle` on the deck's slice, with the generator
/// of `rand::thread_rng`. The shuffle only swaps elements of the slice, so
/// the deck holds the same cards afterwards, each as often as before. In
/// which order is left open.
#[verifier::external_body]
fn shuffle_cards(deck: &mut Vec<Card>)
    ensures
        final(deck)@.to_multiset() == old(deck)@.to_multiset(),
{
    deck.shuffle(&mut rand::thread_rng());
}

/// Shuffles the deck in place. The deck keeps its cards and its size; only
/// their order may change.
pub fn shuffle_deck(deck_vec: &mut Vec<Card>)
    ensures
        final(deck_vec)@.to_multiset() == old(deck_vec)@.to_multiset(),
        final(deck_vec)@.len() == old(deck_vec)@.len(),
        forall|c: Card| final(deck_vec)@.contains(c) <==> old(deck_vec)@.contains(c),
{
    let ghost before = deck_vec@;
    shuffle_cards(deck_vec);
    proof {
        before.to_multiset_ensures();
        deck_vec@.to_multiset_ensures();
        assert forall|c: Card| deck_vec@.contains(c) <==> before.contains(c) by {
            assert(before.contains(c) <==> before.to_multiset().count(c) > 0);
            assert(deck_vec@.contains(c) <==> deck_vec@.to_multiset().count(c) > 0);
        }
    }
}

/// Builds a fresh deck and shuffles it.
pub fn shuffled_deck() -> (deck: Vec<Card>)
    ensures
        is_complete_deck(deck@),
        deck@.len() == DECK_SIZE,
{
    let mut deck = create_deck_vec();
    shuffle_deck(&mut deck);
    deck
}

/// Whatever order a shuffle leaves a fresh deck in, it still holds
/// fifty-two cards, every card, and none twice.
pub proof fn lemma_complete_deck(deck: Seq<Card>)
    requires
        is_complete_deck(deck),
    ensures
        deck.len() == DECK_SIZE,
        deck.no_duplicates(),
        forall|c: Card| #[trigger] deck.contains(c),
{
    lemma_full_deck_complete();
    full_deck().to_multiset_ensures();
    deck.to_multiset_ensures();
    full_deck().lemma_multiset_has_no_duplicates();
    deck.lemma_multiset_has_no_duplicates_conv();
    assert forall|c: Card| #[trigger] deck.contains(c) by {
        assert(full_deck().contains(c));
        assert(full_deck().to_multiset().count(c) > 0);
    }
}

/// Dealing moves cards and copies none: what is left of the deck, with the
/// drawn cards put back in reverse, is the deck as it was.
pub proof fn lemma_dealing_moves_cards(deck: Seq<Card>, n: int)
    requires
        0 <= n <= deck.len(),
    ensures
        remaining(deck, n) + drawn(deck, n).reverse() == deck,
        remaining(deck, n).len() + drawn(deck, n).len() == deck.len(),
{
    assert(remaining(deck, n) + drawn(deck, n).reverse() =~= deck);
}

/// Moves the top `amt_cards` cards of the deck `from_vec` to the end of the
/// hand `to_vec`, in the order in which they are drawn. Where the deck holds
/// fewer cards than asked for, no card moves.
pub fn deal_cards(to_vec: &mut Vec<Card>, from_vec: &mut Vec<Card>, amt_cards: u8) -> (r: Result<
    (),
    GameError,
>)
    ensures
        old(from_vec)@.len() < amt_cards ==> r == Err::<(), GameError>(GameError::DeckExhausted)
            && final(to_vec)@ == old(to_vec)@ && final(from_vec)@ == old(from_vec)@,
        old(from_vec)@.len() >= amt_cards ==> r.is_ok() && final(from_vec)@ == remaining(
            old(from_vec)@,
            amt_cards as int,
        ) && final(to_vec)@ == old(to_vec)@ + drawn(old(from_vec)@, amt_cards as int),
{
    if from_vec.len() < amt_cards as usize {
        return Err(GameError::DeckExhausted);
    }
    let ghost deck0 = from_vec@;
    let ghost hand0 = to_vec@;
    let mut k: u8 = 0;
    while k < amt_cards
        invariant
            k <= amt_cards <= deck0.len(),
            from_vec@ == remaining(deck0, k as int),
            to_vec@ == hand0 + drawn(deck0, k as int),
        decreases amt_cards - k,
    {
        match from_vec.pop() {
            Some(card) => {
                to_vec.push(card);
            },
            None => {},
        }
        k += 1;
        proof {
            assert(from_vec@ =~= remaining(deck0, k as int));
            assert(to_vec@ =~= hand0 + drawn(deck0, k as int));
        }
    }
    Ok(())
}

} // verus!
