//! Hand scoring under the blackjack ace rule.

use vstd::prelude::*;
use crate::card::{Card, Rank};

verus! {

/// The highest total that is not a bust.
pub const BLACKJACK: u8 = 21;

impl Rank {
    /// Points of a rank before any ace is demoted: face value for number
    /// cards, ten for the court cards, eleven for the ace.
    pub open spec fn points(self) -> nat {
        match self {
            Rank::Two => 2,
            Rank::Three => 3,
            Rank::Four => 4,
            Rank::Five => 5,
            Rank::Six => 6,
            Rank::Seven => 7,
            Rank::Eight => 8,
            Rank::Nine => 9,
            Rank::Ten => 10,
            Rank::Jack => 10,
            Rank::Queen => 10,
            Rank::King => 10,
            Rank::Ace => 11,
        }
    }

    /// Points of a rank before any ace is demoted.
    pub fn value(self) -> (v: u8)
        ensures
            v == self.points(),
    {
        match self {
            Rank::Two => 2,
            Rank::Three => 3,
            Rank::Four => 4,
            Rank::Five => 5,
            Rank::Six => 6,
            Rank::Seven => 7,
            Rank::Eight => 8,
            Rank::Nine => 9,
            Rank::Ten => 10,
            Rank::Jack => 10,
            Rank::Queen => 10,
            Rank::King => 10,
            Rank::Ace => 11,
        }
    }

    /// Whether the rank is the ace.
    pub fn is_ace(self) -> (b: bool)
        ensures
            b == (self == Rank::Ace),
    {
        match self {
            Rank::Ace => true,
            _ => false,
        }
    }
}

/// Sum of the cards' points with every ace at eleven.
pub open spec fn raw_total(hand: Seq<Card>) -> nat
    decreases hand.len(),
{
    if hand.len() == 0 {
        0
    } else {
        raw_total(hand.drop_last()) + hand.last().rank.points()
    }
}

/// Number of aces in a hand.
pub open spec fn ace_count(hand: Seq<Card>) -> nat
    decreases hand.len(),
{
    if hand.len() == 0 {
        0
    } else {
        ace_count(hand.drop_last()) + if hand.last().rank == Rank::Ace {
            1nat
        } else {
            0nat
        }
    }
}

/// Sum of the cards' points with every ace at one: the least a hand can be
/// worth.
pub open spec fn hard_total(hand: Seq<Card>) -> nat
    decreases hand.len(),
{
    if hand.len() == 0 {
        0
    } else {
        hard_total(hand.drop_last()) + if hand.last().rank == Rank::Ace {
            1nat
        } else {
            hand.last().rank.points()
        }
    }
}

/// How many aces are demoted from eleven to one: as few as bring the total to
/// twenty-one or below, and all of them where that is not enough.
pub open spec fn demoted(raw: nat, aces: nat) -> nat {
    if raw <= 21 {
        0
    } else if aces <= (raw - 12) / 10 {
        aces
    } else {
        ((raw - 12) / 10) as nat
    }
}

/// The value of a hand.
pub open spec fn score(hand: Seq<Card>) -> nat {
    (raw_total(hand) - 10 * demoted(raw_total(hand), ace_count(hand))) as nat
}

/// Appending a card adds its points and, for an ace, one to the ace count.
pub proof fn lemma_totals_push(hand: Seq<Card>, card: Card)
    ensures
        raw_total(hand.push(card)) == raw_total(hand) + card.rank.points(),
        ace_count(hand.push(card)) == ace_count(hand) + if card.rank == Rank::Ace {
            1nat
        } else {
            0nat
        },
        hard_total(hand.push(card)) == hard_total(hand) + if card.rank == Rank::Ace {
            1nat
        } else {
            card.rank.points()
        },
{
    assert(hand.push(card).drop_last() =~= hand);
}

/// The raw total is the hard total plus ten for each ace, every card is
/// worth at least one point, and none more than eleven.
pub proof fn lemma_totals_bounds(hand: Seq<Card>)
    ensures
        raw_total(hand) == hard_total(hand) + 10 * ace_count(hand),
        ace_count(hand) <= hand.len() <= hard_total(hand),
        raw_total(hand) <= 11 * hand.len(),
    decreases hand.len(),
{
    if hand.len() > 0 {
        lemma_totals_bounds(hand.drop_last());
    }
}

/// Each ace is demoted at most once, and only while the hand would
/// otherwise be over twenty-one: the score is the raw total less ten for
/// each demoted ace, it never falls below the hard total, a hand scored over
/// twenty-one has no ace left at eleven, and putting one demoted ace back to
/// eleven would pass twenty-one.
pub proof fn lemma_score_demotes_each_ace_once(hand: Seq<Card>)
    ensures
        demoted(raw_total(hand), ace_count(hand)) <= ace_count(hand),
        score(hand) == raw_total(hand) - 10 * demoted(raw_total(hand), ace_count(hand)),
        hard_total(hand) <= score(hand) <= raw_total(hand),
        score(hand) > 21 ==> demoted(raw_total(hand), ace_count(hand)) == ace_count(hand),
        demoted(raw_total(hand), ace_count(hand)) > 0 ==> score(hand) + 10 > 21,
        ace_count(hand) == 0 ==> score(hand) == raw_total(hand),
        score(hand) > 21 <==> hard_total(hand) > 21,
{
    lemma_totals_bounds(hand);
}

/// The score is the best total that the hand allows: of the totals reached
/// by counting `k` of its aces as one, none that stays at twenty-one or
/// below is higher than the score.
pub proof fn lemma_score_is_best_total(hand: Seq<Card>, k: nat)
    requires
        k <= ace_count(hand),
        raw_total(hand) - 10 * k <= 21,
    ensures
        raw_total(hand) - 10 * k <= score(hand),
{
    lemma_totals_bounds(hand);
}

/// A hand of a score under twenty-two takes one more card without its raw
/// total leaving the range of a byte.
pub proof fn lemma_room_for_a_card(hand: Seq<Card>, card: Card)
    requires
        score(hand) <= 21,
    ensures
        raw_total(hand.push(card)) <= 242,
{
    lemma_score_demotes_each_ace_once(hand);
    lemma_totals_bounds(hand);
    lemma_totals_push(hand, card);
}

/// A hand of two cards is worth at most twenty-two points before any ace
/// is demoted, and is never a bust.
pub proof fn lemma_opening_hand(hand: Seq<Card>)
    requires
        hand.len() == 2,
    ensures
        raw_total(hand) <= 22,
        score(hand) <= 21,
{
    let none = Seq::<Card>::empty();
    assert(hand =~= none.push(hand[0]).push(hand[1]));
    lemma_totals_push(none, hand[0]);
    lemma_totals_push(none.push(hand[0]), hand[1]);
}

/// Calculates the value of a hand: the cards' points with aces at eleven,
/// then ten taken off for one ace after another while the total is over
/// twenty-one and an ace is left to demote. A bust is returned as it is.
pub fn cards_value(hand_vec: &Vec<Card>) -> (total: u8)
    requires
        raw_total(hand_vec@) <= u8::MAX,
    ensures
        total == score(hand_vec@),
{
    let mut total: u8 = 0;
    let mut aces_amt: usize = 0;
    let mut i: usize = 0;
    while i < hand_vec.len()
        invariant
            i <= hand_vec.len(),
            total == raw_total(hand_vec@.take(i as int)),
            aces_amt == ace_count(hand_vec@.take(i as int)),
            aces_amt <= i,
            raw_total(hand_vec@) <= u8::MAX,
        decreases hand_vec.len() - i,
    {
        let card = hand_vec[i];
        proof {
            assert(hand_vec@.take(i + 1) =~= hand_vec@.take(i as int).push(card));
            lemma_totals_push(hand_vec@.take(i as int), card);
            lemma_raw_total_prefix(hand_vec@, i + 1);
        }
        total = total + card.rank.value();
        if card.rank.is_ace() {
            aces_amt = aces_amt + 1;
        }
        i = i + 1;
    }
    proof {
        assert(hand_vec@.take(i as int) =~= hand_vec@);
    }
    let ghost raw = total as nat;
    let ghost aces = aces_amt as nat;
    while total > BLACKJACK && aces_amt > 0
        invariant
            total <= raw,
            aces_amt <= aces,
            total - 10 * demoted(total as nat, aces_amt as nat) == raw - 10 * demoted(raw, aces),
        decreases aces_amt,
    {
        total = total - 10;
        aces_amt = aces_amt - 1;
    }
    total
}

/// A prefix of a hand is worth no more than the hand.
pub proof fn lemma_raw_total_prefix(hand: Seq<Card>, n: int)
    requires
        0 <= n <= hand.len(),
    ensures
        raw_total(hand.take(n)) <= raw_total(hand),
    decreases hand.len(),
{
    if n < hand.len() {
        assert(hand.drop_last().take(n) =~= hand.take(n));
        lemma_raw_total_prefix(hand.drop_last(), n);
    } else {
        assert(hand.take(n) =~= hand);
    }
}

} // verus!
