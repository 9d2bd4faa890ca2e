//! What of the two hands is shown, as a value for a presentation layer.

use vstd::prelude::*;
use crate::card::Card;
use crate::scoring::{cards_value, lemma_raw_total_prefix, raw_total, score};

verus! {

/// The two hands as they are shown. While the dealer's hand is concealed,
/// only its first card is shown, and no score of it: nothing in the value
/// tells what else the dealer holds, nor how much.
#[derive(Debug)]
pub struct HandsView {
    pub player_cards: Vec<Card>,
    pub player_score: u8,
    /// The dealer's cards that lie face up, in the order dealt.
    pub dealer_cards: Vec<Card>,
    /// Whether the dealer's hand is concealed but for its first card.
    pub dealer_concealed: bool,
    /// The dealer's score, where the whole hand is shown.
    pub dealer_score: Option<u8>,
}

/// The model of what is shown of the two hands.
pub struct HandsShown {
    pub player_cards: Seq<Card>,
    pub player_score: nat,
    pub dealer_cards: Seq<Card>,
    pub dealer_concealed: bool,
    pub dealer_score: Option<nat>,
}

impl View for HandsView {
    type V = HandsShown;

    open spec fn view(&self) -> HandsShown {
        HandsShown {
            player_cards: self.player_cards@,
            player_score: self.player_score as nat,
            dealer_cards: self.dealer_cards@,
            dealer_concealed: self.dealer_concealed,
            dealer_score: match self.dealer_score {
                Some(s) => Some(s as nat),
                None => None,
            },
        }
    }
}

/// The first `n` cards of a hand, or the whole hand where it has fewer.
pub open spec fn prefix(hand: Seq<Card>, n: int) -> Seq<Card> {
    if n <= hand.len() {
        hand.take(n)
    } else {
        hand
    }
}

/// What is shown of the two hands: the player's hand and score in full;
/// the dealer's hand and score in full where the dealer is revealed, and
/// else the dealer's first card alone, and no score.
pub open spec fn shown(player_hand: Seq<Card>, dealer_hand: Seq<Card>, reveal_dealer: bool)
    -> HandsShown {
    HandsShown {
        player_cards: player_hand,
        player_score: score(player_hand),
        dealer_cards: if reveal_dealer {
            dealer_hand
        } else {
            prefix(dealer_hand, 1)
        },
        dealer_concealed: !reveal_dealer,
        dealer_score: if reveal_dealer {
            Some(score(dealer_hand))
        } else {
            None
        },
    }
}

/// A concealed hand gives nothing away: two dealer's hands that begin with
/// the same card are shown alike, whatever follows the card and however
/// much of it.
pub proof fn lemma_concealed_hand_shows_first_card_only(
    player_hand: Seq<Card>,
    dealer_hand: Seq<Card>,
    other_hand: Seq<Card>,
)
    requires
        dealer_hand.len() > 0,
        other_hand.len() > 0,
        dealer_hand[0] == other_hand[0],
    ensures
        shown(player_hand, dealer_hand, false) == shown(player_hand, other_hand, false),
        shown(player_hand, dealer_hand, false).dealer_cards == seq![dealer_hand[0]],
{
    assert(prefix(dealer_hand, 1) =~= seq![dealer_hand[0]]);
    assert(prefix(other_hand, 1) =~= seq![other_hand[0]]);
}

/// The first `n` cards of a hand.
pub fn first_cards(hand: &Vec<Card>, n: usize) -> (copy: Vec<Card>)
    ensures
        copy@ == prefix(hand@, n as int),
{
    let mut copy: Vec<Card> = Vec::new();
    let mut i: usize = 0;
    while i < n && i < hand.len()
        invariant
            i <= n,
            i <= hand@.len(),
            copy@ == hand@.take(i as int),
        decreases hand@.len() - i,
    {
        copy.push(hand[i]);
        i += 1;
        proof {
            assert(copy@ =~= hand@.take(i as int));
        }
    }
    proof {
        assert(hand@.take(hand@.len() as int) =~= hand@);
    }
    copy
}

/// Lays out the two hands for showing: the player's hand and score in full,
/// the dealer's in full where `reveal_dealer` holds, and else the dealer's
/// first card alone and no score.
pub fn hands_view(player_hand: &Vec<Card>, dealer_hand: &Vec<Card>, reveal_dealer: bool) -> (v:
    HandsView)
    requires
        raw_total(player_hand@) <= u8::MAX,
        raw_total(dealer_hand@) <= u8::MAX,
    ensures
        v@ == shown(player_hand@, dealer_hand@, reveal_dealer),
{
    let player_cards = first_cards(player_hand, player_hand.len());
    let dealer_cards = if reveal_dealer {
        first_cards(dealer_hand, dealer_hand.len())
    } else {
        first_cards(dealer_hand, 1)
    };
    let dealer_score = if reveal_dealer {
        Some(cards_value(dealer_hand))
    } else {
        None
    };
    proof {
        assert(prefix(player_hand@, player_hand@.len() as int) =~= player_hand@);
        assert(prefix(dealer_hand@, dealer_hand@.len() as int) =~= dealer_hand@);
    }
    HandsView {
        player_cards,
        player_score: cards_value(player_hand),
        dealer_cards,
        dealer_concealed: !reveal_dealer,
        dealer_score,
    }
}

/// Lays out the two hands as they stood in the dealer's turn when the
/// dealer held the first `dealer_cards` cards of the hand: the player's hand
/// in full, and those cards of the dealer's with their score.
pub fn hands_view_at(player_hand: &Vec<Card>, dealer_hand: &Vec<Card>, dealer_cards: usize) -> (v:
    HandsView)
    requires
        raw_total(player_hand@) <= u8::MAX,
        raw_total(dealer_hand@) <= u8::MAX,
    ensures
        v@ == shown(player_hand@, prefix(dealer_hand@, dealer_cards as int), true),
{
    let held = first_cards(dealer_hand, dealer_cards);
    proof {
        if dealer_cards <= dealer_hand@.len() {
            lemma_raw_total_prefix(dealer_hand@, dealer_cards as int);
        }
    }
    hands_view(player_hand, &held, true)
}

} // verus!
