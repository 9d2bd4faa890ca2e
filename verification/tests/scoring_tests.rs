use blackjack::card::{Card, Rank, Suit};
use blackjack::scoring::cards_value;

fn card(rank: Rank) -> Card {
    Card { rank, suit: Suit::Hearts }
}

fn hand(ranks: &[Rank]) -> Vec<Card> {
    ranks.iter().map(|r| card(*r)).collect()
}

#[test]
fn two_aces_score_twelve() {
    assert_eq!(cards_value(&hand(&[Rank::Ace, Rank::Ace])), 12);
}

#[test]
fn ace_and_king_score_twenty_one() {
    assert_eq!(cards_value(&hand(&[Rank::Ace, Rank::King])), 21);
}

#[test]
fn two_aces_and_nine_score_twenty_one() {
    assert_eq!(cards_value(&hand(&[Rank::Ace, Rank::Ace, Rank::Nine])), 21);
}

#[test]
fn bust_is_returned_as_raw_sum() {
    assert_eq!(cards_value(&hand(&[Rank::King, Rank::King, Rank::Five])), 25);
}

#[test]
fn empty_hand_scores_nothing() {
    assert_eq!(cards_value(&Vec::new()), 0);
}

#[test]
fn every_rank_has_its_value() {
    let expected: [(Rank, u8); 13] = [
        (Rank::Two, 2),
        (Rank::Three, 3),
        (Rank::Four, 4),
        (Rank::Five, 5),
        (Rank::Six, 6),
        (Rank::Seven, 7),
        (Rank::Eight, 8),
        (Rank::Nine, 9),
        (Rank::Ten, 10),
        (Rank::Jack, 10),
        (Rank::Queen, 10),
        (Rank::King, 10),
        (Rank::Ace, 11),
    ];
    for (rank, value) in expected {
        assert_eq!(rank.value(), value);
        assert_eq!(cards_value(&hand(&[rank])), value);
        assert_eq!(rank.is_ace(), value == 11);
    }
}

#[test]
fn each_ace_is_demoted_at_most_once() {
    // Four aces: 44 raw, three demotions reach 14 and the fourth stays at
    // eleven.
    assert_eq!(cards_value(&hand(&[Rank::Ace, Rank::Ace, Rank::Ace, Rank::Ace])), 14);
    // An ace with two kings: the one ace is demoted once, to 21.
    assert_eq!(cards_value(&hand(&[Rank::King, Rank::Ace, Rank::King])), 21);
    // An ace that cannot save the hand is demoted once and no more.
    assert_eq!(cards_value(&hand(&[Rank::King, Rank::Ace, Rank::King, Rank::Five])), 26);
    // No demotion while the hand is at twenty-one or below.
    assert_eq!(cards_value(&hand(&[Rank::Ace, Rank::Five])), 16);
    assert_eq!(cards_value(&hand(&[Rank::Ace, Rank::Five, Rank::Five])), 21);
    assert_eq!(cards_value(&hand(&[Rank::Ace, Rank::Five, Rank::Six])), 12);
}

#[test]
fn score_does_not_depend_on_the_order_of_the_cards() {
    assert_eq!(
        cards_value(&hand(&[Rank::Nine, Rank::Ace, Rank::Ace])),
        cards_value(&hand(&[Rank::Ace, Rank::Nine, Rank::Ace]))
    );
}
