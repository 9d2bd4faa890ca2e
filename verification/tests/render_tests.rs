use blackjack::card::{create_deck_vec, Card, Rank, Suit};
use blackjack::context::RoundContext;
use blackjack::input::InGameOptions;
use blackjack::ledger::Player;
use blackjack::render::{first_cards, hands_view, hands_view_at};
use blackjack::round::{Outcome, Progress};

fn card(rank: Rank) -> Card {
    Card { rank, suit: Suit::Diamonds }
}

fn hand(ranks: &[Rank]) -> Vec<Card> {
    ranks.iter().map(|r| card(*r)).collect()
}

fn table(draws: &[Rank]) -> RoundContext {
    let mut deck = create_deck_vec();
    for rank in draws.iter().rev() {
        deck.push(card(*rank));
    }
    RoundContext::with_deck(Player { name: String::from("Ann"), wealth: 20 }, deck)
}

#[test]
fn concealed_view_shows_the_first_card_alone() {
    let player = hand(&[Rank::Ten, Rank::Six]);
    let dealer = hand(&[Rank::Nine, Rank::Ace]);
    let view = hands_view(&player, &dealer, false);
    assert_eq!(view.player_cards, player);
    assert_eq!(view.player_score, 16);
    assert_eq!(view.dealer_cards, hand(&[Rank::Nine]));
    assert!(view.dealer_concealed);
    assert_eq!(view.dealer_score, None);
}

#[test]
fn concealed_view_does_not_depend_on_the_hidden_cards() {
    let player = hand(&[Rank::Ten, Rank::Six]);
    let short = hands_view(&player, &hand(&[Rank::Nine, Rank::Ace]), false);
    let long = hands_view(&player, &hand(&[Rank::Nine, Rank::Two, Rank::Three, Rank::Four]), false);
    let single = hands_view(&player, &hand(&[Rank::Nine]), false);
    for other in [&long, &single] {
        assert_eq!(short.player_cards, other.player_cards);
        assert_eq!(short.player_score, other.player_score);
        assert_eq!(short.dealer_cards, other.dealer_cards);
        assert_eq!(short.dealer_concealed, other.dealer_concealed);
        assert_eq!(short.dealer_score, other.dealer_score);
    }
}

#[test]
fn concealed_view_of_an_empty_hand_shows_no_card() {
    let view = hands_view(&Vec::new(), &Vec::new(), false);
    assert!(view.player_cards.is_empty());
    assert_eq!(view.player_score, 0);
    assert!(view.dealer_cards.is_empty());
    assert!(view.dealer_concealed);
    assert_eq!(view.dealer_score, None);
}

#[test]
fn revealed_view_shows_the_whole_hand_and_its_score() {
    let player = hand(&[Rank::Ten, Rank::Six]);
    let dealer = hand(&[Rank::Nine, Rank::Ace, Rank::Five]);
    let view = hands_view(&player, &dealer, true);
    assert_eq!(view.player_cards, player);
    assert_eq!(view.player_score, 16);
    assert_eq!(view.dealer_cards, dealer);
    assert!(!view.dealer_concealed);
    assert_eq!(view.dealer_score, Some(15));
}

#[test]
fn view_of_the_dealer_turn_shows_the_cards_held_so_far() {
    let player = hand(&[Rank::Ten, Rank::Eight]);
    let dealer = hand(&[Rank::Two, Rank::Three, Rank::Four, Rank::King]);
    let two = hands_view_at(&player, &dealer, 2);
    assert_eq!(two.dealer_cards, hand(&[Rank::Two, Rank::Three]));
    assert_eq!(two.dealer_score, Some(5));
    assert!(!two.dealer_concealed);
    assert_eq!(two.player_score, 18);
    let three = hands_view_at(&player, &dealer, 3);
    assert_eq!(three.dealer_cards, hand(&[Rank::Two, Rank::Three, Rank::Four]));
    assert_eq!(three.dealer_score, Some(9));
    let all = hands_view_at(&player, &dealer, 9);
    assert_eq!(all.dealer_cards, dealer);
    assert_eq!(all.dealer_score, Some(19));
    let none = hands_view_at(&player, &dealer, 0);
    assert!(none.dealer_cards.is_empty());
    assert_eq!(none.dealer_score, Some(0));
}

#[test]
fn first_cards_of_a_hand() {
    let cards = hand(&[Rank::Two, Rank::Three, Rank::Four]);
    assert_eq!(first_cards(&cards, 0), Vec::new());
    assert_eq!(first_cards(&cards, 2), hand(&[Rank::Two, Rank::Three]));
    assert_eq!(first_cards(&cards, 3), cards);
    assert_eq!(first_cards(&cards, 7), cards);
}

#[test]
fn table_conceals_the_dealer_during_the_turn_and_reveals_after_it() {
    let mut ctx = table(&[Rank::Ten, Rank::Eight, Rank::Nine, Rank::Six, Rank::Two]);
    assert_eq!(ctx.place_bet(5), Ok(Progress::AwaitAction));
    let during = ctx.hands();
    assert_eq!(during.player_cards, hand(&[Rank::Ten, Rank::Eight]));
    assert_eq!(during.player_score, 18);
    assert_eq!(during.dealer_cards, hand(&[Rank::Nine]));
    assert!(during.dealer_concealed);
    assert_eq!(during.dealer_score, None);
    assert_eq!(
        ctx.player_action(InGameOptions::Stand),
        Ok(Progress::Settled(Outcome::PlayerHigher))
    );
    let after = ctx.hands();
    assert_eq!(after.dealer_cards, hand(&[Rank::Nine, Rank::Six, Rank::Two]));
    assert!(!after.dealer_concealed);
    assert_eq!(after.dealer_score, Some(17));
    let opening = ctx.hands_in_dealer_turn(2);
    assert_eq!(opening.dealer_cards, hand(&[Rank::Nine, Rank::Six]));
    assert_eq!(opening.dealer_score, Some(15));
    let kept = ctx.hands_shown(false);
    assert_eq!(kept.dealer_cards, hand(&[Rank::Nine]));
    assert_eq!(kept.dealer_score, None);
}

#[test]
fn table_keeps_the_dealer_concealed_after_a_bust() {
    let mut ctx = table(&[Rank::Ten, Rank::Six, Rank::Five, Rank::Seven, Rank::Nine]);
    assert_eq!(ctx.place_bet(5), Ok(Progress::AwaitAction));
    assert_eq!(ctx.player_action(InGameOptions::Hit), Ok(Progress::Settled(Outcome::PlayerBust)));
    let view = ctx.hands();
    assert_eq!(view.player_score, 25);
    assert_eq!(view.dealer_cards, hand(&[Rank::Five]));
    assert!(view.dealer_concealed);
    assert_eq!(view.dealer_score, None);
}

#[test]
fn table_reveals_the_dealer_on_a_blackjack() {
    let mut ctx = table(&[Rank::Ace, Rank::King, Rank::Nine, Rank::Eight]);
    assert_eq!(ctx.place_bet(5), Ok(Progress::Settled(Outcome::PlayerBlackjack)));
    let view = ctx.hands();
    assert_eq!(view.dealer_cards, hand(&[Rank::Nine, Rank::Eight]));
    assert!(!view.dealer_concealed);
    assert_eq!(view.dealer_score, Some(17));
    let concealed = ctx.hands_shown(false);
    assert_eq!(concealed.dealer_cards, hand(&[Rank::Nine]));
    assert!(concealed.dealer_concealed);
}
