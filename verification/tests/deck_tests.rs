use blackjack::card::{create_deck_vec, Card, Rank, Suit};
use blackjack::deck::{deal_cards, shuffle_deck, shuffled_deck};
use blackjack::error::GameError;

fn card(rank: Rank, suit: Suit) -> Card {
    Card { rank, suit }
}

fn position(c: &Card) -> usize {
    let deck = create_deck_vec();
    deck.iter().position(|d| d == c).unwrap()
}

fn sorted(deck: &[Card]) -> Vec<usize> {
    let mut places: Vec<usize> = deck.iter().map(position).collect();
    places.sort();
    places
}

#[test]
fn fresh_deck_has_fifty_two_unique_cards() {
    let deck = create_deck_vec();
    assert_eq!(deck.len(), 52);
    for i in 0..deck.len() {
        for j in (i + 1)..deck.len() {
            assert_ne!(deck[i], deck[j]);
        }
    }
}

#[test]
fn fresh_deck_is_in_generation_order() {
    let deck = create_deck_vec();
    assert_eq!(deck[0], card(Rank::Two, Suit::Spades));
    assert_eq!(deck[8], card(Rank::Ten, Suit::Spades));
    assert_eq!(deck[12], card(Rank::Ace, Suit::Spades));
    assert_eq!(deck[13], card(Rank::Two, Suit::Clubs));
    assert_eq!(deck[26], card(Rank::Two, Suit::Hearts));
    assert_eq!(deck[50], card(Rank::King, Suit::Diamonds));
    assert_eq!(deck[51], card(Rank::Ace, Suit::Diamonds));
}

#[test]
fn indices_name_suits_and_ranks() {
    assert_eq!(Suit::from_index(0), Some(Suit::Spades));
    assert_eq!(Suit::from_index(3), Some(Suit::Diamonds));
    assert_eq!(Suit::from_index(4), None);
    assert_eq!(Rank::from_index(0), Some(Rank::Two));
    assert_eq!(Rank::from_index(12), Some(Rank::Ace));
    assert_eq!(Rank::from_index(13), None);
}

#[test]
fn symbols_of_cards() {
    assert_eq!(Rank::Ten.symbol(), "10");
    assert_eq!(Rank::Two.symbol(), "2");
    assert_eq!(Rank::Ace.symbol(), "A");
    assert_eq!(Rank::Jack.symbol(), "J");
    assert_eq!(Suit::Spades.symbol(), '♠');
    assert_eq!(Suit::Clubs.symbol(), '♣');
    assert_eq!(Suit::Hearts.symbol(), '♥');
    assert_eq!(Suit::Diamonds.symbol(), '♦');
}

#[test]
fn shuffle_keeps_the_same_cards() {
    let mut deck = create_deck_vec();
    shuffle_deck(&mut deck);
    assert_eq!(deck.len(), 52);
    assert_eq!(sorted(&deck), (0..52).collect::<Vec<usize>>());
}

#[test]
fn shuffle_changes_the_order() {
    let fresh = create_deck_vec();
    let mut changed = false;
    for _ in 0..8 {
        let mut deck = create_deck_vec();
        shuffle_deck(&mut deck);
        if deck != fresh {
            changed = true;
        }
    }
    assert!(changed);
}

#[test]
fn shuffle_of_a_partial_deck_keeps_its_cards() {
    let mut deck = vec![
        card(Rank::Ace, Suit::Spades),
        card(Rank::Ace, Suit::Spades),
        card(Rank::Four, Suit::Hearts),
    ];
    shuffle_deck(&mut deck);
    assert_eq!(sorted(&deck), vec![12, 12, 28]);
}

#[test]
fn shuffled_deck_is_complete() {
    let deck = shuffled_deck();
    assert_eq!(sorted(&deck), (0..52).collect::<Vec<usize>>());
}

#[test]
fn deal_takes_from_the_top_in_draw_order() {
    let mut deck = create_deck_vec();
    let mut hand = vec![card(Rank::Five, Suit::Clubs)];
    assert_eq!(deal_cards(&mut hand, &mut deck, 3), Ok(()));
    assert_eq!(
        hand,
        vec![
            card(Rank::Five, Suit::Clubs),
            card(Rank::Ace, Suit::Diamonds),
            card(Rank::King, Suit::Diamonds),
            card(Rank::Queen, Suit::Diamonds),
        ]
    );
    assert_eq!(deck.len(), 49);
    assert_eq!(deck[..], create_deck_vec()[..49]);
}

#[test]
fn deal_from_a_short_deck_moves_nothing() {
    let mut deck = vec![card(Rank::Two, Suit::Spades), card(Rank::Three, Suit::Spades)];
    let mut hand = vec![card(Rank::Five, Suit::Clubs)];
    assert_eq!(deal_cards(&mut hand, &mut deck, 3), Err(GameError::DeckExhausted));
    assert_eq!(deck, vec![card(Rank::Two, Suit::Spades), card(Rank::Three, Suit::Spades)]);
    assert_eq!(hand, vec![card(Rank::Five, Suit::Clubs)]);
}

#[test]
fn deal_from_an_empty_deck_fails() {
    let mut deck: Vec<Card> = Vec::new();
    let mut hand: Vec<Card> = Vec::new();
    assert_eq!(deal_cards(&mut hand, &mut deck, 1), Err(GameError::DeckExhausted));
    assert!(hand.is_empty());
}

#[test]
fn deal_of_nothing_and_of_everything() {
    let mut deck = vec![card(Rank::Two, Suit::Spades), card(Rank::Three, Suit::Spades)];
    let mut hand: Vec<Card> = Vec::new();
    assert_eq!(deal_cards(&mut hand, &mut deck, 0), Ok(()));
    assert_eq!(deck.len(), 2);
    assert!(hand.is_empty());
    assert_eq!(deal_cards(&mut hand, &mut deck, 2), Ok(()));
    assert!(deck.is_empty());
    assert_eq!(hand, vec![card(Rank::Three, Suit::Spades), card(Rank::Two, Suit::Spades)]);
}
