//! Cards and the fresh fifty-two card deck.

use vstd::prelude::*;

verus! {

/// The four suits, in the order in which a fresh deck lists them.
#[derive(Clone, Copy, Debug, PartialEq, Eq, Structural)]
pub enum Suit {
    Spades,
    Clubs,
    Hearts,
    Diamonds,
}

/// The thirteen ranks, in the order in which a fresh deck lists them.
#[derive(Clone, Copy, Debug, PartialEq, Eq, Structural)]
pub enum Rank {
    Two,
    Three,
    Four,
    Five,
    Six,
    Seven,
    Eight,
    Nine,
    Ten,
    Jack,
    Queen,
    King,
    Ace,
}

/// A playing card. A card is never altered once made; it only moves between
/// the deck and a hand.
#[derive(Clone, Copy, Debug, PartialEq, Eq, Structural)]
pub struct Card {
    pub rank: Rank,
    pub suit: Suit,
}

/// Number of cards in a fresh deck.
pub const DECK_SIZE: usize = 52;

impl Suit {
    /// Position of the suit in a fresh deck's suit order.
    pub open spec fn ordinal(self) -> int {
        match self {
            Suit::Spades => 0,
            Suit::Clubs => 1,
            Suit::Hearts => 2,
            Suit::Diamonds => 3,
        }
    }

    /// The suit at a position of the suit order.
    pub open spec fn at(i: int) -> Suit {
        if i == 0 {
            Suit::Spades
        } else if i == 1 {
            Suit::Clubs
        } else if i == 2 {
            Suit::Hearts
        } else {
            Suit::Diamonds
        }
    }

    /// The suit at position `i` of the suit order, if there is one.
    pub fn from_index(i: u8) -> (r: Option<Suit>)
        ensures
            r.is_some() <==> i < 4,
            i < 4 ==> r == Some(Suit::at(i as int)),
            r.is_some() ==> r.unwrap().ordinal() == i,
    {
        match i {
            0 => Some(Suit::Spades),
            1 => Some(Suit::Clubs),
            2 => Some(Suit::Hearts),
            3 => Some(Suit::Diamonds),
            _ => None,
        }
    }
}

impl Rank {
    /// Position of the rank in a fresh deck's rank order.
    pub open spec fn ordinal(self) -> int {
        match self {
            Rank::Two => 0,
            Rank::Three => 1,
            Rank::Four => 2,
            Rank::Five => 3,
            Rank::Six => 4,
            Rank::Seven => 5,
            Rank::Eight => 6,
            Rank::Nine => 7,
            Rank::Ten => 8,
            Rank::Jack => 9,
            Rank::Queen => 10,
            Rank::King => 11,
            Rank::Ace => 12,
        }
    }

    /// The rank at a position of the rank order.
    pub open spec fn at(i: int) -> Rank {
        if i == 0 {
            Rank::Two
        } else if i == 1 {
            Rank::Three
        } else if i == 2 {
            Rank::Four
        } else if i == 3 {
            Rank::Five
        } else if i == 4 {
            Rank::Six
        } else if i == 5 {
            Rank::Seven
        } else if i == 6 {
            Rank::Eight
        } else if i == 7 {
            Rank::Nine
        } else if i == 8 {
            Rank::Ten
        } else if i == 9 {
            Rank::Jack
        } else if i == 10 {
            Rank::Queen
        } else if i == 11 {
            Rank::King
        } else {
            Rank::Ace
        }
    }

    /// The rank at position `i` of the rank order, if there is one.
    pub fn from_index(i: u8) -> (r: Option<Rank>)
        ensures
            r.is_some() <==> i < 13,
            i < 13 ==> r == Some(Rank::at(i as int)),
            r.is_some() ==> r.unwrap().ordinal() == i,
    {
        match i {
            0 => Some(Rank::Two),
            1 => Some(Rank::Three),
            2 => Some(Rank::Four),
            3 => Some(Rank::Five),
            4 => Some(Rank::Six),
            5 => Some(Rank::Seven),
            6 => Some(Rank::Eight),
            7 => Some(Rank::Nine),
            8 => Some(Rank::Ten),
            9 => Some(Rank::Jack),
            10 => Some(Rank::Queen),
            11 => Some(Rank::King),
            12 => Some(Rank::Ace),
            _ => None,
        }
    }
}

impl Suit {
    /// The sign of the suit.
    pub open spec fn sign(self) -> char {
        match self {
            Suit::Spades => '♠',
            Suit::Clubs => '♣',
            Suit::Hearts => '♥',
            Suit::Diamonds => '♦',
        }
    }

    /// The sign of the suit.
    pub fn symbol(self) -> (c: char)
        ensures
            c == self.sign(),
    {
        match self {
            Suit::Spades => '♠',
            Suit::Clubs => '♣',
            Suit::Hearts => '♥',
            Suit::Diamonds => '♦',
        }
    }
}

impl Rank {
    /// The text of the rank: its number, or the letter of a court card or
    /// of the ace.
    pub open spec fn text(self) -> Seq<char> {
        match self {
            Rank::Two => "2"@,
            Rank::Three => "3"@,
            Rank::Four => "4"@,
            Rank::Five => "5"@,
            Rank::Six => "6"@,
            Rank::Seven => "7"@,
            Rank::Eight => "8"@,
            Rank::Nine => "9"@,
            Rank::Ten => "10"@,
            Rank::Jack => "J"@,
            Rank::Queen => "Q"@,
            Rank::King => "K"@,
            Rank::Ace => "A"@,
        }
    }

    /// The text of the rank.
    pub fn symbol(self) -> (s: &'static str)
        ensures
            s@ == self.text(),
    {
        match self {
            Rank::Two => "2",
            Rank::Three => "3",
            Rank::Four => "4",
            Rank::Five => "5",
            Rank::Six => "6",
            Rank::Seven => "7",
            Rank::Eight => "8",
            Rank::Nine => "9",
            Rank::Ten => "10",
            Rank::Jack => "J",
            Rank::Queen => "Q",
            Rank::King => "K",
            Rank::Ace => "A",
        }
    }
}

impl Card {
    /// Position of the card in a fresh deck: suits in order, and the
    /// thirteen ranks in order within each suit.
    pub open spec fn ordinal(self) -> int {
        13 * self.suit.ordinal() + self.rank.ordinal()
    }

    /// The card at a position of a fresh deck.
    pub open spec fn at(i: int) -> Card {
        Card { rank: Rank::at(i % 13), suit: Suit::at(i / 13) }
    }
}

/// The fresh deck: every pairing of a rank with a suit, once, in generation
/// order.
pub open spec fn full_deck() -> Seq<Card> {
    Seq::new(DECK_SIZE as nat, |i: int| Card::at(i))
}

/// Builds the fresh, unshuffled deck.
pub fn create_deck_vec() -> (deck: Vec<Card>)
    ensures
        deck@ == full_deck(),
{
    let mut deck: Vec<Card> = Vec::new();
    let mut s: u8 = 0;
    while s < 4
        invariant
            s <= 4,
            deck@.len() == 13 * s,
            forall|k: int| 0 <= k < deck@.len() ==> deck@[k] == Card::at(k),
        decreases 4 - s,
    {
        let suit = Suit::from_index(s).unwrap();
        let mut r: u8 = 0;
        while r < 13
            invariant
                s < 4,
                r <= 13,
                suit == Suit::at(s as int),
                deck@.len() == 13 * s + r,
                forall|k: int| 0 <= k < deck@.len() ==> deck@[k] == Card::at(k),
            decreases 13 - r,
        {
            let rank = Rank::from_index(r).unwrap();
            deck.push(Card { rank, suit });
            r += 1;
        }
        s += 1;
    }
    assert(deck@ =~= full_deck());
    deck
}

/// A fresh deck holds fifty-two cards, holds every card, and holds none
/// twice: each card stands at its own ordinal and nowhere else.
pub proof fn lemma_full_deck_complete()
    ensures
        full_deck().len() == DECK_SIZE,
        full_deck().no_duplicates(),
        forall|c: Card| 0 <= #[trigger] c.ordinal() < 52 && full_deck()[c.ordinal()] == c,
        forall|c: Card| #[trigger] full_deck().contains(c),
{
    assert forall|c: Card| 0 <= #[trigger] c.ordinal() < 52 && full_deck()[c.ordinal()]
        == c by {
        let i = c.ordinal();
        assert(i / 13 == c.suit.ordinal());
        assert(i % 13 == c.rank.ordinal());
    }
    assert forall|c: Card| #[trigger] full_deck().contains(c) by {
        assert(full_deck()[c.ordinal()] == c);
    }
    assert forall|i: int, j: int|
        0 <= i < 52 && 0 <= j < 52 && i != j implies full_deck()[i] != full_deck()[j] by {
        assert(Card::at(i).ordinal() == i);
        assert(Card::at(j).ordinal() == j);
    }
}

} // verus!
