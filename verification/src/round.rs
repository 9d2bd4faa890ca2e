//! The round state machine: betting, the opening deal, the player's turn,
//! the dealer's turn and the payout.
//!
//! The machine is stated twice. `RoundState` is its mathematical model, with
//! each transition a spec function; `RoundContext` is the value that a
//! program holds, and each of its methods is proved to make exactly the
//! model's transition.

use vstd::prelude::*;
use crate::card::Card;
use crate::deck::{drawn, remaining};
use crate::error::GameError;
use crate::input::InGameOptions;
use crate::ledger::{bet_refusal, credited, MAX_WEALTH};
use crate::scoring::{lemma_opening_hand, lemma_room_for_a_card, raw_total, score};

verus! {

/// Below this many cards the deck is replaced by a fresh shuffled one before
/// a round opens.
pub const RESHUFFLE_BELOW: usize = 26;

/// The dealer draws no further card on this score or above.
pub const DEALER_STANDS_ON: u8 = 17;

/// What the machine waits for.
#[derive(Clone, Copy, Debug, PartialEq, Eq, Structural)]
pub enum Phase {
    /// A bet opens the next round.
    Betting,
    /// A round is open and the player chooses.
    PlayerTurn,
    /// No further round: the player owns nothing, or the maximum, or a round
    /// was abandoned.
    Closed,
}

/// How a round ended.
#[derive(Clone, Copy, Debug, PartialEq, Eq, Structural)]
pub enum Outcome {
    /// Both opening hands score twenty-one: the bet is returned.
    BothBlackjack,
    /// Only the player's opening hand scores twenty-one: the bet is paid
    /// twice.
    PlayerBlackjack,
    /// Only the dealer's opening hand scores twenty-one: the bet is lost.
    DealerBlackjack,
    /// The player went over twenty-one: the bet is lost.
    PlayerBust,
    /// The dealer went over twenty-one: the bet is paid twice.
    DealerBust,
    /// Equal scores: the bet is returned.
    Push,
    /// The player is closer to twenty-one: the bet is paid twice.
    PlayerHigher,
    /// The dealer is closer to twenty-one: the bet is lost.
    DealerHigher,
}

/// What a step did, for the caller to show and to act on.
#[derive(Clone, Copy, Debug, PartialEq, Eq, Structural)]
pub enum Progress {
    /// No round is open; the step changed nothing. A bet is awaited.
    AwaitBet,
    /// The round is open and the player chooses next.
    AwaitAction,
    /// The round ended and the ledger is settled.
    Settled(Outcome),
    /// The table is closed; the step changed nothing.
    SessionOver,
}

/// The model of a table between and during rounds.
pub struct RoundState {
    pub name: Seq<char>,
    pub wealth: u16,
    pub deck: Seq<Card>,
    pub player_hand: Seq<Card>,
    pub dealer_hand: Seq<Card>,
    pub bet: u16,
    /// Whether the player has yet to take the first action of the turn.
    pub first_action: bool,
    pub phase: Phase,
}

/// What a step answers, and the state that it leaves.
pub type Step = (Result<Progress, GameError>, RoundState);

impl Outcome {
    /// How many times the bet is credited: twice for a win, once where it is
    /// returned, not at all for a loss.
    pub open spec fn stakes(self) -> int {
        match self {
            Outcome::BothBlackjack | Outcome::Push => 1,
            Outcome::PlayerBlackjack | Outcome::DealerBust | Outcome::PlayerHigher => 2,
            Outcome::DealerBlackjack | Outcome::PlayerBust | Outcome::DealerHigher => 0,
        }
    }

    /// How many times the bet is credited.
    pub fn payout_factor(self) -> (k: u8)
        ensures
            k == self.stakes(),
    {
        match self {
            Outcome::BothBlackjack | Outcome::Push => 1,
            Outcome::PlayerBlackjack | Outcome::DealerBust | Outcome::PlayerHigher => 2,
            Outcome::DealerBlackjack | Outcome::PlayerBust | Outcome::DealerHigher => 0,
        }
    }
}

/// The phase between rounds: another bet while the player owns something
/// and less than the maximum, closed otherwise.
pub open spec fn phase_between_rounds(wealth: u16) -> Phase {
    if 0 < wealth < MAX_WEALTH {
        Phase::Betting
    } else {
        Phase::Closed
    }
}

/// How the opening hands end the round at once, if they do.
pub open spec fn natural(player_score: nat, dealer_score: nat) -> Option<Outcome> {
    if player_score == 21 && dealer_score == 21 {
        Some(Outcome::BothBlackjack)
    } else if player_score == 21 {
        Some(Outcome::PlayerBlackjack)
    } else if dealer_score == 21 {
        Some(Outcome::DealerBlackjack)
    } else {
        None
    }
}

/// The outcome by the final scores.
pub open spec fn showdown(player_score: nat, dealer_score: nat) -> Outcome {
    if player_score > 21 {
        Outcome::PlayerBust
    } else if dealer_score > 21 {
        Outcome::DealerBust
    } else if player_score == dealer_score {
        Outcome::Push
    } else if player_score > dealer_score {
        Outcome::PlayerHigher
    } else {
        Outcome::DealerHigher
    }
}

/// The dealer's rule: draw while under seventeen and not ahead of the
/// player.
pub open spec fn dealer_draws(dealer_score: nat, player_score: nat) -> bool {
    dealer_score < DEALER_STANDS_ON && dealer_score <= player_score
}

/// The state of a table that has seen no round yet.
pub open spec fn initial_state(name: Seq<char>, wealth: u16, deck: Seq<Card>) -> RoundState {
    RoundState {
        name,
        wealth,
        deck,
        player_hand: Seq::empty(),
        dealer_hand: Seq::empty(),
        bet: 0,
        first_action: false,
        phase: phase_between_rounds(wealth),
    }
}

impl RoundState {
    /// What holds of every state that the machine reaches.
    pub open spec fn inv(self) -> bool {
        &&& raw_total(self.player_hand) <= u8::MAX
        &&& raw_total(self.dealer_hand) <= u8::MAX
        &&& self.phase == Phase::Betting ==> 0 < self.wealth < MAX_WEALTH
        &&& self.phase == Phase::PlayerTurn ==> {
            &&& score(self.player_hand) <= 21
            &&& 0 < self.bet
            &&& self.wealth + self.bet <= MAX_WEALTH
        }
    }

    /// Whether the dealer's hand lies open: not during the player's turn,
    /// and not after the player's bust, which ends the round before the
    /// dealer turns a card.
    pub open spec fn dealer_revealed(self) -> bool {
        self.phase != Phase::PlayerTurn && score(self.player_hand) <= 21
    }

    /// The same table with another deck.
    pub open spec fn with_deck(self, deck: Seq<Card>) -> RoundState {
        RoundState { deck, ..self }
    }

    /// Whether a bet of `amount` finds the deck under the half-deck mark:
    /// the table awaits a bet, the bet is valid, and fewer than twenty-six
    /// cards are left.
    pub open spec fn reshuffles_for(self, amount: u16) -> bool {
        &&& self.phase == Phase::Betting
        &&& bet_refusal(self.wealth, amount) is None
        &&& self.deck.len() < RESHUFFLE_BELOW
    }

    /// The round ends: the bet is credited as the outcome says and the table
    /// awaits the next bet, or closes.
    pub open spec fn settle(self, outcome: Outcome) -> RoundState {
        let wealth = credited(self.wealth, self.bet, outcome.stakes());
        RoundState { wealth, phase: phase_between_rounds(wealth), ..self }
    }

    /// The round is abandoned and the table closes.
    pub open spec fn abandon(self) -> RoundState {
        RoundState { phase: Phase::Closed, ..self }
    }

    /// The top card of the deck goes to the player.
    pub open spec fn player_takes_card(self) -> RoundState {
        RoundState {
            player_hand: self.player_hand.push(self.deck.last()),
            deck: self.deck.drop_last(),
            ..self
        }
    }

    /// The top card of the deck goes to the dealer.
    pub open spec fn dealer_takes_card(self) -> RoundState {
        RoundState {
            dealer_hand: self.dealer_hand.push(self.deck.last()),
            deck: self.deck.drop_last(),
            ..self
        }
    }

    /// Whether the dealer's rule asks for another card.
    pub open spec fn dealer_wants_card(self) -> bool {
        dealer_draws(score(self.dealer_hand), score(self.player_hand))
    }

    /// The dealer's turn: one card after another while the rule asks for
    /// one and the deck has one.
    pub open spec fn dealer_turn(self) -> RoundState
        decreases self.deck.len(),
    {
        if self.dealer_wants_card() && self.deck.len() > 0 {
            self.dealer_takes_card().dealer_turn()
        } else {
            self
        }
    }

    /// The dealer's turn and the payout. Where the deck runs out under the
    /// dealer, the round is abandoned.
    pub open spec fn resolve(self) -> Step {
        let end = self.dealer_turn();
        if end.dealer_wants_card() {
            (Err(GameError::DeckExhausted), end.abandon())
        } else {
            let outcome = showdown(score(end.player_hand), score(end.dealer_hand));
            (Ok(Progress::Settled(outcome)), end.settle(outcome))
        }
    }

    /// A bet of `amount` on the deck as it stands. Outside the betting
    /// phase nothing happens. A bet of nothing, or of more than the player
    /// owns, is refused and nothing changes. With fewer than four cards the
    /// round is abandoned before anything is debited. Otherwise the bet is
    /// debited, two cards go to the player and two to the dealer, and a
    /// twenty-one on either side settles the round at once.
    pub open spec fn open_round(self, amount: u16) -> Step {
        if self.phase == Phase::Closed {
            (Ok(Progress::SessionOver), self)
        } else if self.phase == Phase::PlayerTurn {
            (Ok(Progress::AwaitAction), self)
        } else if bet_refusal(self.wealth, amount) is Some {
            (Err(bet_refusal(self.wealth, amount).unwrap()), self)
        } else if self.deck.len() < 4 {
            (Err(GameError::DeckExhausted), self.abandon())
        } else {
            let dealt = RoundState {
                wealth: (self.wealth - amount) as u16,
                bet: amount,
                player_hand: drawn(self.deck, 2),
                dealer_hand: drawn(remaining(self.deck, 2), 2),
                deck: remaining(self.deck, 4),
                first_action: true,
                phase: Phase::PlayerTurn,
                ..self
            };
            match natural(score(dealt.player_hand), score(dealt.dealer_hand)) {
                Some(outcome) => (Ok(Progress::Settled(outcome)), dealt.settle(outcome)),
                None => (Ok(Progress::AwaitAction), dealt),
            }
        }
    }

    /// The player hits: one card, and the round ends at once if it busts the
    /// hand. With no card left the round is abandoned.
    pub open spec fn hit(self) -> Step {
        if self.deck.len() == 0 {
            (Err(GameError::DeckExhausted), self.abandon())
        } else {
            let next = RoundState { first_action: false, ..self.player_takes_card() };
            if score(next.player_hand) > 21 {
                (Ok(Progress::Settled(Outcome::PlayerBust)), next.settle(Outcome::PlayerBust))
            } else {
                (Ok(Progress::AwaitAction), next)
            }
        }
    }

    /// The player doubles down: allowed only as the first action of the turn
    /// and with a wealth that covers the bet once more. The bet is debited
    /// again and doubled, the player gets exactly one card, and the turn is
    /// over: a bust ends the round, anything else goes to the dealer.
    pub open spec fn double_down(self) -> Step {
        if !self.first_action {
            (Err(GameError::ParseError), self)
        } else if self.wealth < self.bet {
            (Err(GameError::InsufficientFunds), self)
        } else {
            let doubled = RoundState {
                wealth: (self.wealth - self.bet) as u16,
                bet: (2 * self.bet) as u16,
                first_action: false,
                ..self
            };
            if doubled.deck.len() == 0 {
                (Err(GameError::DeckExhausted), doubled.abandon())
            } else {
                let next = doubled.player_takes_card();
                if score(next.player_hand) > 21 {
                    (Ok(Progress::Settled(Outcome::PlayerBust)), next.settle(Outcome::PlayerBust))
                } else {
                    next.resolve()
                }
            }
        }
    }

    /// The player's choice. Outside the player's turn nothing happens.
    pub open spec fn act(self, choice: InGameOptions) -> Step {
        match self.phase {
            Phase::Betting => (Ok(Progress::AwaitBet), self),
            Phase::Closed => (Ok(Progress::SessionOver), self),
            Phase::PlayerTurn => match choice {
                InGameOptions::Hit => self.hit(),
                InGameOptions::Stand => self.resolve(),
                InGameOptions::DoubleDown => self.double_down(),
            },
        }
    }
}

/// The dealer's turn moves cards from the top of the deck to the end of the
/// dealer's hand and touches nothing else. It ends only when the dealer's
/// rule asks for no further card or the deck is empty, and a dealer who is
/// under seventeen and not ahead of the player draws at least one card while
/// the deck has one.
pub proof fn lemma_dealer_turn(s: RoundState)
    ensures
        ({
            let t = s.dealer_turn();
            let n = s.deck.len() - t.deck.len();
            &&& t == RoundState { deck: t.deck, dealer_hand: t.dealer_hand, ..s }
            &&& 0 <= n <= s.deck.len()
            &&& t.deck == remaining(s.deck, n)
            &&& t.dealer_hand == s.dealer_hand + drawn(s.deck, n)
            &&& !t.dealer_wants_card() || t.deck.len() == 0
            &&& s.dealer_wants_card() && s.deck.len() > 0 ==> n >= 1
            &&& !s.dealer_wants_card() ==> t == s
            &&& raw_total(s.dealer_hand) <= u8::MAX ==> raw_total(t.dealer_hand) <= u8::MAX
        }),
    decreases s.deck.len(),
{
    if s.dealer_wants_card() && s.deck.len() > 0 {
        let s1 = s.dealer_takes_card();
        lemma_dealer_turn(s1);
        lemma_room_for_a_card(s.dealer_hand, s.deck.last());
        let t = s1.dealer_turn();
        let n = s.deck.len() - t.deck.len();
        assert(t.deck =~= remaining(s.deck, n));
        assert(t.dealer_hand =~= s.dealer_hand + drawn(s.deck, n));
    } else {
        assert(s.deck =~= remaining(s.deck, 0));
        assert(s.dealer_hand =~= s.dealer_hand + drawn(s.deck, 0));
    }
}

/// The dealer's rule at the end of a round that went to the dealer: where
/// the round is settled, the dealer stands on seventeen or more, or is ahead
/// of the player; the player's hand and the bet are as they were; and the
/// wealth is the old one plus the bet as often as the outcome says. The
/// round is abandoned only where the deck ran out under a dealer who still
/// had to draw.
pub proof fn lemma_resolve(s: RoundState)
    ensures
        ({
            let (r, t) = s.resolve();
            &&& t.player_hand == s.player_hand && t.bet == s.bet && t.name == s.name
            &&& t.phase != Phase::PlayerTurn
            &&& match r {
                Ok(Progress::Settled(outcome)) => {
                    &&& score(t.dealer_hand) >= 17 || score(t.dealer_hand) > score(t.player_hand)
                    &&& outcome == showdown(score(t.player_hand), score(t.dealer_hand))
                    &&& t.wealth == credited(s.wealth, s.bet, outcome.stakes())
                    &&& t.phase == phase_between_rounds(t.wealth)
                },
                Err(GameError::DeckExhausted) => {
                    &&& t.deck.len() == 0
                    &&& t.wealth == s.wealth
                    &&& t.phase == Phase::Closed
                    &&& dealer_draws(score(t.dealer_hand), score(t.player_hand))
                },
                _ => false,
            }
        }),
{
    lemma_dealer_turn(s);
}

/// The dealer catches up: a dealer who is under seventeen and not ahead of
/// the player draws, and goes on drawing while that holds. Unless the deck
/// runs out, or the dealer comes to stand on seventeen or more while still
/// behind, the dealer ends level with the player, ahead, or bust.
pub proof fn lemma_dealer_catches_up(s: RoundState)
    requires
        s.dealer_wants_card(),
        s.deck.len() > 0,
        !s.dealer_turn().dealer_wants_card(),
        !(DEALER_STANDS_ON <= score(s.dealer_turn().dealer_hand) < score(s.player_hand)),
    ensures
        s.dealer_turn().dealer_hand.len() > s.dealer_hand.len(),
        score(s.dealer_turn().dealer_hand) >= score(s.player_hand),
{
    lemma_dealer_turn(s);
}

/// A refused bet changes nothing: a bet of nothing is refused as no valid
/// number, a bet of more than the player owns for want of funds, and the
/// state after either is the state before.
pub proof fn lemma_refused_bet_changes_nothing(s: RoundState, amount: u16)
    requires
        s.phase == Phase::Betting,
    ensures
        amount == 0 ==> s.open_round(amount) == (
            Err::<Progress, GameError>(GameError::ParseError),
            s,
        ),
        amount > s.wealth ==> s.open_round(amount) == (
            Err::<Progress, GameError>(GameError::InsufficientFunds),
            s,
        ),
        0 < amount <= s.wealth ==> !(s.open_round(amount).0 is Err) || s.open_round(amount).0
            == Err::<Progress, GameError>(GameError::DeckExhausted),
        s.open_round(amount).0 == Err::<Progress, GameError>(GameError::ParseError)
            || s.open_round(amount).0 == Err::<Progress, GameError>(GameError::InsufficientFunds)
            ==> s.open_round(amount).1 == s && !s.reshuffles_for(amount),
{
}

/// An accepted bet is debited once, and a deck of four cards or more never
/// runs out under the opening deal: the round is then open with the bet
/// debited, or settled at once by a twenty-one, with the bet paid twice for
/// the player's alone, returned for one on both sides, and lost for the
/// dealer's alone.
pub proof fn lemma_accepted_bet(s: RoundState, amount: u16)
    requires
        s.phase == Phase::Betting,
        0 < amount <= s.wealth,
        s.deck.len() >= 4,
    ensures
        ({
            let (r, t) = s.open_round(amount);
            let player = score(t.player_hand);
            let dealer = score(t.dealer_hand);
            &&& t.bet == amount
            &&& t.player_hand.len() == 2 && t.dealer_hand.len() == 2
            &&& t.deck.len() == s.deck.len() - 4
            &&& match r {
                Ok(Progress::AwaitAction) => {
                    &&& player != 21 && dealer != 21
                    &&& t.phase == Phase::PlayerTurn
                    &&& t.first_action
                    &&& t.wealth == s.wealth - amount
                },
                Ok(Progress::Settled(outcome)) => {
                    &&& natural(player, dealer) == Some(outcome)
                    &&& t.wealth == credited((s.wealth - amount) as u16, amount, outcome.stakes())
                    &&& t.phase == phase_between_rounds(t.wealth)
                },
                _ => false,
            }
        }),
{
}

/// Doubling down ends the player's turn. Where it is allowed, the bet is
/// debited a second time and doubled, the player gets exactly one card, and
/// the round is settled or abandoned in the same step: no further action is
/// awaited. Where it is not allowed, because an action was taken already or
/// the wealth does not cover the bet again, nothing changes.
pub proof fn lemma_double_down(s: RoundState)
    requires
        s.inv(),
        s.phase == Phase::PlayerTurn,
    ensures
        ({
            let (r, t) = s.act(InGameOptions::DoubleDown);
            &&& !s.first_action ==> r == Err::<Progress, GameError>(GameError::ParseError) && t
                == s
            &&& s.first_action && s.wealth < s.bet ==> r == Err::<Progress, GameError>(
                GameError::InsufficientFunds,
            ) && t == s
            &&& s.first_action && s.wealth >= s.bet ==> {
                &&& t.phase != Phase::PlayerTurn
                &&& t.bet == 2 * s.bet
                &&& match r {
                    Ok(Progress::Settled(outcome)) => {
                        &&& t.player_hand == s.player_hand.push(s.deck.last())
                        &&& t.wealth == credited(
                            (s.wealth - s.bet) as u16,
                            t.bet,
                            outcome.stakes(),
                        )
                    },
                    Err(GameError::DeckExhausted) => t.wealth == s.wealth - s.bet,
                    _ => false,
                }
            }
        }),
{
    if s.first_action && s.wealth >= s.bet && s.deck.len() > 0 {
        let doubled = RoundState {
            wealth: (s.wealth - s.bet) as u16,
            bet: (2 * s.bet) as u16,
            first_action: false,
            ..s
        };
        lemma_resolve(doubled.player_takes_card());
    }
}

/// A hit takes exactly the top card of the deck, closes the way to a double
/// down, and ends the round as lost exactly when the hand goes over
/// twenty-one; the dealer's hand and the bet stay as they are.
pub proof fn lemma_hit(s: RoundState)
    requires
        s.phase == Phase::PlayerTurn,
        s.deck.len() > 0,
    ensures
        ({
            let (r, t) = s.act(InGameOptions::Hit);
            &&& t.player_hand == s.player_hand.push(s.deck.last())
            &&& t.deck == s.deck.drop_last()
            &&& t.dealer_hand == s.dealer_hand && t.bet == s.bet
            &&& !t.first_action
            &&& score(t.player_hand) > 21 ==> r == Ok::<Progress, GameError>(
                Progress::Settled(Outcome::PlayerBust),
            ) && t.wealth == s.wealth && t.phase == phase_between_rounds(s.wealth)
            &&& score(t.player_hand) <= 21 ==> r == Ok::<Progress, GameError>(
                Progress::AwaitAction,
            ) && t.wealth == s.wealth && t.phase == Phase::PlayerTurn
        }),
{
}

/// Every step keeps the invariant of the table: a bet, and each of the
/// player's choices.
pub proof fn lemma_steps_keep_invariant(s: RoundState, amount: u16, choice: InGameOptions)
    requires
        s.inv(),
    ensures
        s.open_round(amount).1.inv(),
        s.act(choice).1.inv(),
        forall|deck: Seq<Card>| (#[trigger] s.with_deck(deck)).inv(),
{
    if s.phase == Phase::Betting && bet_refusal(s.wealth, amount) is None && s.deck.len() >= 4 {
        lemma_opening_hand(drawn(s.deck, 2));
        lemma_opening_hand(drawn(remaining(s.deck, 2), 2));
    }
    if s.phase == Phase::PlayerTurn {
        match choice {
            InGameOptions::Hit => {
                if s.deck.len() > 0 {
                    lemma_room_for_a_card(s.player_hand, s.deck.last());
                }
            },
            InGameOptions::Stand => {
                lemma_dealer_turn(s);
            },
            InGameOptions::DoubleDown => {
                if s.first_action && s.wealth >= s.bet && s.deck.len() > 0 {
                    let doubled = RoundState {
                        wealth: (s.wealth - s.bet) as u16,
                        bet: (2 * s.bet) as u16,
                        first_action: false,
                        ..s
                    };
                    lemma_room_for_a_card(s.player_hand, s.deck.last());
                    lemma_dealer_turn(doubled.player_takes_card());
                }
            },
        }
    }
}

} // verus!
