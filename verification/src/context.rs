//! The table that a program holds: ledger, deck, hands and bet, moved on by
//! bets and by the player's choices.

use vstd::prelude::*;
use crate::card::Card;
use crate::deck::{deal_cards, drawn, is_complete_deck, remaining, shuffled_deck};
use crate::error::GameError;
use crate::input::{amount_reading, in_game_reading, read_amount, read_in_game, InGameOptions};
use crate::ledger::Player;
use crate::render::{hands_view, hands_view_at, prefix, shown, HandsView};
use crate::round::{
    initial_state,
    Outcome,
    Phase,
    Progress,
    RoundState,
    DEALER_STANDS_ON,
    RESHUFFLE_BELOW,
};
use crate::scoring::{
    cards_value,
    lemma_opening_hand,
    lemma_room_for_a_card,
    raw_total,
    score,
    BLACKJACK,
};

verus! {

/// A table with one player. Its state is read through `view`; every value
/// made by `new` or `with_deck` satisfies `wf`, and every method keeps it.
pub struct RoundContext {
    player: Player,
    deck: Vec<Card>,
    player_hand: Vec<Card>,
    dealer_hand: Vec<Card>,
    bet: u16,
    first_action: bool,
    phase: Phase,
}

impl View for RoundContext {
    type V = RoundState;

    closed spec fn view(&self) -> RoundState {
        RoundState {
            name: self.player.name@,
            wealth: self.player.wealth,
            deck: self.deck@,
            player_hand: self.player_hand@,
            dealer_hand: self.dealer_hand@,
            bet: self.bet,
            first_action: self.first_action,
            phase: self.phase,
        }
    }
}

impl RoundContext {
    /// The invariant of the table.
    pub open spec fn wf(&self) -> bool {
        self@.inv()
    }

    /// A table for `player` with the given deck, whose last card is drawn
    /// first. It awaits a bet, or is closed where the player owns nothing
    /// or the maximum.
    pub fn with_deck(player: Player, deck: Vec<Card>) -> (ctx: RoundContext)
        ensures
            ctx.wf(),
            ctx@ == initial_state(player.name@, player.wealth, deck@),
    {
        let phase = if player.can_play() {
            Phase::Betting
        } else {
            Phase::Closed
        };
        RoundContext {
            player,
            deck,
            player_hand: Vec::new(),
            dealer_hand: Vec::new(),
            bet: 0,
            first_action: false,
            phase,
        }
    }

    /// A table for `player` with a fresh shuffled deck.
    pub fn new(player: Player) -> (ctx: RoundContext)
        ensures
            ctx.wf(),
            is_complete_deck(ctx@.deck),
            ctx@ == initial_state(player.name@, player.wealth, ctx@.deck),
    {
        let deck = shuffled_deck();
        RoundContext::with_deck(player, deck)
    }

    /// The ledger.
    pub fn player(&self) -> (p: &Player)
        ensures
            p.name@ == self@.name,
            p.wealth == self@.wealth,
    {
        &self.player
    }

    /// Gives the ledger back and the table up.
    pub fn into_player(self) -> (p: Player)
        ensures
            p.name@ == self@.name,
            p.wealth == self@.wealth,
    {
        self.player
    }

    /// What the player owns.
    pub fn wealth(&self) -> (w: u16)
        ensures
            w == self@.wealth,
    {
        self.player.wealth
    }

    /// The deck; its last card is drawn first.
    pub fn deck(&self) -> (d: &Vec<Card>)
        ensures
            d@ == self@.deck,
    {
        &self.deck
    }

    /// The player's hand, in the order dealt.
    pub fn player_hand(&self) -> (h: &Vec<Card>)
        ensures
            h@ == self@.player_hand,
    {
        &self.player_hand
    }

    /// The dealer's hand, in the order dealt.
    pub fn dealer_hand(&self) -> (h: &Vec<Card>)
        ensures
            h@ == self@.dealer_hand,
    {
        &self.dealer_hand
    }

    /// The bet of the round that is open or was last played.
    pub fn bet(&self) -> (b: u16)
        ensures
            b == self@.bet,
    {
        self.bet
    }

    /// What the table waits for.
    pub fn phase(&self) -> (p: Phase)
        ensures
            p == self@.phase,
    {
        self.phase
    }

    /// Whether doubling down is still open: no action was taken yet in the
    /// player's turn.
    pub fn is_first_action(&self) -> (b: bool)
        ensures
            b == self@.first_action,
    {
        self.first_action
    }

    /// The score of the player's hand.
    pub fn player_score(&self) -> (s: u8)
        requires
            self.wf(),
        ensures
            s == score(self@.player_hand),
    {
        cards_value(&self.player_hand)
    }

    /// The score of the dealer's hand.
    pub fn dealer_score(&self) -> (s: u8)
        requires
            self.wf(),
        ensures
            s == score(self@.dealer_hand),
    {
        cards_value(&self.dealer_hand)
    }

    /// The hands as they are to be shown now: the dealer's hand is concealed
    /// during the player's turn and after the player's bust, and revealed
    /// otherwise.
    pub fn hands(&self) -> (v: HandsView)
        requires
            self.wf(),
        ensures
            v@ == shown(self@.player_hand, self@.dealer_hand, self@.dealer_revealed()),
    {
        let reveal = self.phase != Phase::PlayerTurn && cards_value(&self.player_hand)
            <= BLACKJACK;
        hands_view(&self.player_hand, &self.dealer_hand, reveal)
    }

    /// The hands with the dealer's hand concealed or revealed as the caller
    /// says.
    pub fn hands_shown(&self, reveal_dealer: bool) -> (v: HandsView)
        requires
            self.wf(),
        ensures
            v@ == shown(self@.player_hand, self@.dealer_hand, reveal_dealer),
    {
        hands_view(&self.player_hand, &self.dealer_hand, reveal_dealer)
    }

    /// The hands as they stood in the dealer's turn when the dealer held the
    /// first `dealer_cards` cards of the hand.
    pub fn hands_in_dealer_turn(&self, dealer_cards: usize) -> (v: HandsView)
        requires
            self.wf(),
        ensures
            v@ == shown(
                self@.player_hand,
                prefix(self@.dealer_hand, dealer_cards as int),
                true,
            ),
    {
        hands_view_at(&self.player_hand, &self.dealer_hand, dealer_cards)
    }

    /// Credits the bet as the outcome says and leaves the round.
    fn settle(&mut self, outcome: Outcome)
        requires
            raw_total(old(self)@.player_hand) <= u8::MAX,
            raw_total(old(self)@.dealer_hand) <= u8::MAX,
        ensures
            final(self)@ == old(self)@.settle(outcome),
            final(self).wf(),
    {
        self.player.credit(self.bet, outcome.payout_factor());
        self.phase = if self.player.can_play() {
            Phase::Betting
        } else {
            Phase::Closed
        };
    }

    /// Plays the dealer's turn and settles the round.
    fn resolve(&mut self) -> (r: Result<Progress, GameError>)
        requires
            raw_total(old(self)@.player_hand) <= u8::MAX,
            raw_total(old(self)@.dealer_hand) <= u8::MAX,
        ensures
            (r, final(self)@) == old(self)@.resolve(),
            final(self).wf(),
    {
        let ghost start = self@;
        let player_score = cards_value(&self.player_hand);
        let mut dealer_score = cards_value(&self.dealer_hand);
        while dealer_score < DEALER_STANDS_ON && dealer_score <= player_score && self.deck.len()
            > 0
            invariant
                self@.dealer_turn() == start.dealer_turn(),
                self@.player_hand == start.player_hand,
                player_score == score(self@.player_hand),
                dealer_score == score(self@.dealer_hand),
                raw_total(self@.player_hand) <= u8::MAX,
                raw_total(self@.dealer_hand) <= u8::MAX,
            decreases self@.deck.len(),
        {
            let ghost before = self@;
            proof {
                lemma_room_for_a_card(before.dealer_hand, before.deck.last());
            }
            let _ = deal_cards(&mut self.dealer_hand, &mut self.deck, 1);
            proof {
                assert(self@.dealer_hand =~= before.dealer_hand.push(before.deck.last()));
                assert(self@.deck =~= before.deck.drop_last());
                assert(self@ == before.dealer_takes_card());
            }
            dealer_score = cards_value(&self.dealer_hand);
        }
        if dealer_score < DEALER_STANDS_ON && dealer_score <= player_score {
            self.phase = Phase::Closed;
            return Err(GameError::DeckExhausted);
        }
        let outcome = if player_score > BLACKJACK {
            Outcome::PlayerBust
        } else if dealer_score > BLACKJACK {
            Outcome::DealerBust
        } else if player_score == dealer_score {
            Outcome::Push
        } else if player_score > dealer_score {
            Outcome::PlayerHigher
        } else {
            Outcome::DealerHigher
        };
        self.settle(outcome);
        Ok(Progress::Settled(outcome))
    }

    /// Opens a round with a bet of `amount` on the deck as it stands,
    /// whatever its size: `place_bet` is this step after the half-deck
    /// rule. Outside the betting phase nothing happens. A bet of nothing or
    /// of more than the wealth is refused and changes nothing. Otherwise the
    /// bet is debited, two cards go to the player and two to the dealer, and
    /// a twenty-one on either side settles the round at once.
    pub fn open_round(&mut self, amount: u16) -> (r: Result<Progress, GameError>)
        requires
            old(self).wf(),
        ensures
            final(self).wf(),
            (r, final(self)@) == old(self)@.open_round(amount),
    {
        match self.phase {
            Phase::Closed => {
                return Ok(Progress::SessionOver);
            },
            Phase::PlayerTurn => {
                return Ok(Progress::AwaitAction);
            },
            Phase::Betting => {},
        }
        match self.player.check_bet(amount) {
            Err(e) => {
                return Err(e);
            },
            Ok(_) => {},
        }
        if self.deck.len() < 4 {
            self.phase = Phase::Closed;
            return Err(GameError::DeckExhausted);
        }
        let ghost start = self@;
        let mut player_hand: Vec<Card> = Vec::new();
        let mut dealer_hand: Vec<Card> = Vec::new();
        let _ = deal_cards(&mut player_hand, &mut self.deck, 2);
        let _ = deal_cards(&mut dealer_hand, &mut self.deck, 2);
        proof {
            assert(player_hand@ =~= drawn(start.deck, 2));
            assert(dealer_hand@ =~= drawn(remaining(start.deck, 2), 2));
            assert(self@.deck =~= remaining(start.deck, 4));
            lemma_opening_hand(player_hand@);
            lemma_opening_hand(dealer_hand@);
        }
        let player_score = cards_value(&player_hand);
        let dealer_score = cards_value(&dealer_hand);
        self.player_hand = player_hand;
        self.dealer_hand = dealer_hand;
        self.player.debit(amount);
        self.bet = amount;
        self.first_action = true;
        self.phase = Phase::PlayerTurn;
        if player_score == BLACKJACK && dealer_score == BLACKJACK {
            self.settle(Outcome::BothBlackjack);
            Ok(Progress::Settled(Outcome::BothBlackjack))
        } else if player_score == BLACKJACK {
            self.settle(Outcome::PlayerBlackjack);
            Ok(Progress::Settled(Outcome::PlayerBlackjack))
        } else if dealer_score == BLACKJACK {
            self.settle(Outcome::DealerBlackjack);
            Ok(Progress::Settled(Outcome::DealerBlackjack))
        } else {
            Ok(Progress::AwaitAction)
        }
    }

    /// Takes a bet of `amount`. Where the bet is valid and fewer than
    /// twenty-six cards are left, the deck is first replaced by a fresh
    /// shuffled one; then the round opens as `open_round` says.
    pub fn place_bet(&mut self, amount: u16) -> (r: Result<Progress, GameError>)
        requires
            old(self).wf(),
        ensures
            final(self).wf(),
            !old(self)@.reshuffles_for(amount) ==> (r, final(self)@) == old(self)@.open_round(
                amount,
            ),
            old(self)@.reshuffles_for(amount) ==> exists|fresh: Seq<Card>|
                is_complete_deck(fresh) && (r, final(self)@) == #[trigger] old(self)@.with_deck(
                    fresh,
                ).open_round(amount),
    {
        let ghost start = self@;
        if self.phase == Phase::Betting && self.player.check_bet(amount).is_ok() && self.deck.len()
            < RESHUFFLE_BELOW {
            self.deck = shuffled_deck();
            assert(self@ == start.with_deck(self@.deck));
        }
        self.open_round(amount)
    }

    /// Carries out the player's choice. Outside the player's turn nothing
    /// happens. A hit deals one card and ends the round on a bust; standing
    /// hands the round to the dealer; doubling down, allowed as the first
    /// action and with the wealth to cover it, debits the bet again, deals
    /// one card and ends the turn.
    pub fn player_action(&mut self, choice: InGameOptions) -> (r: Result<Progress, GameError>)
        requires
            old(self).wf(),
        ensures
            final(self).wf(),
            (r, final(self)@) == old(self)@.act(choice),
    {
        match self.phase {
            Phase::Betting => {
                return Ok(Progress::AwaitBet);
            },
            Phase::Closed => {
                return Ok(Progress::SessionOver);
            },
            Phase::PlayerTurn => {},
        }
        match choice {
            InGameOptions::Stand => self.resolve(),
            InGameOptions::Hit => {
                if self.deck.len() == 0 {
                    self.phase = Phase::Closed;
                    return Err(GameError::DeckExhausted);
                }
                self.first_action = false;
                self.take_card_and_check()
            },
            InGameOptions::DoubleDown => {
                if !self.first_action {
                    return Err(GameError::ParseError);
                }
                if self.player.wealth < self.bet {
                    return Err(GameError::InsufficientFunds);
                }
                self.player.debit(self.bet);
                self.bet = self.bet * 2;
                self.first_action = false;
                if self.deck.len() == 0 {
                    self.phase = Phase::Closed;
                    return Err(GameError::DeckExhausted);
                }
                match self.take_card_and_check() {
                    Ok(Progress::AwaitAction) => self.resolve(),
                    other => other,
                }
            },
        }
    }

    /// Takes a line of input and reads it as the phase asks: as a bet while
    /// a bet is awaited, as a choice of the turn menu in the player's turn.
    /// A line that spells no amount, or no choice of the menu, is refused
    /// and changes nothing; a closed table ignores the line. What is read is
    /// handed to `place_bet` or to `player_action`.
    pub fn handle_input(&mut self, line: &str) -> (r: Result<Progress, GameError>)
        requires
            old(self).wf(),
        ensures
            final(self).wf(),
            match old(self)@.phase {
                Phase::Closed => (r, final(self)@) == (
                    Ok::<Progress, GameError>(Progress::SessionOver),
                    old(self)@,
                ),
                Phase::Betting => match amount_reading(line@) {
                    None => (r, final(self)@) == (
                        Err::<Progress, GameError>(GameError::ParseError),
                        old(self)@,
                    ),
                    Some(amount) => if old(self)@.reshuffles_for(amount) {
                        exists|fresh: Seq<Card>|
                            is_complete_deck(fresh) && (r, final(self)@) == #[trigger] old(
                                self,
                            )@.with_deck(fresh).open_round(amount)
                    } else {
                        (r, final(self)@) == old(self)@.open_round(amount)
                    },
                },
                Phase::PlayerTurn => match in_game_reading(line@) {
                    Err(_) => (r, final(self)@) == (
                        Err::<Progress, GameError>(GameError::ParseError),
                        old(self)@,
                    ),
                    Ok(choice) => (r, final(self)@) == old(self)@.act(choice),
                },
            },
    {
        match self.phase {
            Phase::Closed => Ok(Progress::SessionOver),
            Phase::Betting => match read_amount(line) {
                None => Err(GameError::ParseError),
                Some(amount) => self.place_bet(amount),
            },
            Phase::PlayerTurn => match read_in_game(line) {
                Err(_) => Err(GameError::ParseError),
                Ok(choice) => self.player_action(choice),
            },
        }
    }

    /// Deals the player one card and settles the round if it busts the hand.
    fn take_card_and_check(&mut self) -> (r: Result<Progress, GameError>)
        requires
            old(self)@.deck.len() > 0,
            old(self)@.phase == Phase::PlayerTurn,
            old(self).wf(),
        ensures
            score(old(self)@.player_takes_card().player_hand) > 21 ==> r == Ok::<
                Progress,
                GameError,
            >(Progress::Settled(Outcome::PlayerBust)) && final(self)@ == old(
                self,
            )@.player_takes_card().settle(Outcome::PlayerBust),
            score(old(self)@.player_takes_card().player_hand) <= 21 ==> r == Ok::<
                Progress,
                GameError,
            >(Progress::AwaitAction) && final(self)@ == old(self)@.player_takes_card(),
            final(self).wf(),
    {
        let ghost before = self@;
        proof {
            lemma_room_for_a_card(before.player_hand, before.deck.last());
        }
        let _ = deal_cards(&mut self.player_hand, &mut self.deck, 1);
        proof {
            assert(self@.player_hand =~= before.player_hand.push(before.deck.last()));
            assert(self@.deck =~= before.deck.drop_last());
            assert(self@ == before.player_takes_card());
        }
        if cards_value(&self.player_hand) > BLACKJACK {
            self.settle(Outcome::PlayerBust);
            Ok(Progress::Settled(Outcome::PlayerBust))
        } else {
            Ok(Progress::AwaitAction)
        }
    }
}

} // verus!
