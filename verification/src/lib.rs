//! A single-player blackjack table: the deck, hand scoring, dealing, the
//! wealth ledger and the round state machine, each with a proved contract.

pub mod card;
pub mod context;
pub mod deck;
pub mod error;
pub mod input;
pub mod ledger;
pub mod render;
pub mod round;
pub mod save;
pub mod scoring;
pub mod text;
pub mod utils;
