//! The ways in which a step of the game can fail.

use vstd::prelude::*;

verus! {

/// Why a step was refused or a round abandoned.
#[derive(Clone, Copy, Debug, PartialEq, Eq, Structural)]
pub enum GameError {
    /// The input is no number, or a number that is no valid choice here. The
    /// caller asks again; nothing has changed.
    ParseError,
    /// A bet or a double down asks for more than the player owns. The caller
    /// asks again; nothing has changed.
    InsufficientFunds,
    /// A deal asked for more cards than the deck holds. The round is
    /// abandoned.
    DeckExhausted,
    /// The ledger could not be written as a record, or bytes that were read
    /// back are no record of a ledger.
    PersistenceError,
}

} // verus!
