//! The player's ledger: a name and a bounded, never negative wealth.

use vstd::prelude::*;
use crate::error::GameError;

verus! {

/// The most a player can own. A player who reaches it has broken the bank
/// and plays no further round.
pub const MAX_WEALTH: u16 = 65535;

/// What a new player starts with.
pub const STARTING_WEALTH: u16 = 10;

/// The player: who plays, and how much they own.
#[derive(Clone, Debug)]
pub struct Player {
    pub name: String,
    pub wealth: u16,
}

/// A wealth less an amount, stopping at zero.
pub open spec fn debited(wealth: u16, amount: u16) -> u16 {
    if amount >= wealth {
        0
    } else {
        (wealth - amount) as u16
    }
}

/// A wealth plus `times` an amount, stopping at the maximum.
pub open spec fn credited(wealth: u16, amount: u16, times: int) -> u16 {
    if wealth + times * amount >= MAX_WEALTH {
        MAX_WEALTH
    } else if times * amount <= 0 {
        wealth
    } else {
        (wealth + times * amount) as u16
    }
}

/// Why a bet of `amount` is refused of a player who owns `wealth`, if it is:
/// a bet must be more than nothing and no more than the player owns.
pub open spec fn bet_refusal(wealth: u16, amount: u16) -> Option<GameError> {
    if amount == 0 {
        Some(GameError::ParseError)
    } else if amount > wealth {
        Some(GameError::InsufficientFunds)
    } else {
        None
    }
}

impl Player {
    /// A new player with the starting wealth.
    pub fn new(name: String) -> (p: Player)
        ensures
            p.name == name,
            p.wealth == STARTING_WEALTH,
    {
        Player { name, wealth: STARTING_WEALTH }
    }

    /// A new player under the name that the system gave for the user, or
    /// under the name `User` where it gave none.
    pub fn for_user(real_name: Option<String>) -> (p: Player)
        ensures
            p.wealth == STARTING_WEALTH,
            p.name@ == match real_name {
                Some(name) => name@,
                None => "User"@,
            },
    {
        match real_name {
            Some(name) => Player::new(name),
            None => Player::new(String::from_str("User")),
        }
    }

    /// Whether the player can start another round: they own something, and
    /// less than the maximum.
    pub fn can_play(&self) -> (b: bool)
        ensures
            b == (0 < self.wealth < MAX_WEALTH),
    {
        0 < self.wealth && self.wealth < MAX_WEALTH
    }

    /// Checks a bet against the ledger, which it leaves as it is.
    pub fn check_bet(&self, amount: u16) -> (r: Result<(), GameError>)
        ensures
            match bet_refusal(self.wealth, amount) {
                Some(e) => r == Err::<(), GameError>(e),
                None => r.is_ok(),
            },
    {
        if amount == 0 {
            Err(GameError::ParseError)
        } else if amount > self.wealth {
            Err(GameError::InsufficientFunds)
        } else {
            Ok(())
        }
    }

    /// Takes `amount` from the wealth, which stops at zero.
    pub fn debit(&mut self, amount: u16)
        ensures
            final(self).wealth == debited(old(self).wealth, amount),
            final(self).name == old(self).name,
    {
        self.wealth = self.wealth.saturating_sub(amount);
    }

    /// Adds `times` the `amount` to the wealth, which stops at the maximum.
    pub fn credit(&mut self, amount: u16, times: u8)
        ensures
            final(self).wealth == credited(old(self).wealth, amount, times as int),
            final(self).name == old(self).name,
    {
        let mut k: u8 = 0;
        let ghost start = self.wealth;
        while k < times
            invariant
                k <= times,
                self.wealth == credited(start, amount, k as int),
                self.name == old(self).name,
            decreases times - k,
        {
            proof {
                assert((k + 1) * amount == k * amount + amount) by (nonlinear_arith);
                assert(k * amount >= 0) by (nonlinear_arith)
                    requires
                        k >= 0,
                        amount >= 0,
                ;
            }
            self.wealth = self.wealth.saturating_add(amount);
            k += 1;
        }
    }
}

} // verus!
