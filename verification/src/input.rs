//! The numbered choices of the two menus.

use vstd::prelude::*;
use vstd::std_specs::convert::TryFromSpecImpl;
use crate::text::{parse_u16, parse_u8, parsed_u16, parsed_u8, trim_line, trimmed};

verus! {

/// The choices of the main menu.
#[derive(Clone, Copy, Debug, PartialEq, Eq, Structural)]
pub enum MainMenuOptions {
    NewGame,
    Continue,
    Exit,
}

/// The choices of the player's turn.
#[derive(Clone, Copy, Debug, PartialEq, Eq, Structural)]
pub enum InGameOptions {
    Hit,
    Stand,
    DoubleDown,
}

/// A number for which a menu has no option.
#[derive(Clone, Copy, Debug, PartialEq, Eq, Structural)]
pub struct InvalidChoice {
    pub number: u8,
}

/// The main menu's option under a number: one for a new game, two to
/// continue, three to exit; any other number comes back as invalid.
pub open spec fn main_menu_option(num: u8) -> Result<MainMenuOptions, InvalidChoice> {
    if num == 1 {
        Ok(MainMenuOptions::NewGame)
    } else if num == 2 {
        Ok(MainMenuOptions::Continue)
    } else if num == 3 {
        Ok(MainMenuOptions::Exit)
    } else {
        Err(InvalidChoice { number: num })
    }
}

/// The turn menu's option under a number: one to hit, two to stand, three to
/// double down; any other number comes back as invalid.
pub open spec fn in_game_option(num: u8) -> Result<InGameOptions, InvalidChoice> {
    if num == 1 {
        Ok(InGameOptions::Hit)
    } else if num == 2 {
        Ok(InGameOptions::Stand)
    } else if num == 3 {
        Ok(InGameOptions::DoubleDown)
    } else {
        Err(InvalidChoice { number: num })
    }
}

impl TryFrom<u8> for MainMenuOptions {
    type Error = InvalidChoice;

    /// The option with the number `num`: one for a new game, two to
    /// continue, three to exit; any other number is handed back as invalid.
    fn try_from(num: u8) -> (r: Result<Self, Self::Error>) {
        match num {
            1 => Ok(MainMenuOptions::NewGame),
            2 => Ok(MainMenuOptions::Continue),
            3 => Ok(MainMenuOptions::Exit),
            _ => Err(InvalidChoice { number: num }),
        }
    }
}

impl TryFromSpecImpl<u8> for MainMenuOptions {
    open spec fn obeys_try_from_spec() -> bool {
        true
    }

    open spec fn try_from_spec(num: u8) -> Result<Self, Self::Error> {
        main_menu_option(num)
    }
}

impl TryFrom<u8> for InGameOptions {
    type Error = InvalidChoice;

    /// The option with the number `num`: one to hit, two to stand, three to
    /// double down; any other number is handed back as invalid.
    fn try_from(num: u8) -> (r: Result<Self, Self::Error>) {
        match num {
            1 => Ok(InGameOptions::Hit),
            2 => Ok(InGameOptions::Stand),
            3 => Ok(InGameOptions::DoubleDown),
            _ => Err(InvalidChoice { number: num }),
        }
    }
}

impl TryFromSpecImpl<u8> for InGameOptions {
    open spec fn obeys_try_from_spec() -> bool {
        true
    }

    open spec fn try_from_spec(num: u8) -> Result<Self, Self::Error> {
        in_game_option(num)
    }
}

impl MainMenuOptions {
    /// The number under which the menu lists the option.
    pub fn number(self) -> (n: u8)
        ensures
            1 <= n <= 3,
            main_menu_option(n) == Ok::<Self, InvalidChoice>(self),
    {
        match self {
            MainMenuOptions::NewGame => 1,
            MainMenuOptions::Continue => 2,
            MainMenuOptions::Exit => 3,
        }
    }
}

impl InGameOptions {
    /// The number under which the menu lists the option.
    pub fn number(self) -> (n: u8)
        ensures
            1 <= n <= 3,
            in_game_option(n) == Ok::<Self, InvalidChoice>(self),
    {
        match self {
            InGameOptions::Hit => 1,
            InGameOptions::Stand => 2,
            InGameOptions::DoubleDown => 3,
        }
    }
}

/// Decoding a menu number is total, succeeds on one, two and three alone,
/// and hands any other number back in the error.
pub proof fn lemma_menu_numbers(num: u8)
    ensures
        main_menu_option(num).is_ok() <==> 1 <= num <= 3,
        in_game_option(num).is_ok() <==> 1 <= num <= 3,
        !(1 <= num <= 3) ==> main_menu_option(num) == Err::<
            MainMenuOptions,
            InvalidChoice,
        >(InvalidChoice { number: num }),
        !(1 <= num <= 3) ==> in_game_option(num) == Err::<
            InGameOptions,
            InvalidChoice,
        >(InvalidChoice { number: num }),
{
}

/// Why a line of input is no choice of a menu.
#[derive(Clone, Copy, Debug, PartialEq, Eq, Structural)]
pub enum InputError {
    /// The line, trimmed, spells no number of the menu's range.
    NotANumber,
    /// The line spells a number, and the menu has no option for it.
    NoSuchOption(InvalidChoice),
}

/// The main menu's reading of a line: the line is trimmed and read as a
/// number, and the number is looked up in the menu.
pub open spec fn main_menu_reading(line: Seq<char>) -> Result<MainMenuOptions, InputError> {
    match parsed_u8(trimmed(line)) {
        None => Err(InputError::NotANumber),
        Some(num) => match main_menu_option(num) {
            Ok(option) => Ok(option),
            Err(invalid) => Err(InputError::NoSuchOption(invalid)),
        },
    }
}

/// The turn menu's reading of a line: the line is trimmed and read as a
/// number, and the number is looked up in the menu.
pub open spec fn in_game_reading(line: Seq<char>) -> Result<InGameOptions, InputError> {
    match parsed_u8(trimmed(line)) {
        None => Err(InputError::NotANumber),
        Some(num) => match in_game_option(num) {
            Ok(option) => Ok(option),
            Err(invalid) => Err(InputError::NoSuchOption(invalid)),
        },
    }
}

/// The amount that a line spells once trimmed, if it spells one.
pub open spec fn amount_reading(line: Seq<char>) -> Option<u16> {
    parsed_u16(trimmed(line))
}

/// Reads a choice of the main menu from a line of input.
pub fn read_main_menu(line: &str) -> (r: Result<MainMenuOptions, InputError>)
    ensures
        r == main_menu_reading(line@),
{
    match parse_u8(trim_line(line)) {
        None => Err(InputError::NotANumber),
        Some(num) => match MainMenuOptions::try_from(num) {
            Ok(option) => Ok(option),
            Err(invalid) => Err(InputError::NoSuchOption(invalid)),
        },
    }
}

/// Reads a choice of the turn menu from a line of input.
pub fn read_in_game(line: &str) -> (r: Result<InGameOptions, InputError>)
    ensures
        r == in_game_reading(line@),
{
    match parse_u8(trim_line(line)) {
        None => Err(InputError::NotANumber),
        Some(num) => match InGameOptions::try_from(num) {
            Ok(option) => Ok(option),
            Err(invalid) => Err(InputError::NoSuchOption(invalid)),
        },
    }
}

/// Reads an amount from a line of input.
pub fn read_amount(line: &str) -> (r: Option<u16>)
    ensures
        r == amount_reading(line@),
{
    parse_u16(trim_line(line))
}

} // verus!
