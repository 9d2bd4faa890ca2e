use std::time::Duration;

use blackjack::input::{
    read_amount, read_in_game, read_main_menu, InGameOptions, InputError, InvalidChoice,
    MainMenuOptions,
};
use blackjack::utils::NotificationDuration;

#[test]
fn main_menu_numbers() {
    assert_eq!(MainMenuOptions::try_from(1), Ok(MainMenuOptions::NewGame));
    assert_eq!(MainMenuOptions::try_from(2), Ok(MainMenuOptions::Continue));
    assert_eq!(MainMenuOptions::try_from(3), Ok(MainMenuOptions::Exit));
    assert_eq!(MainMenuOptions::try_from(0), Err(InvalidChoice { number: 0 }));
    assert_eq!(MainMenuOptions::try_from(4), Err(InvalidChoice { number: 4 }));
    assert_eq!(MainMenuOptions::try_from(255), Err(InvalidChoice { number: 255 }));
}

#[test]
fn in_game_numbers() {
    assert_eq!(InGameOptions::try_from(1), Ok(InGameOptions::Hit));
    assert_eq!(InGameOptions::try_from(2), Ok(InGameOptions::Stand));
    assert_eq!(InGameOptions::try_from(3), Ok(InGameOptions::DoubleDown));
    assert_eq!(InGameOptions::try_from(0), Err(InvalidChoice { number: 0 }));
    assert_eq!(InGameOptions::try_from(4), Err(InvalidChoice { number: 4 }));
}

#[test]
fn numbers_of_options_decode_back() {
    for option in [MainMenuOptions::NewGame, MainMenuOptions::Continue, MainMenuOptions::Exit] {
        assert_eq!(MainMenuOptions::try_from(option.number()), Ok(option));
    }
    for option in [InGameOptions::Hit, InGameOptions::Stand, InGameOptions::DoubleDown] {
        assert_eq!(InGameOptions::try_from(option.number()), Ok(option));
    }
    assert_eq!(InGameOptions::DoubleDown.number(), 3);
    assert_eq!(MainMenuOptions::NewGame.number(), 1);
}

#[test]
fn main_menu_lines() {
    assert_eq!(read_main_menu("1\n"), Ok(MainMenuOptions::NewGame));
    assert_eq!(read_main_menu("  2  \r\n"), Ok(MainMenuOptions::Continue));
    assert_eq!(read_main_menu("3"), Ok(MainMenuOptions::Exit));
    assert_eq!(read_main_menu("7\n"), Err(InputError::NoSuchOption(InvalidChoice { number: 7 })));
    assert_eq!(read_main_menu("exit\n"), Err(InputError::NotANumber));
    assert_eq!(read_main_menu("\n"), Err(InputError::NotANumber));
    assert_eq!(read_main_menu("256\n"), Err(InputError::NotANumber));
    assert_eq!(read_main_menu("-1\n"), Err(InputError::NotANumber));
}

#[test]
fn in_game_lines() {
    assert_eq!(read_in_game("1\n"), Ok(InGameOptions::Hit));
    assert_eq!(read_in_game(" 2\n"), Ok(InGameOptions::Stand));
    assert_eq!(read_in_game("3\n"), Ok(InGameOptions::DoubleDown));
    assert_eq!(read_in_game("0\n"), Err(InputError::NoSuchOption(InvalidChoice { number: 0 })));
    assert_eq!(read_in_game("1 2\n"), Err(InputError::NotANumber));
}

#[test]
fn amount_lines() {
    assert_eq!(read_amount("10\n"), Some(10));
    assert_eq!(read_amount("  65535 "), Some(65535));
    assert_eq!(read_amount("65536\n"), None);
    assert_eq!(read_amount("ten\n"), None);
    assert_eq!(read_amount(" 1 0 \n"), None);
    assert_eq!(read_amount(" 7"), Some(7));
}

#[test]
fn notification_durations() {
    assert_eq!(NotificationDuration::Short.as_duration(), Duration::from_secs(1));
    assert_eq!(NotificationDuration::Long.as_duration(), Duration::from_secs(2));
    assert_eq!(NotificationDuration::Short.seconds(), 1);
    assert_eq!(NotificationDuration::Long.seconds(), 2);
}

#[test]
fn plus_sign_and_leading_zeros_are_read() {
    assert_eq!(read_amount("+5"), Some(5));
    assert_eq!(read_amount("007"), Some(7));
    assert_eq!(read_amount("+0065535"), Some(65535));
    assert_eq!(read_amount("0"), Some(0));
    assert_eq!(read_main_menu("+2\n"), Ok(MainMenuOptions::Continue));
    assert_eq!(read_in_game("03\n"), Ok(InGameOptions::DoubleDown));
}

#[test]
fn texts_that_spell_no_number_are_refused() {
    for text in ["", "+", "-", "++5", "+-5", "-5", "-0", "5+", "x", "5x", "x5", "1_0", "1.0", "1e2", "0x10", "٣", "５"] {
        assert_eq!(read_amount(text), None);
        assert_eq!(read_main_menu(text), Err(InputError::NotANumber));
        assert_eq!(read_in_game(text), Err(InputError::NotANumber));
    }
}

#[test]
fn numbers_over_the_range_are_refused() {
    assert_eq!(read_amount("65535"), Some(65535));
    assert_eq!(read_amount("65536"), None);
    assert_eq!(read_amount("99999999999999999999999"), None);
    assert_eq!(read_main_menu("255"), Err(InputError::NoSuchOption(InvalidChoice { number: 255 })));
    assert_eq!(read_main_menu("256"), Err(InputError::NotANumber));
    assert_eq!(read_main_menu("0000000000000000000002"), Ok(MainMenuOptions::Continue));
}

#[test]
fn white_space_is_trimmed_at_both_ends() {
    let white: [u32; 25] = [
        0x09, 0x0a, 0x0b, 0x0c, 0x0d, 0x20, 0x85, 0xa0, 0x1680, 0x2000, 0x2001, 0x2002, 0x2003,
        0x2004, 0x2005, 0x2006, 0x2007, 0x2008, 0x2009, 0x200a, 0x2028, 0x2029, 0x202f, 0x205f,
        0x3000,
    ];
    for code in white {
        let c = char::from_u32(code).unwrap();
        assert_eq!(read_amount(&format!("{c}7")), Some(7));
        assert_eq!(read_amount(&format!("7{c}")), Some(7));
        assert_eq!(read_amount(&format!("{c}{c}7{c}")), Some(7));
        assert_eq!(read_amount(&format!("1{c}7")), None);
    }
}

#[test]
fn other_characters_are_not_trimmed() {
    let others: [u32; 16] = [
        0x00, 0x08, 0x0e, 0x1f, 0x21, 0x84, 0x86, 0x9f, 0xa1, 0x180e, 0x1fff, 0x200b, 0x2027,
        0x2060, 0x3001, 0xfeff,
    ];
    for code in others {
        let c = char::from_u32(code).unwrap();
        assert_eq!(read_amount(&format!("{c}7")), None);
        assert_eq!(read_amount(&format!("7{c}")), None);
    }
}

#[test]
fn white_space_alone_is_no_number() {
    assert_eq!(read_amount("   "), None);
    assert_eq!(read_amount("\n"), None);
    assert_eq!(read_amount(" + 5"), None);
}
