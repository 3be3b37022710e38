use game_the_curse_of_the_headless_goose::action::{Move, ParseMoveError};
use game_the_curse_of_the_headless_goose::input::Event;
use game_the_curse_of_the_headless_goose::keypad::scan;

#[test]
fn move_parses_from_decimal_text() {
    assert_eq!("7".parse::<Move>(), Ok(Move::Seven));
    assert_eq!("42".parse::<Move>(), Ok(Move::Two));
    assert_eq!("+3".parse::<Move>(), Ok(Move::Three));
    assert_eq!("255".parse::<Move>(), Ok(Move::Five));
    assert_eq!(Move::parse("10"), Ok(Move::Zero));
}

#[test]
fn move_refuses_other_text() {
    assert_eq!("256".parse::<Move>(), Err(ParseMoveError));
    assert_eq!("".parse::<Move>(), Err(ParseMoveError));
    assert_eq!("x".parse::<Move>(), Err(ParseMoveError));
    assert_eq!("-1".parse::<Move>(), Err(ParseMoveError));
    assert_eq!(" 1".parse::<Move>(), Err(ParseMoveError));
}

#[test]
fn move_from_byte_takes_last_digit() {
    assert_eq!(Move::from(19u8), Move::Nine);
    assert_eq!(Move::from(0u8), Move::Zero);
}

#[test]
fn keypad_scan_reports_last_key_probed() {
    let mut press = None;
    let mut low = [[false; 4]; 3];
    scan(&mut press, &low);
    assert_eq!(press, None);

    low[1][3] = true;
    scan(&mut press, &low);
    assert_eq!(press, Some(Event::Zero));

    // Column 3 is probed after column 1: its key wins.
    low[0][0] = true;
    low[2][3] = true;
    scan(&mut press, &low);
    assert_eq!(press, Some(Event::Hash));

    // Nothing held keeps the previous key.
    let none = [[false; 4]; 3];
    scan(&mut press, &none);
    assert_eq!(press, Some(Event::Hash));
}
