//! Decoding a scan of the keypad matrix.
use crate::input::Event;
use vstd::prelude::*;

verus! {

/// The number of keys on the keypad.
pub const KEYS: usize = 12;

/// The key at position `i` of the probe order: column by column from the
/// left (1 4 7 *, then 2 5 8 0, then 3 6 9 #), each column from the top.
pub open spec fn probe_key(i: int) -> Event {
    if i == 0 {
        Event::One
    } else if i == 1 {
        Event::Four
    } else if i == 2 {
        Event::Seven
    } else if i == 3 {
        Event::Star
    } else if i == 4 {
        Event::Two
    } else if i == 5 {
        Event::Five
    } else if i == 6 {
        Event::Eight
    } else if i == 7 {
        Event::Zero
    } else if i == 8 {
        Event::Three
    } else if i == 9 {
        Event::Six
    } else if i == 10 {
        Event::Nine
    } else {
        Event::Hash
    }
}

/// The key that a scan reports after probing the first `low.len()` keys of
/// the probe order, where `low[i]` says that key `i` reads as pressed: the
/// last pressed key probed, or `previous` where none was.
pub open spec fn scanned(previous: Option<Event>, low: Seq<bool>) -> Option<Event>
    decreases low.len(),
{
    if low.len() == 0 {
        previous
    } else if low.last() {
        Some(probe_key(low.len() - 1))
    } else {
        scanned(previous, low.drop_last())
    }
}

/// The key at column `column` and row `row` of the keypad.
pub fn key_at(column: usize, row: usize) -> (key: Event)
    requires
        column < 3,
        row < 4,
    ensures
        key == probe_key(column * 4 + row),
{
    match (column, row) {
        (0, 0) => Event::One,
        (0, 1) => Event::Four,
        (0, 2) => Event::Seven,
        (0, _) => Event::Star,
        (1, 0) => Event::Two,
        (1, 1) => Event::Five,
        (1, 2) => Event::Eight,
        (1, _) => Event::Zero,
        (2, 0) => Event::Three,
        (2, 1) => Event::Six,
        (2, 2) => Event::Nine,
        _ => Event::Hash,
    }
}

/// Record in `press` the key that a scan of the matrix finds pressed.
///
/// `low[c][r]` says that the row line `r` reads low while column `c` is
/// driven, that is that the key at column `c`, row `r` is held. Keys are
/// probed column by column, each column from the top; every held key
/// overwrites `press`, so the last one probed wins, and `press` keeps its
/// value when no key is held.
pub fn scan(press: &mut Option<Event>, low: &[[bool; 4]; 3])
    ensures
        *final(press) == scanned(*old(press), Seq::new(12, |i: int| low[i / 4][i % 4])),
{
    let ghost flat = Seq::new(12, |i: int| low[i / 4][i % 4]);
    let mut column: usize = 0;
    while column < 3
        invariant
            column <= 3,
            flat == Seq::new(12, |i: int| low[i / 4][i % 4]),
            *press == scanned(*old(press), flat.take(column * 4)),
        decreases 3 - column,
    {
        let mut row: usize = 0;
        while row < 4
            invariant
                column < 3,
                row <= 4,
                flat == Seq::new(12, |i: int| low[i / 4][i % 4]),
                *press == scanned(*old(press), flat.take(column * 4 + row)),
            decreases 4 - row,
        {
            let ghost n: int = column * 4 + row;
            assert(flat.take(n + 1).drop_last() =~= flat.take(n));
            assert(flat.take(n + 1).last() == low[column as int][row as int]);
            if low[column][row] {
                *press = Some(key_at(column, row));
            }
            row = row + 1;
        }
        column = column + 1;
    }
    assert(flat.take(12) =~= flat);
}

} // verus!
