use crate::input::Event;
use core::str::FromStr;
use vstd::prelude::*;
use vstd::string::StrSliceExecFns;

verus! {

/// What kind of action a move is, which decides what it blocks.
#[derive(Debug, Clone, Copy, PartialEq, Eq, Structural)]
pub enum Decision {
    Block,
    FastAttack,
    StrongAttack,
    Special,
}

impl Decision {
    /// Whether `self` stops `other`.
    pub open spec fn spec_blocks(self, other: Decision) -> bool {
        match self {
            Decision::Block => other == Decision::FastAttack || other == Decision::Block,
            Decision::FastAttack => other == Decision::StrongAttack || other == Decision::Special,
            Decision::StrongAttack => other == Decision::Block || other == Decision::Special,
            Decision::Special => other == Decision::Block,
        }
    }

    pub fn blocks(&self, other: &Self) -> (r: bool)
        ensures
            r == self.spec_blocks(*other),
    {
        // This is based on `heal`, but probably not true for all specials
        match self {
            Decision::Block => matches!(other, Decision::FastAttack | Decision::Block),
            Decision::FastAttack => matches!(other, Decision::StrongAttack | Decision::Special),
            Decision::StrongAttack => matches!(other, Decision::Block | Decision::Special),
            Decision::Special => matches!(other, Decision::Block),
        }
    }
}

/// One of the ten moves, named after the digit that selects it.
#[derive(Debug, Clone, Copy, PartialEq, Eq, Structural)]
pub enum Move {
    Zero,
    One,
    Two,
    Three,
    Four,
    Five,
    Six,
    Seven,
    Eight,
    Nine,
}

impl Move {
    /// The digit of the move.
    pub open spec fn index(self) -> nat {
        match self {
            Move::Zero => 0,
            Move::One => 1,
            Move::Two => 2,
            Move::Three => 3,
            Move::Four => 4,
            Move::Five => 5,
            Move::Six => 6,
            Move::Seven => 7,
            Move::Eight => 8,
            Move::Nine => 9,
        }
    }

    /// The move selected by digit `d` (taken modulo ten).
    pub open spec fn of_digit(d: int) -> Move {
        let d = d % 10;
        if d == 0 {
            Move::Zero
        } else if d == 1 {
            Move::One
        } else if d == 2 {
            Move::Two
        } else if d == 3 {
            Move::Three
        } else if d == 4 {
            Move::Four
        } else if d == 5 {
            Move::Five
        } else if d == 6 {
            Move::Six
        } else if d == 7 {
            Move::Seven
        } else if d == 8 {
            Move::Eight
        } else {
            Move::Nine
        }
    }

    pub open spec fn spec_to_decision(self) -> Decision {
        match self {
            Move::Zero | Move::Six | Move::Eight => Decision::Block,
            Move::Two | Move::Three | Move::Five | Move::Seven => Decision::FastAttack,
            Move::Four | Move::Nine => Decision::StrongAttack,
            Move::One => Decision::Special,
        }
    }

    /// Damage dealt by the move, which is also its energy cost: the digit
    /// itself, except that Zero and One deal none.
    pub open spec fn spec_damage(self) -> u16 {
        if self.index() >= 2 {
            self.index() as u16
        } else {
            0
        }
    }

    /// Whether this move stops `other`.
    pub open spec fn spec_blocks(self, other: Move) -> bool {
        self.spec_to_decision().spec_blocks(other.spec_to_decision())
    }

    pub fn to_decision(&self) -> (d: Decision)
        ensures
            d == self.spec_to_decision(),
    {
        match self {
            Move::Zero | Move::Six | Move::Eight => Decision::Block,
            Move::Two | Move::Three | Move::Five | Move::Seven => Decision::FastAttack,
            Move::Four | Move::Nine => Decision::StrongAttack,
            Move::One => Decision::Special,
        }
    }

    pub fn damage(&self) -> (d: u16)
        ensures
            d == self.spec_damage(),
    {
        match self {
            Move::Zero => 0,
            Move::One => 0,
            Move::Two => 2,
            Move::Three => 3,
            Move::Four => 4,
            Move::Five => 5,
            Move::Six => 6,
            Move::Seven => 7,
            Move::Eight => 8,
            Move::Nine => 9,
        }
    }

    pub fn blocks(&self, other: &Move) -> (r: bool)
        ensures
            r == self.spec_blocks(*other),
    {
        self.to_decision().blocks(&other.to_decision())
    }

    /// The move a key selects: digits select the move of the same name,
    /// `*` and `#` select none.
    pub open spec fn spec_from_input(event: Event) -> Option<Move> {
        match event {
            Event::Zero => Some(Move::Zero),
            Event::One => Some(Move::One),
            Event::Two => Some(Move::Two),
            Event::Three => Some(Move::Three),
            Event::Four => Some(Move::Four),
            Event::Five => Some(Move::Five),
            Event::Six => Some(Move::Six),
            Event::Seven => Some(Move::Seven),
            Event::Eight => Some(Move::Eight),
            Event::Nine => Some(Move::Nine),
            Event::Star => None,
            Event::Hash => None,
        }
    }

    pub fn from_input(event: Event) -> (r: Option<Move>)
        ensures
            r == Self::spec_from_input(event),
    {
        match event {
            Event::Zero => Some(Move::Zero),
            Event::One => Some(Move::One),
            Event::Two => Some(Move::Two),
            Event::Three => Some(Move::Three),
            Event::Four => Some(Move::Four),
            Event::Five => Some(Move::Five),
            Event::Six => Some(Move::Six),
            Event::Seven => Some(Move::Seven),
            Event::Eight => Some(Move::Eight),
            Event::Nine => Some(Move::Nine),
            Event::Star => None,
            Event::Hash => None,
        }
    }
}

impl From<u8> for Move {
    fn from(value: u8) -> (m: Move)
        ensures
            m == Move::of_digit(value as int),
    {
        match value % 10 {
            0 => Move::Zero,
            1 => Move::One,
            2 => Move::Two,
            3 => Move::Three,
            4 => Move::Four,
            5 => Move::Five,
            6 => Move::Six,
            7 => Move::Seven,
            8 => Move::Eight,
            _ => Move::Nine,
        }
    }
}

impl vstd::std_specs::convert::FromSpecImpl<u8> for Move {
    open spec fn obeys_from_spec() -> bool {
        true
    }

    open spec fn from_spec(v: u8) -> Move {
        Move::of_digit(v as int)
    }
}

/// Whether `c` is an ASCII decimal digit.
pub open spec fn is_digit(c: char) -> bool {
    48 <= (c as int) <= 57
}

/// The value of a string of ASCII decimal digits, most significant first.
pub open spec fn decimal_value(s: Seq<char>) -> int
    decreases s.len(),
{
    if s.len() == 0 {
        0
    } else {
        decimal_value(s.drop_last()) * 10 + (s.last() as int - 48)
    }
}

/// `s` without a leading `+`, if it has one.
pub open spec fn unsigned_part(s: Seq<char>) -> Seq<char> {
    if s.len() > 0 && s[0] == '+' {
        s.drop_first()
    } else {
        s
    }
}

/// Whether every character of `s` is a decimal digit.
pub open spec fn all_digits(s: Seq<char>) -> bool {
    forall|i: int| 0 <= i < s.len() ==> is_digit(#[trigger] s[i])
}

/// What `u8::from_str` reads from `s`: an optional `+` followed by one or
/// more decimal digits whose value fits in a byte; anything else (an empty
/// string, a sign alone, another character, a value over 255) is refused.
pub open spec fn parsed_u8(s: Seq<char>) -> Option<u8> {
    let digits = unsigned_part(s);
    if digits.len() > 0 && all_digits(digits) && decimal_value(digits) <= 255 {
        Some(decimal_value(digits) as u8)
    } else {
        None
    }
}

/// A string of digits is worth at least each of its prefixes, and nothing
/// negative.
proof fn lemma_decimal_prefix(s: Seq<char>, k: int)
    requires
        0 <= k <= s.len(),
        forall|i: int| 0 <= i < s.len() ==> is_digit(#[trigger] s[i]),
    ensures
        0 <= decimal_value(s.take(k)) <= decimal_value(s),
    decreases s.len(),
{
    if s.len() > 0 {
        let rest = s.drop_last();
        if k < s.len() {
            lemma_decimal_prefix(rest, k);
            assert(rest.take(k) =~= s.take(k));
            lemma_decimal_prefix(rest, rest.len() as int);
            assert(rest.take(rest.len() as int) =~= rest);
        } else {
            lemma_decimal_prefix(rest, rest.len() as int);
            assert(rest.take(rest.len() as int) =~= rest);
            assert(s.take(k) =~= s);
        }
    }
}

/// Read a byte the way `u8::from_str` does: an optional `+` followed by one
/// or more decimal digits whose value is at most 255.
fn parse_u8(s: &str) -> (r: Option<u8>)
    ensures
        r == parsed_u8(s@),
{
    let len = s.unicode_len();
    let start: usize = if len > 0 && s.get_char(0) == '+' {
        1
    } else {
        0
    };
    let ghost digits = unsigned_part(s@);
    assert(digits =~= s@.subrange(start as int, len as int));
    if start >= len {
        return None;
    }
    let mut value: u32 = 0;
    let mut i: usize = start;
    while i < len
        invariant
            start <= i <= len,
            start < len,
            len == s@.len(),
            digits == s@.subrange(start as int, len as int),
            digits == unsigned_part(s@),
            forall|j: int| 0 <= j < i - start ==> is_digit(#[trigger] digits[j]),
            value == decimal_value(digits.take(i - start)),
            value <= 255,
        decreases len - i,
    {
        let c = s.get_char(i);
        let code = c as u32;
        assert(digits[i - start] == c);
        if code < 48 || code > 57 {
            assert(!is_digit(digits[i - start]));
            assert(!all_digits(digits));
            return None;
        }
        assert(digits.take(i - start + 1).drop_last() =~= digits.take(i - start));
        value = value * 10 + (code - 48);
        if value > 255 {
            proof {
                if all_digits(digits) {
                    lemma_decimal_prefix(digits, i - start + 1);
                }
            }
            return None;
        }
        i = i + 1;
    }
    assert(digits.take(len - start) =~= digits);
    Some(value as u8)
}

/// The text given for a move is not a decimal number from 0 to 255.
#[derive(Debug, Clone, Copy, PartialEq, Eq, Structural)]
pub struct ParseMoveError;

impl Move {
    /// Read a move from text: a decimal number from 0 to 255, of which the
    /// last digit selects the move.
    pub fn parse(s: &str) -> (r: Result<Move, ParseMoveError>)
        ensures
            match parsed_u8(s@) {
                Some(v) => r == Ok::<Move, ParseMoveError>(Move::of_digit(v as int)),
                None => r == Err::<Move, ParseMoveError>(ParseMoveError),
            },
    {
        match parse_u8(s) {
            Some(value) => Ok(Move::from(value)),
            None => Err(ParseMoveError),
        }
    }
}

impl FromStr for Move {
    type Err = ParseMoveError;

    fn from_str(s: &str) -> (r: Result<Self, Self::Err>)
        ensures
            match parsed_u8(s@) {
                Some(v) => r == Ok::<Move, ParseMoveError>(Move::of_digit(v as int)),
                None => r == Err::<Move, ParseMoveError>(ParseMoveError),
            },
    {
        Move::parse(s)
    }
}

/// Every digit selects the move of that digit, and the moves of the digits
/// are pairwise distinct.
pub proof fn lemma_digit_index(m: Move)
    ensures
        Move::of_digit(m.index() as int) == m,
        m.index() < 10,
{
}

/// Taking a digit modulo ten does not change the move it selects.
pub proof fn lemma_digit_periodic(d: int)
    ensures
        Move::of_digit(d + 10) == Move::of_digit(d),
        Move::of_digit(d).index() == d % 10,
{
}

} // verus!
