use crate::action::Move;
use crate::random::Rng;
use vstd::prelude::*;
use vstd::string::StringExecFns;

verus! {

/// How far a move has recharged: `value` counts up to `total`.
#[derive(Clone, Copy, PartialEq, Eq, Debug, Default)]
pub struct Cooldown {
    pub value: u8,
    pub total: u8,
}

impl Cooldown {
    pub open spec fn spec_full(self) -> bool {
        self.value == self.total
    }

    /// The cooldown after the move was used.
    pub open spec fn spec_consumed(self) -> Cooldown {
        Cooldown { value: 0, ..self }
    }

    /// The cooldown after one recharge step.
    pub open spec fn spec_increased(self) -> Cooldown {
        if self.value < self.total {
            Cooldown { value: (self.value + 1) as u8, ..self }
        } else {
            self
        }
    }

    /// The highest roll (out of 0..=255) that still lets a move that is not
    /// recharged go through: `255 / total` times `value`, capped at 255.
    pub open spec fn chance(self) -> int {
        let c = (255int / (self.total as int)) * (self.value as int);
        if c > 255 {
            255
        } else {
            c
        }
    }

    /// Whether an attempt with the roll `roll` succeeds.
    pub open spec fn spec_attempt_succeeds(self, roll: u8) -> bool {
        self.spec_full() || roll <= self.chance()
    }

    /// A cooldown can be rolled against if it is recharged or has a nonzero
    /// duration (the chance divides by the duration).
    pub open spec fn rollable(self) -> bool {
        self.spec_full() || self.total != 0
    }

    pub fn new(duration: u8) -> (c: Self)
        ensures
            c.value == duration,
            c.total == duration,
    {
        Self { value: duration, total: duration }
    }

    pub fn increase(&mut self)
        ensures
            *final(self) == old(self).spec_increased(),
    {
        if self.value < self.total {
            self.value += 1;
        }
    }

    pub fn full(&self) -> (r: bool)
        ensures
            r == self.spec_full(),
    {
        self.value == self.total
    }

    pub fn consume(&mut self)
        ensures
            *final(self) == old(self).spec_consumed(),
    {
        self.value = 0;
    }

    /// Attempt to use the move with the given roll: a recharged move always
    /// goes through, another one only if `roll` is at most `chance()`. A
    /// successful attempt consumes the cooldown.
    pub fn attempt_with_roll(&mut self, roll: u8) -> (r: bool)
        requires
            old(self).rollable(),
        ensures
            r == old(self).spec_attempt_succeeds(roll),
            r ==> *final(self) == old(self).spec_consumed(),
            !r ==> *final(self) == *old(self),
    {
        if !self.full() {
            let quotient: u8 = u8::MAX / self.total;
            assert((quotient as u16) * (self.value as u16) <= 255 * 255) by (nonlinear_arith)
                requires
                    quotient <= 255,
                    self.value <= 255,
            ;
            let product: u16 = (quotient as u16) * (self.value as u16);
            let chance: u8 = if product > 255 {
                255
            } else {
                product as u8
            };
            if roll > chance {
                return false;
            }
        }
        self.consume();
        true
    }

    /// Attempt to use the move, rolling a random byte if it has not fully
    /// recharged. A recharged move always goes through.
    pub fn attempt<R: Rng>(&mut self, rng: &mut R) -> (r: bool)
        requires
            old(self).rollable(),
        ensures
            old(self).spec_full() ==> r && *final(rng) == *old(rng),
            !old(self).spec_full() ==> r == old(self).spec_attempt_succeeds(old(rng).peek()),
            r ==> *final(self) == old(self).spec_consumed(),
            !r ==> *final(self) == *old(self),
    {
        if !self.full() {
            let roll = rng.get();
            return self.attempt_with_roll(roll);
        }
        self.consume();
        true
    }
}

/// Bit `i` of `bits`, counted from the least significant bit.
pub open spec fn bit(bits: int, i: int) -> bool
    decreases i,
{
    if i <= 0 {
        bits % 2 == 1
    } else {
        bit(bits / 2, i - 1)
    }
}

/// The cooldowns of the ten moves; a move without one is locked.
#[derive(Clone, Copy, PartialEq, Debug)]
pub struct CooldownSet {
    pub values: [Option<Cooldown>; 10],
}

impl View for CooldownSet {
    type V = Seq<Option<Cooldown>>;

    open spec fn view(&self) -> Seq<Option<Cooldown>> {
        self.values@
    }
}

/// The cooldown of move `mv` in `cds`, if the move is unlocked.
pub open spec fn cooldown_of(cds: Seq<Option<Cooldown>>, mv: Move) -> Option<Cooldown> {
    cds[mv.index() as int]
}

/// `cds` after the cooldown of `mv` (if any) was consumed.
pub open spec fn consumed(cds: Seq<Option<Cooldown>>, mv: Move) -> Seq<Option<Cooldown>> {
    match cooldown_of(cds, mv) {
        Some(cd) => cds.update(mv.index() as int, Some(cd.spec_consumed())),
        None => cds,
    }
}

/// `cds` after every unlocked cooldown recharged one step.
pub open spec fn increased(cds: Seq<Option<Cooldown>>) -> Seq<Option<Cooldown>> {
    cds.map_values(|c: Option<Cooldown>| match c {
        Some(cd) => Some(cd.spec_increased()),
        None => None,
    })
}

/// The cooldowns of a fresh fighter: moves whose bit is set in `unlocked`
/// get a recharged cooldown of `duration`, the others stay locked.
pub open spec fn initial_cooldowns(duration: u8, unlocked: u16) -> Seq<Option<Cooldown>> {
    Seq::new(
        10,
        |i: int|
            if bit(unlocked as int, i) {
                Some(Cooldown { value: duration, total: duration })
            } else {
                None
            },
    )
}

/// Whether every unlocked cooldown can be rolled against.
pub open spec fn all_rollable(cds: Seq<Option<Cooldown>>) -> bool {
    forall|i: int|
        0 <= i < cds.len() ==> match #[trigger] cds[i] {
            Some(cd) => cd.rollable(),
            None => true,
        }
}

/// The position of a move's cooldown: its digit.
fn slot(mv: &Move) -> (i: usize)
    ensures
        i == mv.index(),
{
    match mv {
        Move::Zero => 0,
        Move::One => 1,
        Move::Two => 2,
        Move::Three => 3,
        Move::Four => 4,
        Move::Five => 5,
        Move::Six => 6,
        Move::Seven => 7,
        Move::Eight => 8,
        Move::Nine => 9,
    }
}

impl CooldownSet {
    /// A set in which each move whose bit is set in `unlocked` (bit 0 for
    /// move Zero) has a fully recharged cooldown of `duration`.
    pub fn new(duration: u8, unlocked: u16) -> (s: Self)
        ensures
            s@ == initial_cooldowns(duration, unlocked),
    {
        let mut values: [Option<Cooldown>; 10] = [None; 10];
        let mut rest: u16 = unlocked;
        let mut idx: usize = 0;
        while idx < 10
            invariant
                0 <= idx <= 10,
                values@.len() == 10,
                forall|j: int| 0 <= j < idx ==> values@[j] == initial_cooldowns(duration, unlocked)[j],
                forall|j: int| idx <= j < 10 ==> values@[j] is None,
                forall|j: int| idx <= j < 10 ==> bit(unlocked as int, j) == bit(rest as int, j - idx),
            decreases 10 - idx,
        {
            if rest & 1 == 1 {
                values[idx] = Some(Cooldown::new(duration));
            }
            assert((rest & 1 == 1) == (rest % 2 == 1)) by (bit_vector);
            assert(rest >> 1 == rest / 2) by (bit_vector);
            assert forall|j: int| idx + 1 <= j < 10 implies bit(unlocked as int, j) == bit(
                (rest / 2) as int,
                j - (idx + 1),
            ) by {
                assert(bit(rest as int, j - idx) == bit(rest as int / 2, j - idx - 1));
            }
            rest = rest >> 1;
            idx += 1;
        }
        assert(values@ =~= initial_cooldowns(duration, unlocked));
        CooldownSet { values }
    }

    /// This set with the cooldown of `mv` consumed.
    pub fn and_consumed(self, mv: &Move) -> (s: Self)
        ensures
            s@ == consumed(self@, *mv),
    {
        let mut s = self;
        s.consume(mv);
        s
    }

    /// Consume the cooldown of `mv`, if the move is unlocked.
    pub fn consume(&mut self, mv: &Move)
        ensures
            final(self)@ == consumed(old(self)@, *mv),
    {
        let i = slot(mv);
        if let Some(cd) = self.values[i] {
            let mut cd = cd;
            cd.consume();
            self.values[i] = Some(cd);
        }
        assert(final(self)@ =~= consumed(old(self)@, *mv));
    }

    /// The cooldowns of all ten moves, in the order of their digits.
    pub fn iter(&self) -> (v: Vec<Option<Cooldown>>)
        ensures
            v@ == self@,
    {
        let mut v: Vec<Option<Cooldown>> = Vec::new();
        let mut i: usize = 0;
        while i < 10
            invariant
                i <= 10,
                v@ == self@.take(i as int),
            decreases 10 - i,
        {
            v.push(self.values[i]);
            i += 1;
            assert(v@ =~= self@.take(i as int));
        }
        assert(self@.take(10) =~= self@);
        v
    }

    pub fn get(&self, mv: &Move) -> (c: Option<&Cooldown>)
        ensures
            match cooldown_of(self@, *mv) {
                None => c is None,
                Some(cd) => c is Some && *c.unwrap() == cd,
            },
    {
        let i = slot(mv);
        match &self.values[i] {
            Some(cd) => Some(cd),
            None => None,
        }
    }

    pub fn get_mut(&mut self, mv: &Move) -> (c: Option<&mut Cooldown>)
        ensures
            match cooldown_of(old(self)@, *mv) {
                None => c is None && final(self)@ == old(self)@,
                Some(cd) => c is Some && *c.unwrap() == cd && final(self)@ == old(self)@.update(
                    mv.index() as int,
                    Some(*final(c.unwrap())),
                ),
            },
    {
        let i = slot(mv);
        self.values[i].as_mut()
    }

    /// Attempt to use `mv`: a locked move always fails, an unlocked one goes
    /// through as `Cooldown::attempt` decides.
    pub fn attempt<R: Rng>(&mut self, rng: &mut R, mv: &Move) -> (r: bool)
        requires
            all_rollable(old(self)@),
        ensures
            cooldown_of(old(self)@, *mv) is None ==> !r && *final(rng) == *old(rng),
            (cooldown_of(old(self)@, *mv) matches Some(cd) && cd.spec_full()) ==> r && *final(rng) == *old(rng),
            cooldown_of(old(self)@, *mv) matches Some(cd) ==> (!cd.spec_full() ==> r
                == cd.spec_attempt_succeeds(old(rng).peek())),
            r ==> final(self)@ == consumed(old(self)@, *mv),
            !r ==> final(self)@ == old(self)@,
    {
        let i = slot(mv);
        match self.values[i] {
            Some(cd) => {
                let mut cd = cd;
                assert(cd.rollable());
                let r = cd.attempt(rng);
                if r {
                    self.values[i] = Some(cd);
                    assert(self@ =~= consumed(old(self)@, *mv));
                }
                r
            },
            None => false,
        }
    }

    /// Recharge every unlocked cooldown by one step.
    pub fn increase(&mut self)
        ensures
            final(self)@ == increased(old(self)@),
    {
        let mut i: usize = 0;
        while i < 10
            invariant
                i <= 10,
                self@.len() == 10,
                forall|j: int| 0 <= j < i ==> self@[j] == increased(old(self)@)[j],
                forall|j: int| i <= j < 10 ==> self@[j] == old(self)@[j],
            decreases 10 - i,
        {
            if let Some(cd) = self.values[i] {
                let mut cd = cd;
                cd.increase();
                self.values[i] = Some(cd);
            }
            i += 1;
        }
        assert(self@ =~= increased(old(self)@));
    }
}

impl From<[Option<Cooldown>; 10]> for CooldownSet {
    fn from(values: [Option<Cooldown>; 10]) -> (s: CooldownSet)
        ensures
            s@ == values@,
    {
        CooldownSet { values }
    }
}

impl vstd::std_specs::convert::FromSpecImpl<[Option<Cooldown>; 10]> for CooldownSet {
    open spec fn obeys_from_spec() -> bool {
        true
    }

    open spec fn from_spec(values: [Option<Cooldown>; 10]) -> CooldownSet {
        CooldownSet { values }
    }
}

/// Which moves are unlocked in `cds`.
pub open spec fn unlocked(cds: Seq<Option<Cooldown>>, mv: Move) -> bool {
    cooldown_of(cds, mv) is Some
}

/// The odds of an attempt: a cooldown that has not recharged goes through
/// exactly on a roll of at most `255 / total * value` (at most 255); so a
/// roll of zero always goes through, a lower roll goes through whenever a
/// higher one does, and the more the cooldown has recharged the better the
/// odds. A recharged cooldown goes through on any roll.
pub proof fn lemma_attempt_odds(c: Cooldown, roll: u8)
    requires
        c.rollable(),
    ensures
        c.spec_full() ==> c.spec_attempt_succeeds(roll),
        !c.spec_full() ==> (c.spec_attempt_succeeds(roll) <==> roll as int <= (if (255int / c.total as int)
            * c.value as int > 255 {
            255
        } else {
            (255int / c.total as int) * c.value as int
        })),
        c.spec_attempt_succeeds(0),
        forall|low: u8| low <= roll && c.spec_attempt_succeeds(roll) ==> c.spec_attempt_succeeds(low),
        forall|v: u8|
            c.value <= v < c.total && c.spec_attempt_succeeds(roll) ==> (Cooldown {
                value: v,
                total: c.total,
            }).spec_attempt_succeeds(roll),
{
    if !c.spec_full() {
        assert(0 <= (255int / c.total as int) * c.value as int) by (nonlinear_arith)
            requires c.total > 0;
        assert forall|v: u8|
            c.value <= v < c.total && c.spec_attempt_succeeds(roll) implies (Cooldown {
                value: v,
                total: c.total,
            }).spec_attempt_succeeds(roll) by {
            assert((255int / c.total as int) * c.value as int <= (255int / c.total as int) * v as int)
                by (nonlinear_arith)
                requires c.value <= v, c.total > 0;
        }
    }
}

/// The cooldown after `n` recharge steps.
pub open spec fn increased_times(c: Cooldown, n: nat) -> Cooldown
    decreases n,
{
    if n == 0 {
        c
    } else {
        increased_times(c, (n - 1) as nat).spec_increased()
    }
}

/// Recharging counts up to the duration and then stays put: from a value
/// within the duration, `n` steps reach the value plus `n`, capped at the
/// duration; so `total - value` steps recharge the cooldown fully, and a
/// recharged cooldown is left as it is.
pub proof fn lemma_recharges(c: Cooldown, n: nat)
    requires
        c.value <= c.total,
    ensures
        increased_times(c, n).total == c.total,
        increased_times(c, n).value == (if c.value + n < c.total {
            c.value + n
        } else {
            c.total as int
        }),
        n >= c.total - c.value ==> increased_times(c, n).spec_full(),
        c.spec_full() ==> c.spec_increased() == c,
    decreases n,
{
    if n > 0 {
        lemma_recharges(c, (n - 1) as nat);
    }
}

/// Consuming a cooldown keeps every cooldown rollable and unlocks or locks
/// no move.
pub proof fn lemma_consumed_keeps(cds: Seq<Option<Cooldown>>, m: Move)
    requires
        cds.len() == 10,
    ensures
        consumed(cds, m).len() == 10,
        all_rollable(cds) ==> all_rollable(consumed(cds, m)),
        forall|x: Move| unlocked(consumed(cds, m), x) == unlocked(cds, x),
{
    crate::action::lemma_digit_index(m);
    assert forall|x: Move| unlocked(consumed(cds, m), x) == unlocked(cds, x) by {
        crate::action::lemma_digit_index(x);
    }
}

/// Recharging keeps every cooldown rollable and unlocks or locks no move.
pub proof fn lemma_increased_keeps(cds: Seq<Option<Cooldown>>)
    requires
        cds.len() == 10,
    ensures
        increased(cds).len() == 10,
        all_rollable(cds) ==> all_rollable(increased(cds)),
        forall|x: Move| unlocked(increased(cds), x) == unlocked(cds, x),
{
    assert forall|x: Move| unlocked(increased(cds), x) == unlocked(cds, x) by {
        crate::action::lemma_digit_index(x);
    }
    if all_rollable(cds) {
        assert forall|i: int| 0 <= i < increased(cds).len() implies match #[trigger] increased(
            cds,
        )[i] {
            Some(cd) => cd.rollable(),
            None => true,
        } by {
            assert(cds[i] matches Some(cd) ==> cd.rollable());
        }
    }
}

/// A fresh set of cooldowns is rollable.
pub proof fn lemma_initial_rollable(duration: u8, bits: u16)
    ensures
        initial_cooldowns(duration, bits).len() == 10,
        all_rollable(initial_cooldowns(duration, bits)),
        forall|x: Move| unlocked(initial_cooldowns(duration, bits), x) == bit(bits as int, x.index() as int),
{
    assert forall|x: Move| unlocked(initial_cooldowns(duration, bits), x) == bit(bits as int, x.index() as int) by {
        crate::action::lemma_digit_index(x);
    }
}

} // verus!

verus! {

/// The character of the decimal digit `d`.
pub open spec fn digit_char(d: int) -> char {
    (d + 48) as char
}

/// The decimal digits of `n`, most significant first.
pub open spec fn decimal(n: nat) -> Seq<char>
    decreases n,
{
    if n < 10 {
        seq![digit_char(n as int)]
    } else {
        decimal(n / 10).push(digit_char((n % 10) as int))
    }
}

/// The text of the decimal digit `d`.
fn digit_str(d: u8) -> (s: &'static str)
    requires
        d < 10,
    ensures
        s@ == seq![digit_char(d as int)],
{
    proof {
        reveal_strlit("0");
        reveal_strlit("1");
        reveal_strlit("2");
        reveal_strlit("3");
        reveal_strlit("4");
        reveal_strlit("5");
        reveal_strlit("6");
        reveal_strlit("7");
        reveal_strlit("8");
        reveal_strlit("9");
    }
    match d {
        0 => "0",
        1 => "1",
        2 => "2",
        3 => "3",
        4 => "4",
        5 => "5",
        6 => "6",
        7 => "7",
        8 => "8",
        _ => "9",
    }
}

/// `n` written in decimal.
pub fn decimal_string(n: u8) -> (s: String)
    ensures
        s@ == decimal(n as nat),
{
    proof {
        reveal_with_fuel(decimal, 3);
    }
    let mut s = String::new();
    if n >= 100 {
        s.append(digit_str(n / 100));
    }
    if n >= 10 {
        s.append(digit_str(n / 10 % 10));
    }
    s.append(digit_str(n % 10));
    proof {
        if n >= 100 {
            assert(decimal((n / 10) as nat) == decimal((n / 100) as nat).push(digit_char((n / 10 % 10) as int)));
            assert(s@ =~= decimal(n as nat));
        } else if n >= 10 {
            assert(s@ =~= decimal(n as nat));
        } else {
            assert(s@ =~= decimal(n as nat));
        }
    }
    s
}

impl Cooldown {
    /// The cooldown as text: `Cooldown { value/total }`.
    pub open spec fn spec_describe(self) -> Seq<char> {
        "Cooldown { "@ + decimal(self.value as nat) + "/"@ + decimal(self.total as nat) + " }"@
    }

    /// The cooldown as text: `Cooldown { value/total }`.
    pub fn describe(&self) -> (s: String)
        ensures
            s@ == self.spec_describe(),
    {
        let mut s = String::from_str("Cooldown { ");
        let value = decimal_string(self.value);
        s.append(value.as_str());
        s.append("/");
        let total = decimal_string(self.total);
        s.append(total.as_str());
        s.append(" }");
        s
    }
}

/// The text of one slot: its cooldown, or `-` for a locked move.
pub open spec fn entry_text(c: Option<Cooldown>) -> Seq<char> {
    match c {
        Some(cd) => cd.spec_describe(),
        None => "-"@,
    }
}

/// The texts of the slots `cds`, separated by `, `.
pub open spec fn entries_text(cds: Seq<Option<Cooldown>>) -> Seq<char>
    decreases cds.len(),
{
    if cds.len() == 0 {
        Seq::empty()
    } else if cds.len() == 1 {
        entry_text(cds[0])
    } else {
        entries_text(cds.drop_last()) + ", "@ + entry_text(cds.last())
    }
}

impl CooldownSet {
    /// Whether every cooldown of the set can be rolled against: each one is
    /// recharged or has a nonzero duration.
    pub fn all_rollable(&self) -> (r: bool)
        ensures
            r == all_rollable(self@),
    {
        let mut i: usize = 0;
        while i < 10
            invariant
                i <= 10,
                self@.len() == 10,
                forall|j: int| 0 <= j < i ==> match #[trigger] self@[j] {
                    Some(cd) => cd.rollable(),
                    None => true,
                },
            decreases 10 - i,
        {
            if let Some(cd) = &self.values[i] {
                if !(cd.value == cd.total || cd.total != 0) {
                    assert(!cd.rollable());
                    return false;
                }
            }
            i = i + 1;
        }
        true
    }

    /// The set as text: `CooldownSet [ ` then each slot (a cooldown, or `-`
    /// for a locked move) separated by `, `, then ` ]`.
    pub fn describe(&self) -> (s: String)
        ensures
            s@ == "CooldownSet [ "@ + entries_text(self@) + " ]"@,
    {
        let mut s = String::from_str("CooldownSet [ ");
        let mut i: usize = 0;
        while i < 10
            invariant
                i <= 10,
                self@.len() == 10,
                s@ == "CooldownSet [ "@ + entries_text(self@.take(i as int)),
            decreases 10 - i,
        {
            let ghost before = s@;
            if i > 0 {
                s.append(", ");
            }
            let entry = match &self.values[i] {
                Some(cd) => cd.describe(),
                None => String::from_str("-"),
            };
            s.append(entry.as_str());
            proof {
                assert(self@.take(i + 1).drop_last() =~= self@.take(i as int));
                assert(self@.take(i + 1).last() == self@[i as int]);
                if i == 0 {
                    assert(self@.take(0) =~= Seq::<Option<Cooldown>>::empty());
                    assert(s@ =~= "CooldownSet [ "@ + entries_text(self@.take(i + 1)));
                } else {
                    assert(s@ =~= "CooldownSet [ "@ + entries_text(self@.take(i + 1)));
                }
            }
            i = i + 1;
        }
        s.append(" ]");
        assert(self@.take(10) =~= self@);
        s
    }
}

} // verus!
