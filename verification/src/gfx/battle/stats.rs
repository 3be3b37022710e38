//! The block of a fighter's stats.
use crate::action::{Decision, Move};
use crate::cooldown::{cooldown_of, Cooldown};
use crate::fighter::Fighter;
use crate::gfx::{Point, CHAR_HEIGHT, CHAR_WIDTH, WIDTH};
use vstd::prelude::*;

verus! {

/// How many characters the longest line of the block holds.
pub const CAP: usize = 20;

/// The width of the block: `CAP` characters of the text font.
pub const STATS_WIDTH: i32 = 140;

/// The line about a move: its kind and name, and how far it has recharged
/// (in percent) unless it is recharged.
#[derive(Debug, Clone, Copy, PartialEq, Eq, Structural)]
pub struct MoveLine {
    pub at: Point,
    pub decision: Decision,
    pub mv: Move,
    pub percent: Option<u32>,
}

/// A fighter's stats: health and energy on two lines at `at`, and the line
/// about a move three lines below, if one is shown.
#[derive(Debug, Clone, Copy, PartialEq, Eq, Structural)]
pub struct StatsView {
    pub at: Point,
    pub health: u16,
    pub energy: u16,
    pub energy_at: Point,
    pub move_line: Option<MoveLine>,
}

/// How far a cooldown has recharged, in percent, where it is not yet
/// recharged.
pub open spec fn percent_of(cd: Option<Cooldown>) -> Option<u32> {
    match cd {
        Some(c) => if c.spec_full() {
            None
        } else {
            Some(((c.value as int * 100) / (c.total as int)) as u32)
        },
        None => None,
    }
}

/// Where the block goes for the requested corner `point`: moved left, if
/// need be, so that its widest line fits the screen.
pub open spec fn block_at(point: Point) -> Point {
    Point {
        x: if point.x <= WIDTH - STATS_WIDTH {
            point.x
        } else {
            (WIDTH - STATS_WIDTH) as i32
        },
        y: point.y,
    }
}

/// The stats of `fighter` laid out near `point`: the block moved left if it
/// would not fit, health and energy on its first two lines, and the line
/// about `mv`, if one is given, on its fourth.
pub open spec fn stats_view(point: Point, fighter: Fighter, mv: Option<Move>) -> StatsView {
    StatsView {
        at: block_at(point),
        health: fighter.health,
        energy: fighter.energy,
        energy_at: Point { x: block_at(point).x, y: (point.y + CHAR_HEIGHT) as i32 },
        move_line: match mv {
            Some(m) => Some(
                MoveLine {
                    at: Point { x: block_at(point).x, y: (point.y + 3 * CHAR_HEIGHT) as i32 },
                    decision: m.spec_to_decision(),
                    mv: m,
                    percent: percent_of(cooldown_of(fighter.cooldown@, m)),
                },
            ),
            None => None,
        },
    }
}

/// Lay out the stats of `fighter` near `point`, with the line about `mv` if
/// one is given.
pub fn render(point: Point, fighter: &Fighter, mv: Option<Move>) -> (v: StatsView)
    requires
        point.y + 3 * CHAR_HEIGHT <= i32::MAX,
        fighter.cooldown@.len() == 10,
        mv matches Some(m) ==> match cooldown_of(fighter.cooldown@, m) {
            Some(cd) => cd.rollable(),
            None => true,
        },
    ensures
        v == stats_view(point, *fighter, mv),
{
    let x: i32 = if point.x <= 180 {
        point.x
    } else {
        180
    };
    let at = Point { x, y: point.y };
    let move_line = match mv {
        Some(m) => {
            let percent = match fighter.cooldown.get(&m) {
                Some(cd) => if !cd.full() {
                    Some((cd.value as u32 * 100) / cd.total as u32)
                } else {
                    None
                },
                None => None,
            };
            Some(MoveLine { at: Point { x, y: point.y + 39 }, decision: m.to_decision(), mv: m, percent })
        },
        None => None,
    };
    StatsView {
        at,
        health: fighter.health,
        energy: fighter.energy,
        energy_at: Point { x, y: point.y + 13 },
        move_line,
    }
}

} // verus!
