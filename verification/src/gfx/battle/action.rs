//! The boxes of the player's moves, with their cooldown bars.
use crate::cooldown::Cooldown;
use crate::gfx::{center_of, rect_center, Point, Rect, HEIGHT, WIDTH};
use vstd::prelude::*;

verus! {

/// How many boxes the row has room for.
pub const NUM: u32 = 10;

/// The side of a box.
pub const RECT_SIZE: u32 = 20;

/// The gap between boxes.
pub const RECT_PAD: i32 = 5;

/// The width of a box's border.
pub const BORDER: u32 = 1;

/// The side of a box inside its border.
pub const RECT_INNER: u32 = 18;

/// The width of a cooldown bar.
pub const COOLDOWN_WIDTH: u32 = 3;

/// The top-left corner of the row of boxes: `NUM` boxes and their gaps end
/// one gap before the right edge, and the row ends one gap above the
/// bottom.
pub open spec fn row_origin() -> Point {
    Point {
        x: (WIDTH - NUM * (RECT_SIZE + RECT_PAD) - RECT_PAD) as i32,
        y: (HEIGHT - RECT_SIZE - RECT_PAD) as i32,
    }
}

/// The box of the move with digit `num`.
pub open spec fn box_of(num: int) -> Rect {
    Rect {
        x: (row_origin().x + (RECT_SIZE + RECT_PAD) * num) as i32,
        y: row_origin().y,
        width: RECT_SIZE,
        height: RECT_SIZE,
    }
}

/// How much of the bar a cooldown fills: nothing when it is recharged, else
/// its share of the bar's height, at least two pixels and at most all of
/// it.
pub open spec fn bar_height(cd: Cooldown) -> int {
    if cd.spec_full() {
        0
    } else {
        let h = (cd.value as int * RECT_INNER) / (cd.total as int);
        if h < 2 {
            2
        } else if h > RECT_INNER {
            RECT_INNER as int
        } else {
            h
        }
    }
}

/// What to draw for the move with digit `num`.
#[derive(Debug, Clone, Copy, PartialEq, Eq, Structural)]
pub struct AbilityBox {
    pub num: usize,
    /// The box, drawn as a border.
    pub frame: Rect,
    /// Where the digit goes.
    pub label_at: Point,
    /// The move is recharged: its digit is drawn bright, else grey.
    pub full: bool,
    /// The part of the bar left black.
    pub empty_bar: Rect,
    /// The part of the bar filled with the charge.
    pub charge_bar: Rect,
}

/// The height of the charged part of the cooldown bar.
pub fn cooldown_height(cd: &Cooldown) -> (h: u32)
    requires
        cd.rollable(),
    ensures
        h == bar_height(*cd),
{
    if !cd.full() {
        let h: u32 = (cd.value as u32 * RECT_INNER) / cd.total as u32;
        if h < 2 {
            2
        } else if h > RECT_INNER {
            RECT_INNER
        } else {
            h
        }
    } else {
        0
    }
}

/// The two parts of the cooldown bar inside `rect`, along its right border:
/// black above, the charge below.
pub fn cooldown_bars(rect: Rect, cd: &Cooldown) -> (bars: (Rect, Rect))
    requires
        cd.rollable(),
        rect.x + RECT_SIZE <= i32::MAX,
        rect.y + RECT_SIZE <= i32::MAX,
    ensures
        bars == bars_of(rect, *cd),
{
    let h = cooldown_height(cd);
    let x: i32 = rect.x + (RECT_SIZE - COOLDOWN_WIDTH - BORDER) as i32;
    let y: i32 = rect.y + BORDER as i32;
    (
        Rect { x, y, width: COOLDOWN_WIDTH, height: RECT_INNER - h },
        Rect { x, y: y + (RECT_INNER - h) as i32, width: COOLDOWN_WIDTH, height: h },
    )
}

/// The two parts of the cooldown bar of `cd` inside `rect`, along its right
/// border: black above, the charge below.
pub open spec fn bars_of(rect: Rect, cd: Cooldown) -> (Rect, Rect) {
    let h = bar_height(cd);
    let x = rect.x + RECT_SIZE - COOLDOWN_WIDTH - BORDER;
    let y = rect.y + BORDER;
    (
        Rect { x: x as i32, y: y as i32, width: COOLDOWN_WIDTH, height: (RECT_INNER - h) as u32 },
        Rect { x: x as i32, y: (y + RECT_INNER - h) as i32, width: COOLDOWN_WIDTH, height: h as u32 },
    )
}

/// The box of the move with digit `num`, whose cooldown is `cd`: the box at
/// its place in the row, the digit just up and left of its centre, and the
/// cooldown bar.
pub open spec fn ability_box(num: int, cd: Cooldown) -> AbilityBox {
    let frame = box_of(num);
    AbilityBox {
        num: num as usize,
        frame,
        label_at: Point { x: (center_of(frame).x - 1) as i32, y: (center_of(frame).y - 4) as i32 },
        full: cd.spec_full(),
        empty_bar: bars_of(frame, cd).0,
        charge_bar: bars_of(frame, cd).1,
    }
}

/// Lay out the box of the move with digit `num`, whose cooldown is `cd`.
pub fn render(num: usize, cd: &Cooldown) -> (b: AbilityBox)
    requires
        num < 1000,
        cd.rollable(),
    ensures
        b == ability_box(num as int, *cd),
{
    // The boxes are RECT_SIZE + RECT_PAD = 25 pixels apart; the row starts
    // at x = 320 - 10 * 25 - 5 and y = 480 - 20 - 5.
    let origin_x: i32 = 65;
    let origin_y: i32 = 455;
    assert(row_origin() == (Point { x: 65, y: 455 }));
    let frame = Rect {
        x: origin_x + 25 * (num as i32),
        y: origin_y,
        width: RECT_SIZE,
        height: RECT_SIZE,
    };
    let center = rect_center(frame);
    let label_at = Point { x: center.x - 1, y: center.y - 4 };
    let (empty_bar, charge_bar) = cooldown_bars(frame, cd);
    AbilityBox { num, frame, label_at, full: cd.full(), empty_bar, charge_bar }
}

} // verus!
