//! The layout of the moon cut scene.
use crate::gfx::Point;
use crate::machine::moon::Moon;
use vstd::prelude::*;

verus! {

/// How far above the middle of the screen the moon rests.
pub const MOON_RAISE: i32 = 75;

/// How far below the middle of the screen the line of text goes.
pub const DIALOGUE_DROP: i32 = 25;

/// How far below the middle of the screen the hint goes.
pub const HINT_DROP: i32 = 150;

/// Where the moon image goes: centred on the screen's centre `center`
/// (the image's own centre being `image_center`), raised by `MOON_RAISE`,
/// and raised further by `scroll`.
pub open spec fn moon_origin(center: Point, image_center: Point, scroll: int) -> Point {
    Point {
        x: (center.x - image_center.x) as i32,
        y: (center.y - image_center.y - MOON_RAISE - scroll) as i32,
    }
}

/// The top-left corner of the moon image for a scene scrolled by `scroll`.
pub fn image_origin(center: Point, image_center: Point, scroll: i32) -> (p: Point)
    requires
        i32::MIN <= center.x - image_center.x <= i32::MAX,
        i32::MIN <= center.y - image_center.y - MOON_RAISE - scroll <= i32::MAX,
        i32::MIN <= center.y - image_center.y <= i32::MAX,
        i32::MIN <= center.y - image_center.y - MOON_RAISE <= i32::MAX,
    ensures
        p == moon_origin(center, image_center, scroll as int),
{
    Point { x: center.x - image_center.x, y: center.y - image_center.y - MOON_RAISE - scroll }
}

/// The line of text shown: once the moon is in place and the text delay
/// has passed, the current line, if any is left; else none.
pub fn caption(moon: &Moon) -> (c: Option<&'static str>)
    ensures
        c == (if moon.spec_animation_done() && moon.timer.spec_is_due() && moon.idx
            < moon.spec_lines().len() {
            Some(moon.spec_lines()[moon.idx as int])
        } else {
            None
        }),
{
    if moon.animation_done() && moon.timer.is_due() {
        moon.line()
    } else {
        None
    }
}

/// Where the caption goes, centred, below the screen's centre `center`.
pub fn caption_at(center: Point) -> (p: Point)
    requires
        center.y + DIALOGUE_DROP <= i32::MAX,
    ensures
        p == (Point { x: center.x, y: (center.y + DIALOGUE_DROP) as i32 }),
{
    Point { x: center.x, y: center.y + DIALOGUE_DROP }
}

/// Where the hint on how to go on goes, centred, below the caption.
pub fn hint_at(center: Point) -> (p: Point)
    requires
        center.y + HINT_DROP <= i32::MAX,
    ensures
        p == (Point { x: center.x, y: (center.y + HINT_DROP) as i32 }),
{
    Point { x: center.x, y: center.y + HINT_DROP }
}

} // verus!
