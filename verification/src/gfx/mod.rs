//! Screen layout: where text, images and boxes go. Drawing them is left to
//! the caller.
pub mod battle;
pub mod dialogue;
pub mod glide;
pub mod intro;
pub mod moon;
pub mod shop;
pub mod text;

use embedded_graphics::prelude::{Point as EgPoint, Size as EgSize};
use embedded_graphics::primitives::Rectangle;
use vstd::prelude::*;

verus! {

/// The height of the screen in pixels.
pub const HEIGHT: u32 = 480;

/// The width of the screen in pixels.
pub const WIDTH: u32 = 320;

/// The width of a character of the text font.
pub const CHAR_WIDTH: u32 = 7;

/// The height of a character of the text font.
pub const CHAR_HEIGHT: u32 = 13;

/// A position on the screen, in pixels from the top-left corner.
#[derive(Debug, Clone, Copy, PartialEq, Eq, Structural)]
pub struct Point {
    pub x: i32,
    pub y: i32,
}

/// A rectangle: its top-left corner and its size.
#[derive(Debug, Clone, Copy, PartialEq, Eq, Structural)]
pub struct Rect {
    pub x: i32,
    pub y: i32,
    pub width: u32,
    pub height: u32,
}

/// The size of a character of a monospaced font.
#[derive(Debug, Clone, Copy, PartialEq, Eq, Structural)]
pub struct CharSize {
    pub width: u32,
    pub height: u32,
}

/// The size of a character of the text font.
pub fn text_font() -> (f: CharSize)
    ensures
        f.width == CHAR_WIDTH,
        f.height == CHAR_HEIGHT,
{
    CharSize { width: CHAR_WIDTH, height: CHAR_HEIGHT }
}

/// The step from one line of text to the next.
pub fn next_line(font: CharSize) -> (p: Point)
    requires
        font.height <= i32::MAX,
    ensures
        p.x == 0,
        p.y == font.height,
{
    Point { x: 0, y: font.height as i32 }
}

/// How far the centre of a side of `size` pixels lies from its start: half
/// of one less than the size, rounded down (zero for an empty side).
pub open spec fn center_offset(size: u32) -> int {
    if size == 0 {
        0
    } else {
        (size - 1) / 2
    }
}

/// The centre of `rect` as embedded-graphics places it.
pub open spec fn center_of(rect: Rect) -> Point {
    Point { x: (rect.x + center_offset(rect.width)) as i32, y: (rect.y + center_offset(rect.height)) as i32 }
}

/// `Rectangle::center` of embedded-graphics: the top-left corner moved along
/// each axis by half of one less than the size, rounded down, and by zero
/// for an empty side.
#[verifier::external_body]
pub(crate) fn rect_center(rect: Rect) -> (p: Point)
    requires
        rect.x + center_offset(rect.width) <= i32::MAX,
        rect.y + center_offset(rect.height) <= i32::MAX,
    ensures
        p == center_of(rect),
{
    let c = Rectangle::new(EgPoint::new(rect.x, rect.y), EgSize::new(rect.width, rect.height)).center();
    Point { x: c.x, y: c.y }
}

/// The horizontal offset of the character after the first `len`
/// characters.
pub open spec fn advance(font: CharSize, len: int) -> int {
    font.width * len
}

/// Whether `len` characters of `font` span a width that an `i32` holds.
pub open spec fn spans_i32(font: CharSize, len: int) -> bool {
    &&& font.width <= i32::MAX
    &&& 0 <= len <= i32::MAX
    &&& advance(font, len) <= i32::MAX
}

/// The width of `len` characters of `font`, as a coordinate.
pub fn advance_px(font: CharSize, len: usize) -> (r: i32)
    requires
        spans_i32(font, len as int),
    ensures
        r == advance(font, len as int),
{
    proof {
        assert(0 <= font.width * len) by (nonlinear_arith);
    }
    (font.width as i32) * (len as i32)
}

/// The width of `len` characters of `font`, as a size.
pub fn span_px(font: CharSize, len: usize) -> (r: u32)
    requires
        len <= u32::MAX,
        advance(font, len as int) <= u32::MAX,
    ensures
        r == advance(font, len as int),
{
    proof {
        assert(0 <= font.width * len) by (nonlinear_arith);
    }
    font.width * (len as u32)
}

/// The part of a text box `width` characters wide, starting at `point`, that
/// `text_len` characters leave blank: nothing when they fill it, else the
/// rest of the line.
pub open spec fn blank_rest(point: Point, font: CharSize, text_len: int, width: int) -> Option<Rect> {
    if width <= text_len {
        None
    } else {
        Some(
            Rect {
                x: (point.x + advance(font, text_len)) as i32,
                y: point.y,
                width: advance(font, width - text_len) as u32,
                height: font.height,
            },
        )
    }
}

/// Whether a text box fits the arithmetic of the screen: the text and the
/// whole box have widths, and end at positions, that the coordinate types
/// hold.
pub open spec fn box_fits(point: Point, font: CharSize, text_len: int, width: int) -> bool {
    &&& spans_i32(font, text_len)
    &&& spans_i32(font, width)
    &&& point.x + advance(font, text_len) <= i32::MAX
}

/// Products of a character width with lengths up to `width` stay within
/// that of `width`.
pub proof fn lemma_advance_monotone(font: CharSize, a: int, b: int)
    requires
        0 <= a <= b,
    ensures
        0 <= advance(font, a) <= advance(font, b),
        advance(font, b) == advance(font, a) + advance(font, b - a),
{
    assert(0 <= font.width * a <= font.width * b) by (nonlinear_arith)
        requires 0 <= a <= b;
    assert(font.width * b == font.width * a + font.width * (b - a)) by (nonlinear_arith);
}

/// The rectangle to blank after `text_len` characters drawn at `point` in
/// a box `width` characters wide.
pub fn clear_remaining_text_box(point: Point, font: CharSize, text_len: usize, width: usize) -> (r: Option<Rect>)
    requires
        box_fits(point, font, text_len as int, width as int),
    ensures
        r == blank_rest(point, font, text_len as int, width as int),
{
    let rest = width.saturating_sub(text_len);
    if rest == 0 {
        return None;
    }
    proof {
        lemma_advance_monotone(font, rest as int, width as int);
    }
    let delta = advance_px(font, text_len);
    Some(Rect { x: point.x + delta, y: point.y, width: span_px(font, rest), height: font.height })
}

} // verus!
