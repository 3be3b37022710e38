//! A line of text of fixed width, blanked after its text.
use crate::gfx::{advance, advance_px, blank_rest, box_fits, lemma_advance_monotone, span_px, spans_i32, CharSize, Point, Rect};
use vstd::prelude::*;

verus! {

/// A box `width_chars` characters wide at `point`, drawn in a font of the
/// size `font`.
#[derive(Debug, Clone, Copy, PartialEq, Eq, Structural)]
pub struct TextBox {
    pub point: Point,
    pub font: CharSize,
    pub width_chars: usize,
}

impl TextBox {
    pub fn new(point: Point, font: CharSize, width_chars: usize) -> (t: Self)
        ensures
            t.point == point,
            t.font == font,
            t.width_chars == width_chars,
    {
        Self { point, font, width_chars }
    }

    /// Place `text_len` characters at the box's position: the text goes
    /// there, and the box moves on past it and narrows by as much.
    pub fn render(&mut self, text_len: usize) -> (at: Point)
        requires
            spans_i32(old(self).font, text_len as int),
            old(self).point.x + advance(old(self).font, text_len as int) <= i32::MAX,
        ensures
            at == old(self).point,
            final(self).point == (Point {
                x: (old(self).point.x + advance(old(self).font, text_len as int)) as i32,
                y: old(self).point.y,
            }),
            final(self).font == old(self).font,
            final(self).width_chars == (if text_len < old(self).width_chars {
                old(self).width_chars - text_len
            } else {
                0
            }),
    {
        let at = self.point;
        proof {
            lemma_advance_monotone(self.font, 0, text_len as int);
        }
        let delta = advance_px(self.font, text_len);
        self.point = Point { x: self.point.x + delta, y: self.point.y };
        self.width_chars = self.width_chars.saturating_sub(text_len);
        at
    }

    /// The rest of the box to blank, if any is left.
    pub fn clear_remaining(self) -> (r: Option<Rect>)
        requires
            self.width_chars <= u32::MAX,
            advance(self.font, self.width_chars as int) <= u32::MAX,
        ensures
            r == blank_rest(self.point, self.font, 0, self.width_chars as int),
    {
        if self.width_chars == 0 {
            return None;
        }
        Some(
            Rect {
                x: self.point.x,
                y: self.point.y,
                width: span_px(self.font, self.width_chars),
                height: self.font.height,
            },
        )
    }

    /// Place `text` (by its length), if there is one, then blank the rest of
    /// the box: where the text goes, and what to blank.
    pub fn render_and_clear(self, text_len: Option<usize>) -> (r: (Option<Point>, Option<Rect>))
        requires
            box_fits(self.point, self.font, match text_len { Some(n) => n as int, None => 0 }, self.width_chars as int),
        ensures
            r.0 == (match text_len { Some(_) => Some(self.point), None => None::<Point> }),
            r.1 == blank_rest(
                self.point,
                self.font,
                match text_len { Some(n) => n as int, None => 0 },
                self.width_chars as int,
            ),
    {
        let mut tb = self;
        let at = match text_len {
            Some(n) => Some(tb.render(n)),
            None => None,
        };
        proof {
            let n: int = match text_len { Some(n) => n as int, None => 0 };
            if n < self.width_chars {
                lemma_advance_monotone(self.font, n, self.width_chars as int);
                lemma_advance_monotone(self.font, self.width_chars - n, self.width_chars as int);
            }
        }
        let cleared = tb.clear_remaining();
        (at, cleared)
    }
}

} // verus!
