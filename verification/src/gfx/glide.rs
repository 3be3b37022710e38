//! A short text that glides across the screen and then vanishes.
use crate::gfx::{Point, Rect};
use vstd::prelude::*;

verus! {

/// How many characters the gliding text holds.
pub const GLIDER_WIDTH: usize = 13;

/// How far the text moves in one step, in pixels.
pub const INCREMENT: i32 = 1;

/// Which way the text glides.
#[derive(Debug, Clone, Copy, PartialEq, Eq, Structural)]
pub enum Direction {
    Up,
    Down,
}

impl Direction {
    /// The sign of a move in this direction: up is towards smaller `y`.
    pub open spec fn sign(self) -> int {
        match self {
            Direction::Up => -1,
            Direction::Down => 1,
        }
    }

    /// A move by `increment` pixels in this direction.
    pub fn to_delta(&self, increment: i32) -> (p: Point)
        requires
            *self == Direction::Up ==> increment != i32::MIN,
        ensures
            p.x == 0,
            p.y == increment * self.sign(),
    {
        Point {
            x: 0,
            y: match self {
                Direction::Up => -increment,
                Direction::Down => increment,
            },
        }
    }
}

/// The text's position and how far it still has to go.
#[derive(Debug, Clone, Copy, PartialEq, Eq, Structural)]
pub struct Glider {
    pub point: Point,
    pub direction: Direction,
    pub distance: u32,
    /// The text moved: its previous trail is to be blanked.
    pub clear_previous: bool,
    /// The text has arrived: it is to be blanked entirely.
    pub clear_all: bool,
}

/// How far one step moves: `INCREMENT`, or the distance left if that is
/// less (as `distance as i32` reads it).
pub open spec fn step_of(distance: u32) -> i32 {
    let d = distance as i32;
    if INCREMENT <= d {
        INCREMENT
    } else {
        d
    }
}

/// The size of a step, as a distance.
pub open spec fn magnitude(i: i32) -> int {
    if i < 0 {
        -i
    } else {
        i as int
    }
}

impl Glider {
    pub fn new(point: Point, direction: Direction, distance: u32) -> (g: Self)
        ensures
            g == (Glider { point, direction, distance, clear_previous: false, clear_all: false }),
    {
        Self { point, direction, distance, clear_previous: false, clear_all: false }
    }

    pub open spec fn spec_finished(self) -> bool {
        self.distance == 0 && self.clear_all
    }

    /// Whether the text has arrived and been blanked.
    pub fn finished(&self) -> (r: bool)
        ensures
            r == self.spec_finished(),
    {
        self.distance == 0 && self.clear_all
    }

    /// Whether the next step keeps the position within the coordinates.
    pub open spec fn step_fits(self) -> bool {
        self.spec_finished() || {
            &&& i32::MIN <= self.point.y + step_of(self.distance) * self.direction.sign() <= i32::MAX
            &&& self.direction == Direction::Up ==> step_of(self.distance) != i32::MIN
        }
    }

    /// One step: once the distance is covered the text is marked for
    /// blanking (and moves no further); else it moves by one step and its
    /// trail is marked for blanking. A finished glider stays as it is. The
    /// flag says whether the glider was still under way.
    pub open spec fn next(self) -> (Glider, bool) {
        if self.spec_finished() {
            (self, false)
        } else {
            let inc = step_of(self.distance);
            (
                Glider {
                    point: Point { x: self.point.x, y: (self.point.y + inc * self.direction.sign()) as i32 },
                    direction: self.direction,
                    distance: (if magnitude(inc) < self.distance {
                        self.distance - magnitude(inc)
                    } else {
                        0
                    }) as u32,
                    clear_previous: true,
                    clear_all: self.clear_all || self.distance == 0,
                },
                true,
            )
        }
    }

    /// `g` is the glider after one step, and `moved` whether it moved.
    pub open spec fn stepped(self, g: Glider, moved: bool) -> bool {
        (g, moved) == self.next()
    }

    /// Move one step; returns whether the glider is still under way.
    pub fn step(&mut self) -> (moved: bool)
        requires
            old(self).step_fits(),
        ensures
            old(self).stepped(*final(self), moved),
    {
        if self.distance == 0 && !self.clear_all {
            self.clear_all = true;
        } else if self.finished() {
            return false;
        }
        let d: i32 = self.distance as i32;
        let increment: i32 = if INCREMENT <= d {
            INCREMENT
        } else {
            d
        };
        let abs: u32 = if increment < 0 {
            (0i64 - increment as i64) as u32
        } else {
            increment as u32
        };
        let delta = self.direction.to_delta(increment);
        self.point = Point { x: self.point.x + delta.x, y: self.point.y + delta.y };
        self.clear_previous = true;
        self.distance = self.distance.saturating_sub(abs);
        true
    }

    /// What to draw for the text, whose bounding box where it stands is
    /// `bbox`: once arrived, the box (and the strip it last came from) is
    /// blanked, else the text is drawn; after a move, the strip of one step
    /// that the text left behind is blanked too.
    pub fn paint(&self, bbox: Rect) -> (p: GliderPaint)
        requires
            bbox.height < u32::MAX,
            bbox.height <= i32::MAX,
            i32::MIN < bbox.y,
            bbox.y + bbox.height + 1 <= i32::MAX,
        ensures
            p.draw_text == !self.clear_all,
            p.blank == (if self.clear_all {
                Some(Rect { x: bbox.x, y: bbox.y, width: bbox.width, height: (bbox.height + 1) as u32 })
            } else {
                None
            }),
            p.trail == (if self.clear_previous {
                Some(
                    Rect {
                        x: bbox.x,
                        y: (match self.direction {
                            Direction::Up => bbox.y + 1 + bbox.height,
                            Direction::Down => bbox.y - 1,
                        }) as i32,
                        width: bbox.width,
                        height: 1,
                    },
                )
            } else {
                None
            }),
    {
        let blank = if self.clear_all {
            Some(Rect { x: bbox.x, y: bbox.y, width: bbox.width, height: bbox.height + INCREMENT as u32 })
        } else {
            None
        };
        let trail = if self.clear_previous {
            let back = self.direction.to_delta(-INCREMENT);
            let mut y: i32 = bbox.y + back.y;
            if self.direction == Direction::Up {
                y = y + bbox.height as i32;
            }
            Some(Rect { x: bbox.x + back.x, y, width: bbox.width, height: INCREMENT as u32 })
        } else {
            None
        };
        GliderPaint { draw_text: !self.clear_all, blank, trail }
    }
}

/// The glider `g` after `n` steps.
pub open spec fn glided(g: Glider, n: nat) -> Glider
    decreases n,
{
    if n == 0 {
        g
    } else {
        glided(g.next().0, (n - 1) as nat)
    }
}

/// A glider arrives: with steps of one pixel (its distance fits an `i32`),
/// one step per pixel of its distance and one more to blank it leave it
/// finished, and a finished glider stays finished.
pub proof fn lemma_glider_arrives(g: Glider)
    requires
        g.distance <= i32::MAX,
    ensures
        glided(g, (g.distance + 1) as nat).spec_finished(),
        g.spec_finished() ==> g.next() == (g, false),
    decreases g.distance,
{
    if g.distance > 0 {
        let h = g.next().0;
        assert(h.distance == g.distance - 1);
        lemma_glider_arrives(h);
        assert(glided(g, (g.distance + 1) as nat) == glided(h, (h.distance + 1) as nat));
    } else {
        assert(glided(g, 1) == glided(g.next().0, 0));
    }
}

/// What to draw for a glider.
#[derive(Debug, Clone, Copy, PartialEq, Eq, Structural)]
pub struct GliderPaint {
    /// Draw the text at the glider's position.
    pub draw_text: bool,
    /// Blank the text's box, grown by one step.
    pub blank: Option<Rect>,
    /// Blank the strip the text left behind.
    pub trail: Option<Rect>,
}

} // verus!
