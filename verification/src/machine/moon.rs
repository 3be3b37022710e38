use crate::input;
use crate::machine::{advanced, raise, raised, Campaign, Render};
use crate::random::Rng;
use crate::timer::Timer;
use vstd::prelude::*;

verus! {

pub const SCROLL_TARGET: i32 = 50;
pub const SCROLL_INCREMENT: i32 = 2;

pub const TEXT_DELAY: u8 = 7;

/// A cut scene: the moon scrolls into place, then lines of text follow.
#[derive(Debug)]
pub struct Moon {
    pub lines: &'static [&'static str],
    pub idx: usize,
    pub scroll: i32,
    pub timer: Timer,
    /// `*` was pressed once: a second `*` skips the scene.
    pub init_skip: bool,
}

impl Moon {
    pub open spec fn spec_lines(self) -> Seq<&'static str> {
        self.lines@
    }

    pub open spec fn spec_init_skip(self) -> bool {
        self.init_skip
    }

    pub open spec fn spec_animation_done(self) -> bool {
        self.scroll >= SCROLL_TARGET
    }

    /// The scene with only the line index and the skip flag changed.
    pub open spec fn moved_to(self, m1: Moon, idx: usize, init_skip: bool) -> bool {
        &&& m1.spec_lines() == self.spec_lines()
        &&& m1.idx == idx
        &&& m1.scroll == self.scroll
        &&& m1.timer == self.timer
        &&& m1.spec_init_skip() == init_skip
    }

    pub fn new(lines: &'static [&'static str]) -> (m: Self)
        ensures
            m.spec_lines() == lines@,
            m.idx == 0,
            m.scroll == 0,
            m.timer.spec_delay() == TEXT_DELAY,
            m.timer.spec_step() == 0,
            !m.spec_init_skip(),
    {
        Self { lines, idx: 0, scroll: 0, timer: Timer::new(TEXT_DELAY), init_skip: false }
    }

    /// The current line, if the scene has not run out of lines.
    pub fn line(&self) -> (l: Option<&'static str>)
        ensures
            self.idx < self.spec_lines().len() ==> l == Some(self.spec_lines()[self.idx as int]),
            self.idx >= self.spec_lines().len() ==> l is None,
    {
        if self.idx < self.lines.len() {
            Some(self.lines[self.idx])
        } else {
            None
        }
    }

    pub fn animation_done(&self) -> (r: bool)
        ensures
            r == self.spec_animation_done(),
    {
        self.scroll >= SCROLL_TARGET
    }

    /// What a key does: `*` twice in a row skips the scene (any other key in
    /// between cancels the first); once the moon is in place `#` shows the
    /// next line, and after the last line the campaign moves on.
    pub open spec fn updated(m0: Moon, c0: Campaign, event: input::Event, m1: Moon, c1: Campaign, r: Option<Render>) -> bool {
        if event == input::Event::Star && m0.spec_init_skip() {
            m1 == m0 && advanced(c0, c1) && r == Some(Render::Clear)
        } else if event == input::Event::Star {
            m0.moved_to(m1, m0.idx, true) && c1 == c0 && r is None
        } else if m0.spec_init_skip() {
            m0.moved_to(m1, m0.idx, false) && c1 == c0 && r is None
        } else if event == input::Event::Hash && m0.spec_animation_done() {
            let idx = if m0.idx < usize::MAX {
                (m0.idx + 1) as usize
            } else {
                m0.idx
            };
            &&& m0.moved_to(m1, idx, false)
            &&& if idx < m0.spec_lines().len() {
                c1 == c0 && r == Some(Render::Redraw)
            } else {
                advanced(c0, c1) && r == Some(Render::Clear)
            }
        } else {
            m1 == m0 && c1 == c0 && r is None
        }
    }

    pub fn update<R: Rng>(
        &mut self,
        rng: &mut R,
        campaign: &mut Campaign,
        event: input::Event,
    ) -> (r: Option<Render>)
        ensures
            Self::updated(*old(self), *old(campaign), event, *final(self), *final(campaign), r),
            old(campaign).wf() ==> final(campaign).wf(),
    {
        if event == input::Event::Star && self.init_skip {
            // Allow skipping dialogue by pressing star twice
            campaign.progress_next(rng);
            Some(Render::Clear)
        } else if event == input::Event::Star {
            self.init_skip = true;
            None
        } else if self.init_skip {
            self.init_skip = false;
            None
        } else if event == input::Event::Hash && self.animation_done() {
            // Advance dialogue on hash press
            self.idx = self.idx.saturating_add(1);
            if self.line().is_none() {
                campaign.progress_next(rng);
                Some(Render::Clear)
            } else {
                Some(Render::Redraw)
            }
        } else {
            None
        }
    }

    /// What one frame does: the moon scrolls in, then the timer runs until
    /// the text is shown; either asks for a redraw.
    pub open spec fn ticked(m0: Moon, r0: Option<Render>, m1: Moon, r1: Option<Render>) -> bool {
        if !m0.spec_animation_done() {
            &&& m1.lines == m0.lines
            &&& m1.idx == m0.idx
            &&& m1.init_skip == m0.init_skip
            &&& m1.scroll == m0.scroll + SCROLL_INCREMENT
            &&& m1.timer == m0.timer
            &&& r1 == raised(r0, Render::Redraw)
        } else if !m0.timer.spec_is_due() {
            &&& m1.lines == m0.lines
            &&& m1.idx == m0.idx
            &&& m1.init_skip == m0.init_skip
            &&& m1.scroll == m0.scroll
            &&& m1.timer.spec_delay() == m0.timer.spec_delay()
            &&& m1.timer.spec_step() == m0.timer.spec_step() + 1
            &&& r1 == raised(r0, Render::Redraw)
        } else {
            m1 == m0 && r1 == r0
        }
    }

    pub fn tick<R: Rng>(&mut self, _rng: &mut R, render: &mut Option<Render>)
        ensures
            Self::ticked(*old(self), *old(render), *final(self), *final(render)),
    {
        if !self.animation_done() {
            self.scroll += SCROLL_INCREMENT;
            raise(render, Render::Redraw);
        } else if !self.timer.is_due() {
            self.timer.tick();
            raise(render, Render::Redraw);
        }
    }
}

} // verus!
