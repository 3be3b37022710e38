use crate::input;
use crate::machine::{advanced, Campaign, Render};
use crate::random::Rng;
use crate::story::Decoration;
use vstd::prelude::*;

verus! {

/// Lines of dialogue shown one at a time.
pub struct Dialogue {
    pub text: &'static [(Decoration, &'static str)],
    pub progress: usize,
    pub clear_previous_text: bool,
}

impl Dialogue {
    pub fn new(text: &'static [(Decoration, &'static str)]) -> (d: Self)
        ensures
            d.text == text,
            d.progress == 0,
            !d.clear_previous_text,
    {
        Self { text, progress: 0, clear_previous_text: false }
    }

    /// What a key does: `#` moves to the next line. The screen is cleared
    /// when the decoration changes; with the same decoration only the
    /// previous text is cleared. After the last line the campaign moves on.
    pub open spec fn updated(
        d0: Dialogue,
        c0: Campaign,
        event: input::Event,
        d1: Dialogue,
        c1: Campaign,
        r: Option<Render>,
    ) -> bool {
        if event != input::Event::Hash {
            d1 == d0 && c1 == c0 && r is None
        } else {
            let p = d0.progress + 1;
            &&& d1.text == d0.text
            &&& d1.progress == p
            &&& if p < d0.text@.len() {
                &&& c1 == c0
                &&& if d0.text@[p].0 == d0.text@[d0.progress as int].0 {
                    d1.clear_previous_text && r == Some(Render::Redraw)
                } else {
                    d1.clear_previous_text == d0.clear_previous_text && r == Some(Render::Clear)
                }
            } else {
                &&& advanced(c0, c1)
                &&& d1.clear_previous_text == d0.clear_previous_text
                &&& r == Some(Render::Clear)
            }
        }
    }

    pub fn update<R: Rng>(
        &mut self,
        rng: &mut R,
        campaign: &mut Campaign,
        event: input::Event,
    ) -> (r: Option<Render>)
        requires
            old(self).progress < old(self).text@.len(),
        ensures
            Self::updated(*old(self), *old(campaign), event, *final(self), *final(campaign), r),
            old(campaign).wf() ==> final(campaign).wf(),
    {
        if event == input::Event::Hash {
            let (current, _) = self.text[self.progress];
            self.progress = self.progress.saturating_add(1);
            if self.progress < self.text.len() {
                let (next, _) = self.text[self.progress];
                if next == current {
                    self.clear_previous_text = true;
                    Some(Render::Redraw)
                } else {
                    Some(Render::Clear)
                }
            } else {
                campaign.progress_next(rng);
                Some(Render::Clear)
            }
        } else {
            None
        }
    }
}

} // verus!
