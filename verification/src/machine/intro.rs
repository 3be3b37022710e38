use crate::input;
use crate::machine::{game_started, Campaign, FlashAction, Render, SaveSlot};
use crate::random::Rng;
use vstd::prelude::*;

verus! {

/// What a confirmed erase is for.
#[derive(Debug, Clone, Copy, PartialEq, Eq, Structural)]
pub enum Erase {
    /// Drop the savegame found and start a new game.
    NewGame,
    /// Erase the whole flash.
    Flash,
}

/// The title menu.
pub struct Intro {
    pub has_save: bool,
    pub confirm_erase: Option<Erase>,
    /// A description of the savegame found, while it is shown.
    pub debug_save: Option<String>,
}

/// The description of a scan result shown on the debug screen.
pub open spec fn slot_summary(slot: Option<SaveSlot>) -> Seq<char> {
    match slot {
        Some(s) => s.summary@,
        None => "None"@,
    }
}

/// The campaign with the savegame found forgotten.
pub open spec fn forgotten(c0: Campaign, c1: Campaign) -> bool {
    &&& c1.save_slot is None
    &&& c1.progress == c0.progress
    &&& c1.money == c0.money
    &&& c1.stats == c0.stats
    &&& c1.purchased == c0.purchased
    &&& c1.pending_scene == c0.pending_scene
    &&& c1.flash_actions == c0.flash_actions
}

impl Intro {
    /// `i1` is `i0` with `has_save` and `confirm_erase` replaced.
    pub open spec fn with_menu(i0: Intro, i1: Intro, has_save: bool, confirm_erase: Option<Erase>) -> bool {
        &&& i1.has_save == has_save
        &&& i1.confirm_erase == confirm_erase
        &&& i1.debug_save == i0.debug_save
    }

    /// What a key does on the title menu.
    ///
    /// While the savegame description is shown, `#` hides it. While an
    /// erase waits for confirmation, `*` cancels and `#` confirms: the
    /// savegame found is forgotten, then either a new game starts or the
    /// flash is erased. Otherwise `1` starts a game, `2` starts a new game
    /// (asking first if a savegame exists), `3` asks to erase the flash and
    /// `7` shows the savegame description.
    pub open spec fn updated(i0: Intro, c0: Campaign, event: input::Event, i1: Intro, c1: Campaign, r: Option<Render>) -> bool {
        if i0.debug_save is Some {
            &&& c1 == c0
            &&& if event == input::Event::Hash {
                i1.debug_save is None && i1.has_save == i0.has_save && i1.confirm_erase
                    == i0.confirm_erase && r == Some(Render::Clear)
            } else {
                i1 == i0 && r is None
            }
        } else if let Some(erase) = i0.confirm_erase {
            if event == input::Event::Star {
                Self::with_menu(i0, i1, i0.has_save, None) && c1 == c0 && r == Some(Render::Redraw)
            } else if event == input::Event::Hash {
                &&& Self::with_menu(i0, i1, false, None)
                &&& match erase {
                    Erase::NewGame => exists|cm: Campaign|
                        #[trigger] forgotten(c0, cm) && game_started(cm, c1) && r == Some(
                            Render::Clear,
                        ),
                    Erase::Flash => {
                        &&& c1.save_slot is None
                        &&& c1.progress == c0.progress
                        &&& c1.money == c0.money
                        &&& c1.stats == c0.stats
                        &&& c1.purchased == c0.purchased
                        &&& c1.pending_scene == c0.pending_scene
                        &&& c1.flash_actions@ == c0.flash_actions@.push(FlashAction::EraseAll)
                        &&& r == Some(Render::Redraw)
                    },
                }
            } else {
                i1 == i0 && c1 == c0 && r is None
            }
        } else if event == input::Event::One || (event == input::Event::Two && !i0.has_save) {
            i1 == i0 && game_started(c0, c1) && r == Some(Render::Clear)
        } else if event == input::Event::Two {
            Self::with_menu(i0, i1, i0.has_save, Some(Erase::NewGame)) && c1 == c0 && r == Some(
                Render::Redraw,
            )
        } else if event == input::Event::Three {
            Self::with_menu(i0, i1, i0.has_save, Some(Erase::Flash)) && c1 == c0 && r == Some(
                Render::Redraw,
            )
        } else if event == input::Event::Seven {
            &&& i1.has_save == i0.has_save
            &&& i1.confirm_erase == i0.confirm_erase
            &&& i1.debug_save matches Some(text) && text@ == slot_summary(c0.save_slot)
            &&& c1 == c0
            &&& r == Some(Render::Clear)
        } else {
            i1 == i0 && c1 == c0 && r is None
        }
    }

    pub fn update<R: Rng>(
        &mut self,
        rng: &mut R,
        campaign: &mut Campaign,
        event: input::Event,
    ) -> (r: Option<Render>)
        ensures
            Self::updated(*old(self), *old(campaign), event, *final(self), *final(campaign), r),
            old(campaign).wf() ==> final(campaign).wf(),
    {
        if self.debug_save.is_some() {
            if event == input::Event::Hash {
                self.debug_save = None;
                Some(Render::Clear)
            } else {
                None
            }
        } else if let Some(erase) = self.confirm_erase {
            match event {
                input::Event::Star => {
                    // Cancel erase
                    self.confirm_erase = None;
                    Some(Render::Redraw)
                },
                input::Event::Hash => {
                    // Erase discovered save
                    campaign.save_slot = None;
                    self.has_save = false;
                    self.confirm_erase = None;
                    let ghost cm = *campaign;
                    match erase {
                        Erase::NewGame => {
                            // Start the game after we removed the discovered save
                            campaign.start_game(rng);
                            assert(forgotten(*old(campaign), cm));
                            Some(Render::Clear)
                        },
                        Erase::Flash => {
                            // Clear flash
                            campaign.flash_actions.push(FlashAction::EraseAll);
                            Some(Render::Redraw)
                        },
                    }
                },
                _ => None,
            }
        } else {
            match event {
                input::Event::One => {
                    campaign.start_game(rng);
                    Some(Render::Clear)
                },
                input::Event::Two => {
                    if self.has_save {
                        self.confirm_erase = Some(Erase::NewGame);
                        Some(Render::Redraw)
                    } else {
                        campaign.start_game(rng);
                        Some(Render::Clear)
                    }
                },
                input::Event::Three => {
                    // Show erase menu
                    self.confirm_erase = Some(Erase::Flash);
                    Some(Render::Redraw)
                },
                input::Event::Seven => {
                    let text = match &campaign.save_slot {
                        Some(slot) => slot.summary.clone(),
                        None => "None".to_owned(),
                    };
                    self.debug_save = Some(text);
                    Some(Render::Clear)
                },
                _ => None,
            }
        }
    }
}

} // verus!
