use crate::input;
use crate::machine::shop::{Purchase, Shop};
use crate::machine::{with_pending, Campaign, Render, Scene};
use crate::random::Rng;
use vstd::prelude::*;

verus! {

/// The player's home, from where the shop can be opened.
#[derive(Debug)]
pub struct Home {
    shop_items: Purchase,
}

impl Home {
    /// The items the shop opened from here sells.
    pub closed spec fn spec_items(self) -> Purchase {
        self.shop_items
    }

    pub fn new(shop_unlocks: u8) -> (h: Self)
        ensures
            h.spec_items().spec_bits() == if shop_unlocks >= 1 {
                2u128
            } else {
                0u128
            },
    {
        let shop_items = Purchase::from_unlock_level(shop_unlocks);
        Self { shop_items }
    }

    /// `1` opens the shop; other keys do nothing.
    pub open spec fn updated(h0: Home, c0: Campaign, event: input::Event, h1: Home, c1: Campaign, r: Option<Render>) -> bool {
        &&& h1 == h0
        &&& if event == input::Event::One {
            with_pending(c0, c1, Some(Scene::Shop(Shop { items: h0.spec_items() })))
                && r == Some(Render::Clear)
        } else {
            c1 == c0 && r is None
        }
    }

    /// Keys at home. `*` (a shortcut into the USB bootloader) is left to the
    /// caller.
    pub fn update<R: Rng>(
        &mut self,
        _rng: &mut R,
        campaign: &mut Campaign,
        event: input::Event,
    ) -> (r: Option<Render>)
        requires
            event != input::Event::Star,
        ensures
            Self::updated(*old(self), *old(campaign), event, *final(self), *final(campaign), r),
    {
        match event {
            input::Event::One => {
                campaign.open_shop(self.shop_items);
                Some(Render::Clear)
            },
            _ => None,
        }
    }
}

} // verus!
