pub mod battle;
pub mod dialogue;
pub mod home;
pub mod intro;
pub mod moon;
pub mod shop;

use crate::fighter::{Fighter, FighterView, Stats};
use crate::input;
use crate::machine::battle::{Battle, Resolution};
use crate::machine::dialogue::Dialogue;
use crate::machine::home::Home;
use crate::machine::intro::Intro;
use crate::machine::moon::Moon;
use crate::machine::shop::{Purchase, Shop, ALL_BITS};
use crate::random::Rng;
use crate::save::{be_bytes, be_value, Save, SAVE_SIZE};
use crate::story;
use crate::story::{Shape, Story};
use vstd::prelude::*;

verus! {

/// How much of the screen has to be drawn again.
#[derive(Debug, Clone, Copy, PartialEq, Eq, PartialOrd, Ord, Structural)]
pub enum Render {
    Redraw,
    Clear,
}

/// The order of render requests: nothing, then a redraw, then a clear.
pub open spec fn render_rank(r: Option<Render>) -> int {
    match r {
        None => 0,
        Some(Render::Redraw) => 1,
        Some(Render::Clear) => 2,
    }
}

/// The larger of the request `r` and `to`.
pub open spec fn raised(r: Option<Render>, to: Render) -> Option<Render> {
    if render_rank(r) >= render_rank(Some(to)) {
        r
    } else {
        Some(to)
    }
}

/// Raise the render request to at least `to`.
pub fn raise(render: &mut Option<Render>, to: Render)
    ensures
        *final(render) == raised(*old(render), to),
{
    let rank_old: u8 = match *render {
        None => 0,
        Some(Render::Redraw) => 1,
        Some(Render::Clear) => 2,
    };
    let rank_to: u8 = match to {
        Render::Redraw => 1,
        Render::Clear => 2,
    };
    if rank_old < rank_to {
        *render = Some(to);
    }
}

/// What the screen does for a pending render request, which it uses up: a
/// clear blanks the screen (the first flag) and then redraws, a redraw only
/// redraws (the second flag), and without a request nothing is drawn.
pub fn take_render(render: &mut Option<Render>) -> (r: (bool, bool))
    ensures
        *final(render) is None,
        r == (*old(render) == Some(Render::Clear), *old(render) is Some),
{
    let r = match *render {
        Some(Render::Clear) => (true, true),
        Some(Render::Redraw) => (false, true),
        None => (false, false),
    };
    *render = None;
    r
}

/// The key to hand to the scene from a read of the keypad: a key counts
/// once when it goes down, and not again while it is held. `current` is
/// the key held at the previous read, and becomes the key read now.
pub fn key_down(current: &mut Option<input::Event>, read: Option<input::Event>) -> (pressed: Option<input::Event>)
    ensures
        *final(current) == read,
        pressed == (if read is Some && read != *old(current) {
            read
        } else {
            None
        }),
{
    let pressed = match read {
        Some(key) => if Some(key) != *current {
            Some(key)
        } else {
            None
        },
        None => None,
    };
    *current = read;
    pressed
}

// Default stats for new games
pub const DEFAULT_HEALTH: u16 = 10;
pub const DEFAULT_ENERGY: u16 = 10;
pub const DEFAULT_RECHARGE: u16 = 1;
pub const DEFAULT_COOLDOWN: u8 = 4;
pub const DEFAULT_ABILITIES: u16 = 0b1101;

/// A savegame found by scanning the flash: a description of the slot (for
/// the debug screen) and its data, if it could be read.
pub struct SaveSlot {
    pub summary: String,
    pub data: Option<Vec<u8>>,
}

/// Work on the flash storage that the campaign asks for.
pub enum FlashAction {
    /// Append a savegame with these bytes.
    Append(Vec<u8>),
    /// Erase all savegames.
    EraseAll,
    /// Scan for the latest savegame, then hand it to `Scene::finish_scan`.
    Scan,
}

/// This holds the state of the higher-order game
pub struct Campaign {
    pub save_slot: Option<SaveSlot>,
    pub progress: u16,
    pub money: u16,
    pub stats: Stats,
    pub purchased: Purchase,
    pub pending_scene: Option<Scene>,
    /// Flash work to be done, oldest first.
    pub flash_actions: Vec<FlashAction>,
}

/// The value the field of `n` bytes at `offset` of a savegame holds, or
/// `default` when the savegame is too short.
pub open spec fn field(data: Seq<u8>, offset: nat, n: nat, default: nat) -> nat {
    if data.len() >= offset + n {
        be_value(data.subrange(offset as int, (offset + n) as int))
    } else {
        default
    }
}

/// The bytes of a savegame: progress, money, the player's health, energy,
/// recharge, cooldown and abilities, and the purchases, big-endian.
pub open spec fn save_bytes(progress: u16, money: u16, stats: Stats, purchased: u128) -> Seq<u8> {
    be_bytes(progress as nat, 2) + be_bytes(money as nat, 2) + be_bytes(stats.health as nat, 2)
        + be_bytes(stats.energy as nat, 2) + be_bytes(stats.recharge as nat, 2) + be_bytes(
        stats.cooldown as nat,
        1,
    ) + be_bytes(stats.abilities as nat, 2) + be_bytes(purchased as nat, 16)
}

/// The stats a savegame holds, with defaults for what it lacks.
pub open spec fn loaded_stats(data: Seq<u8>) -> Stats {
    Stats {
        health: field(data, 4, 2, DEFAULT_HEALTH as nat) as u16,
        energy: field(data, 6, 2, DEFAULT_ENERGY as nat) as u16,
        recharge: field(data, 8, 2, DEFAULT_RECHARGE as nat) as u16,
        cooldown: field(data, 10, 1, DEFAULT_COOLDOWN as nat) as u8,
        abilities: field(data, 11, 2, DEFAULT_ABILITIES as nat) as u16,
    }
}

/// The savegame bytes a game starts from: the data of the slot found, if it
/// was read and fits, else none.
pub open spec fn loaded_bytes(slot: Option<SaveSlot>) -> Seq<u8> {
    match slot {
        Some(s) => match s.data {
            Some(v) => if v@.len() <= SAVE_SIZE {
                v@
            } else {
                Seq::empty()
            },
            None => Seq::empty(),
        },
        None => Seq::empty(),
    }
}

/// A fighter as it enters a battle with `stats`.
pub open spec fn fresh_fighter(stats: Stats) -> FighterView {
    FighterView {
        health: stats.health,
        max_health: stats.health,
        energy: stats.energy,
        max_energy: stats.energy,
        recharge: stats.recharge,
        special: crate::specials::Special::Heal,
        cooldown: crate::cooldown::initial_cooldowns(stats.cooldown, stats.abilities),
    }
}

/// `s` is the scene that a story scene of shape `shape` starts, with the
/// player fighting with `stats`.
pub open spec fn starts(s: Scene, shape: Shape, stats: Stats) -> bool {
    match shape {
        Shape::Moon(lines) => s matches Scene::Moon(m) && story::line_views(m.spec_lines()) == lines
            && m.idx == 0 && m.scroll == 0 && !m.spec_init_skip() && m.timer.spec_step() == 0
            && m.timer.spec_delay() == 7,
        Shape::Dialogue(text) => s matches Scene::Dialogue(d) && story::text_views(d.text@) == text
            && d.progress == 0 && !d.clear_previous_text,
        Shape::Battle(enemy, reward) => s matches Scene::Battle(b) && b.is_fresh(
            stats,
            enemy,
            reward,
            Resolution::ProgressCampaign,
        ),
        Shape::Home(unlocks) => s matches Scene::Home(h) && h.spec_items().spec_bits() == if unlocks
            >= 1 {
            2u128
        } else {
            0u128
        },
    }
}

/// The campaign after choosing the scene for its progress: the story's scene
/// at that position, or, past the end of the story, the intro (whose savegame
/// is scanned for afresh).
pub open spec fn scene_picked(c0: Campaign, c1: Campaign) -> bool {
    &&& c1.progress == c0.progress
    &&& c1.money == c0.money
    &&& c1.stats == c0.stats
    &&& c1.purchased == c0.purchased
    &&& c1.save_slot == c0.save_slot
    &&& match story::story_shape(c0.progress as int) {
        Some(shape) => {
            &&& c1.flash_actions@ == c0.flash_actions@
            &&& c1.pending_scene matches Some(s) && starts(s, shape, c0.stats)
        },
        None => {
            &&& c1.flash_actions@ == c0.flash_actions@.push(FlashAction::Scan)
            &&& c1.pending_scene == Some(
                Scene::Intro(Intro { has_save: c0.save_slot is Some, confirm_erase: None, debug_save: None }),
            )
        },
    }
}

/// The campaign after its state was saved: the bytes of the state are queued
/// for appending.
pub open spec fn saved(c0: Campaign, c1: Campaign) -> bool {
    &&& c1.progress == c0.progress
    &&& c1.money == c0.money
    &&& c1.stats == c0.stats
    &&& c1.purchased == c0.purchased
    &&& c1.save_slot == c0.save_slot
    &&& c1.pending_scene == c0.pending_scene
    &&& c1.flash_actions@.len() == c0.flash_actions@.len() + 1
    &&& c1.flash_actions@.take(c0.flash_actions@.len() as int) == c0.flash_actions@
    &&& c1.flash_actions@.last() matches FlashAction::Append(v) && v@ == save_bytes(
        c0.progress,
        c0.money,
        c0.stats,
        c0.purchased.spec_bits(),
    )
}

/// The campaign after moving on to the next scene: progress advanced
/// (saturating), the state saved, and the next scene picked.
pub open spec fn advanced(c0: Campaign, c1: Campaign) -> bool {
    exists|mid: Campaign, mid2: Campaign|
        {
            &&& mid == Campaign {
                progress: if c0.progress < u16::MAX {
                    (c0.progress + 1) as u16
                } else {
                    u16::MAX
                },
                ..c0
            }
            &&& #[trigger] saved(mid, mid2)
            &&& scene_picked(mid2, c1)
        }
}

/// The campaign after starting a game: the state loaded from the savegame
/// found (defaults where it has none; an empty savegame is queued for
/// writing when no savegame was found) and the scene for the loaded progress
/// picked.
pub open spec fn game_started(c0: Campaign, c1: Campaign) -> bool {
    let data = loaded_bytes(c0.save_slot);
    exists|mid: Campaign|
        {
            &&& #[trigger] scene_picked(mid, c1)
            &&& mid.progress == field(data, 0, 2, 0) as u16
            &&& mid.money == field(data, 2, 2, 0) as u16
            &&& mid.stats == loaded_stats(data)
            &&& mid.purchased.spec_bits() == (field(data, 13, 16, 0) as u128) & ALL_BITS
            &&& mid.save_slot == c0.save_slot
            &&& if c0.save_slot is None {
                &&& mid.flash_actions@.len() == c0.flash_actions@.len() + 1
                &&& mid.flash_actions@.take(c0.flash_actions@.len() as int) == c0.flash_actions@
                &&& mid.flash_actions@.last() matches FlashAction::Append(v) && v@ == seq![0u8, 0u8]
            } else {
                mid.flash_actions@ == c0.flash_actions@
            }
        }
}

/// The campaign after a battle was won: on to the next scene, or (for a
/// battle that returns) saved and back to the scene of the current progress.
pub open spec fn won(c0: Campaign, resolution: Resolution, c1: Campaign) -> bool {
    match resolution {
        Resolution::ProgressCampaign => advanced(c0, c1),
        Resolution::Return => exists|mid: Campaign| #[trigger] saved(c0, mid) && scene_picked(mid, c1),
    }
}

/// `c1` is `c0` with `pending` as the pending scene.
pub open spec fn with_pending(c0: Campaign, c1: Campaign, pending: Option<Scene>) -> bool {
    &&& c1.progress == c0.progress
    &&& c1.money == c0.money
    &&& c1.stats == c0.stats
    &&& c1.purchased == c0.purchased
    &&& c1.save_slot == c0.save_slot
    &&& c1.flash_actions == c0.flash_actions
    &&& c1.pending_scene == pending
}

impl Campaign {
    /// Every scene the campaign holds can be played.
    pub open spec fn wf(self) -> bool {
        self.pending_scene matches Some(s) ==> s.wf()
    }

    pub fn new() -> (c: Self)
        ensures
            c.save_slot is None,
            c.progress == 0,
            c.money == 0,
            c.stats == (Stats { health: 0, energy: 0, recharge: 0, cooldown: 0, abilities: 0 }),
            c.purchased.spec_bits() == 0,
            c.pending_scene is None,
            c.flash_actions@ == Seq::<FlashAction>::empty(),
    {
        Self {
            save_slot: None,
            progress: 0,
            money: 0,
            stats: Stats::zero(),
            purchased: Purchase::empty(),
            pending_scene: None,
            flash_actions: Vec::new(),
        }
    }

    /// Take the result of a flash scan: remember the savegame found, and
    /// show the intro.
    pub fn intro(&mut self, found: Option<SaveSlot>) -> (i: Intro)
        ensures
            final(self).save_slot == found,
            final(self).progress == old(self).progress,
            final(self).money == old(self).money,
            final(self).stats == old(self).stats,
            final(self).purchased == old(self).purchased,
            final(self).pending_scene == old(self).pending_scene,
            final(self).flash_actions == old(self).flash_actions,
            i == (Intro { has_save: found is Some, confirm_erase: None, debug_save: None }),
    {
        let has_save = found.is_some();
        self.save_slot = found;
        Intro { has_save, confirm_erase: None, debug_save: None }
    }
}

proof fn lemma_push_extends(s0: Save, s1: Save, data: Seq<u8>)
    requires
        s1.pushed(s0, data),
        s0.cursor + data.len() <= SAVE_SIZE,
    ensures
        s1.buf@.take(s1.cursor as int) == s0.buf@.take(s0.cursor as int) + data,
        s1.capacity == s1.cursor,
        s1.cursor == s0.cursor + data.len(),
{
    assert(s1.buf@.take(s1.cursor as int) =~= s0.buf@.take(s0.cursor as int) + data);
}

proof fn lemma_pull_field(s: Save, data: Seq<u8>, n: nat, default: nat)
    requires
        n > 0,
        s.capacity == data.len(),
        data.len() <= SAVE_SIZE,
        s.buf@.take(data.len() as int) == data,
    ensures
        s.pulled(n, default) == field(data, s.cursor as nat, n, default),
{
    if s.cursor <= data.len() {
        assert(s.remaining() =~= data.skip(s.cursor as int));
        if data.len() >= s.cursor + n {
            assert(s.remaining().take(n as int) =~= data.subrange(s.cursor as int, s.cursor + n));
        }
    }
}

impl Campaign {
    /// Queue the current state for saving.
    fn write_save(&mut self)
        ensures
            saved(*old(self), *final(self)),
    {
        let mut save = Save::new();
        let ghost s0 = save;
        assert(save.buf@.take(0) =~= Seq::<u8>::empty());
        proof {
            crate::save::lemma_byte_ranges();
        }
        save.push_u16(self.progress);
        proof {
            crate::save::lemma_be_roundtrip(self.progress as nat, 2);
            lemma_push_extends(s0, save, be_bytes(self.progress as nat, 2));
        }
        let ghost s1 = save;
        save.push_u16(self.money);
        proof {
            crate::save::lemma_be_roundtrip(self.money as nat, 2);
            lemma_push_extends(s1, save, be_bytes(self.money as nat, 2));
        }
        let ghost s2 = save;
        save.push_u16(self.stats.health);
        proof {
            crate::save::lemma_be_roundtrip(self.stats.health as nat, 2);
            lemma_push_extends(s2, save, be_bytes(self.stats.health as nat, 2));
        }
        let ghost s3 = save;
        save.push_u16(self.stats.energy);
        proof {
            crate::save::lemma_be_roundtrip(self.stats.energy as nat, 2);
            lemma_push_extends(s3, save, be_bytes(self.stats.energy as nat, 2));
        }
        let ghost s4 = save;
        save.push_u16(self.stats.recharge);
        proof {
            crate::save::lemma_be_roundtrip(self.stats.recharge as nat, 2);
            lemma_push_extends(s4, save, be_bytes(self.stats.recharge as nat, 2));
        }
        let ghost s5 = save;
        save.push_u8(self.stats.cooldown);
        proof {
            crate::save::lemma_be_roundtrip(self.stats.cooldown as nat, 1);
            lemma_push_extends(s5, save, be_bytes(self.stats.cooldown as nat, 1));
        }
        let ghost s6 = save;
        save.push_u16(self.stats.abilities);
        proof {
            crate::save::lemma_be_roundtrip(self.stats.abilities as nat, 2);
            lemma_push_extends(s6, save, be_bytes(self.stats.abilities as nat, 2));
        }
        let ghost s7 = save;
        let bits = self.purchased.bits();
        save.push_u128(bits);
        proof {
            crate::save::lemma_be_roundtrip(bits as nat, 16);
            lemma_push_extends(s7, save, be_bytes(bits as nat, 16));
            assert(save.buf@.take(save.cursor as int) =~= save_bytes(
                self.progress,
                self.money,
                self.stats,
                bits,
            ));
        }
        let valid = save.slice();
        let mut bytes: Vec<u8> = Vec::new();
        let mut i: usize = 0;
        while i < valid.len()
            invariant
                i <= valid@.len(),
                bytes@ == valid@.take(i as int),
            decreases valid@.len() - i,
        {
            bytes.push(valid[i]);
            i += 1;
            assert(bytes@ =~= valid@.take(i as int));
        }
        assert(valid@.take(valid@.len() as int) =~= valid@);
        self.flash_actions.push(FlashAction::Append(bytes));
        assert(self.flash_actions@.take(old(self).flash_actions@.len() as int) =~= old(
            self,
        ).flash_actions@);
    }

    /// Choose the scene for the current progress.
    fn pick_scene<R: Rng>(&mut self, rng: &mut R)
        ensures
            scene_picked(*old(self), *final(self)),
            final(self).wf(),
    {
        match story::scene(self.progress as usize) {
            Some(scene) => {
                let next = match scene {
                    Story::Moon(lines) => Scene::Moon(Moon::new(lines)),
                    Story::Dialogue(text) => Scene::Dialogue(Dialogue::new(text)),
                    Story::Battle { enemy, reward } => Scene::Battle(
                        Battle::new(rng, &self.stats, &enemy, reward, Resolution::ProgressCampaign),
                    ),
                    Story::Home { shop_unlocks } => Scene::Home(Home::new(shop_unlocks)),
                };
                self.pending_scene = Some(next);
            },
            None => {
                self.flash_actions.push(FlashAction::Scan);
                let has_save = self.save_slot.is_some();
                self.pending_scene = Some(
                    Scene::Intro(Intro { has_save, confirm_erase: None, debug_save: None }),
                );
            },
        }
    }

    /// Load the savegame found by the last scan (or queue an empty one when
    /// there is none) and enter the scene of the loaded progress.
    pub fn start_game<R: Rng>(&mut self, rng: &mut R)
        ensures
            game_started(*old(self), *final(self)),
            final(self).wf(),
    {
        let mut save = Save::new();
        let ghost data = loaded_bytes(self.save_slot);
        match &self.save_slot {
            Some(slot) => {
                // Load the savegame
                match &slot.data {
                    Some(bytes) => {
                        if bytes.len() <= SAVE_SIZE {
                            let mut i: usize = 0;
                            while i < bytes.len()
                                invariant
                                    bytes@.len() <= SAVE_SIZE,
                                    i <= bytes@.len(),
                                    save.buf@.take(i as int) == bytes@.take(i as int),
                                    save.cursor == 0,
                                decreases bytes@.len() - i,
                            {
                                save.buf[i] = bytes[i];
                                i += 1;
                                assert(save.buf@.take(i as int) =~= bytes@.take(i as int));
                            }
                            assert(bytes@.take(bytes@.len() as int) =~= bytes@);
                            save.reset(bytes.len());
                        }
                    },
                    None => {},
                }
            },
            None => {
                // Write an empty savegame
                self.flash_actions.push(FlashAction::Append(vec![0, 0]));
                assert(self.flash_actions@.take(old(self).flash_actions@.len() as int) =~= old(
                    self,
                ).flash_actions@);
            },
        }
        assert(save.buf@.take(data.len() as int) =~= data);
        proof {
            lemma_pull_field(save, data, 2, 0);
        }
        self.progress = save.pull_u16(0);
        proof {
            lemma_pull_field(save, data, 2, 0);
        }
        self.money = save.pull_u16(0);
        proof {
            lemma_pull_field(save, data, 2, DEFAULT_HEALTH as nat);
        }
        let health = save.pull_u16(DEFAULT_HEALTH);
        proof {
            lemma_pull_field(save, data, 2, DEFAULT_ENERGY as nat);
        }
        let energy = save.pull_u16(DEFAULT_ENERGY);
        proof {
            lemma_pull_field(save, data, 2, DEFAULT_RECHARGE as nat);
        }
        let recharge = save.pull_u16(DEFAULT_RECHARGE);
        proof {
            lemma_pull_field(save, data, 1, DEFAULT_COOLDOWN as nat);
        }
        let cooldown = save.pull_u8(DEFAULT_COOLDOWN);
        proof {
            lemma_pull_field(save, data, 2, DEFAULT_ABILITIES as nat);
        }
        let abilities = save.pull_u16(DEFAULT_ABILITIES);
        self.stats = Stats { health, energy, recharge, cooldown, abilities };
        proof {
            lemma_pull_field(save, data, 16, 0);
        }
        self.purchased = Purchase::from(save.pull_u128(0));
        self.pick_scene(rng);
    }

    /// Move on to the next scene of the story, saving the progress.
    pub fn progress_next<R: Rng>(&mut self, rng: &mut R)
        ensures
            advanced(*old(self), *final(self)),
            final(self).wf(),
    {
        self.progress = self.progress.saturating_add(1);
        let ghost mid = *self;
        self.write_save();
        let ghost mid2 = *self;
        self.pick_scene(rng);
        assert(saved(mid, mid2) && scene_picked(mid2, *self));
    }

    /// The player won `battle`.
    pub fn fight_won<R: Rng>(&mut self, rng: &mut R, battle: &Battle)
        ensures
            won(*old(self), battle.resolution, *final(self)),
            final(self).wf(),
    {
        // depending on what has been configured, we may return to the current scene or progress
        match battle.resolution {
            Resolution::ProgressCampaign => {
                self.progress_next(rng);
            },
            Resolution::Return => {
                self.write_save();
                let ghost mid = *self;
                self.pick_scene(rng);
                assert(saved(*old(self), mid) && scene_picked(mid, *self));
            },
        }
    }

    /// Enter the shop selling `items`.
    pub fn open_shop(&mut self, items: Purchase)
        ensures
            with_pending(*old(self), *final(self), Some(Scene::Shop(Shop { items }))),
    {
        self.pending_scene = Some(Scene::Shop(Shop::new(items)));
    }

    /// Buy `purchase`: refused (returning false, changing nothing) when it
    /// was bought before or the money does not cover its price; otherwise
    /// the price is paid, the purchase added and the state saved.
    pub fn add_purchase(&mut self, purchase: Purchase) -> (r: bool)
        ensures
            r == (old(self).purchased.spec_bits() & purchase.spec_bits() != purchase.spec_bits()
                && old(self).money >= crate::machine::shop::price_of(purchase.spec_bits())),
            !r ==> *final(self) == *old(self),
            r ==> exists|mid: Campaign|
                {
                    &&& mid.money == old(self).money - crate::machine::shop::price_of(
                        purchase.spec_bits(),
                    )
                    &&& mid.purchased.spec_bits() == old(self).purchased.spec_bits()
                        | purchase.spec_bits()
                    &&& mid.progress == old(self).progress
                    &&& mid.stats == old(self).stats
                    &&& mid.save_slot == old(self).save_slot
                    &&& mid.pending_scene == old(self).pending_scene
                    &&& mid.flash_actions == old(self).flash_actions
                    &&& #[trigger] saved(mid, *final(self))
                },
    {
        if self.purchased.contains(purchase) {
            return false;
        }
        let price = purchase.price();
        let remaining = match self.money.checked_sub(price) {
            Some(remaining) => remaining,
            None => {
                return false;
            },
        };
        self.money = remaining;
        self.purchased.insert(purchase);
        let ghost mid = *self;
        self.write_save();
        assert(saved(mid, *self));
        true
    }

    #[inline(always)]
    pub fn money(&self) -> (m: u16)
        ensures
            m == self.money,
    {
        self.money
    }
}

/// What a savegame written from a campaign state loads back as.
pub open spec fn load_matches(data: Seq<u8>, progress: u16, money: u16, stats: Stats, purchased: u128) -> bool {
    &&& field(data, 0, 2, 0) == progress
    &&& field(data, 2, 2, 0) == money
    &&& loaded_stats(data) == stats
    &&& (field(data, 13, 16, 0) as u128) & ALL_BITS == purchased
}


/// This holds the current scene of the game
#[allow(clippy::large_enum_variant)]
pub enum Scene {
    Intro(Intro),
    Moon(Moon),
    Dialogue(Dialogue),
    Battle(Battle),
    Home(Home),
    Shop(Shop),
}

impl Scene {
    /// The scene can be played: a dialogue has a current line, and a battle
    /// is well formed.
    pub open spec fn wf(self) -> bool {
        match self {
            Scene::Dialogue(d) => d.progress < d.text@.len(),
            Scene::Battle(b) => b.wf(),
            _ => true,
        }
    }
}

/// What a key does to the scene `s0` itself, before a scene change the
/// campaign asks for is made.
pub open spec fn scene_updated(s0: Scene, c0: Campaign, event: input::Event, s1: Scene, c1: Campaign, r: Option<Render>) -> bool {
    match s0 {
        Scene::Intro(i0) => s1 matches Scene::Intro(i1) && Intro::updated(i0, c0, event, i1, c1, r),
        Scene::Moon(m0) => s1 matches Scene::Moon(m1) && Moon::updated(m0, c0, event, m1, c1, r),
        Scene::Dialogue(d0) => s1 matches Scene::Dialogue(d1) && Dialogue::updated(
            d0,
            c0,
            event,
            d1,
            c1,
            r,
        ),
        Scene::Battle(b0) => s1 matches Scene::Battle(b1) && Battle::updated(b0, c0, event, b1, c1, r),
        Scene::Home(h0) => s1 matches Scene::Home(h1) && Home::updated(h0, c0, event, h1, c1, r),
        Scene::Shop(x0) => s1 matches Scene::Shop(x1) && Shop::updated(x0, c0, event, x1, c1, r),
    }
}

/// What one frame does to the scene.
pub open spec fn scene_ticked(s0: Scene, r0: Option<Render>, s1: Scene, r1: Option<Render>) -> bool {
    match s0 {
        Scene::Moon(m0) => s1 matches Scene::Moon(m1) && Moon::ticked(m0, r0, m1, r1),
        Scene::Battle(b0) => s1 matches Scene::Battle(b1) && Battle::ticked(b0, r0, b1, r1),
        _ => s1 == s0 && r1 == r0,
    }
}

impl Scene {
    /// Handle a key. The scene reacts first; if it made the campaign ask for
    /// another scene, that scene takes over and the screen is cleared.
    ///
    /// `*` in a battle, at home or in the shop (a shortcut into the USB
    /// bootloader) is left to the caller.
    pub fn update<R: Rng>(
        &mut self,
        rng: &mut R,
        campaign: &mut Campaign,
        event: input::Event,
    ) -> (r: Option<Render>)
        requires
            old(self).wf(),
            old(campaign).wf(),
            !(event == input::Event::Star && (*old(self) is Battle || *old(self) is Home
                || *old(self) is Shop)),
        ensures
            final(self).wf(),
            final(campaign).wf(),
            final(campaign).pending_scene is None,
            exists|s1: Scene, c1: Campaign, r1: Option<Render>|
                {
                    &&& #[trigger] scene_updated(*old(self), *old(campaign), event, s1, c1, r1)
                    &&& match c1.pending_scene {
                        Some(next) => {
                            &&& *final(self) == next
                            &&& r == Some(Render::Clear)
                            &&& with_pending(c1, *final(campaign), None)
                        },
                        None => {
                            &&& *final(self) == s1
                            &&& r == r1
                            &&& *final(campaign) == c1
                        },
                    }
                },
    {
        let render = match self {
            Scene::Intro(intro) => intro.update(rng, campaign, event),
            Scene::Moon(moon) => moon.update(rng, campaign, event),
            Scene::Dialogue(dialogue) => dialogue.update(rng, campaign, event),
            Scene::Battle(battle) => battle.update(rng, campaign, event),
            Scene::Home(home) => home.update(rng, campaign, event),
            Scene::Shop(shop) => shop.update(rng, campaign, event),
        };
        let ghost s1 = *self;
        let ghost c1 = *campaign;
        assert(scene_updated(*old(self), *old(campaign), event, s1, c1, render));
        match campaign.pending_scene.take() {
            Some(pending) => {
                *self = pending;
                Some(Render::Clear)
            },
            None => render,
        }
    }

    /// One frame: cut scenes animate and battles play out their turns.
    pub fn tick<R: Rng>(&mut self, rng: &mut R, render: &mut Option<Render>)
        requires
            old(self).wf(),
        ensures
            final(self).wf(),
            scene_ticked(*old(self), *old(render), *final(self), *final(render)),
    {
        match self {
            Scene::Intro(_intro) => {},
            Scene::Moon(moon) => moon.tick(rng, render),
            Scene::Dialogue(_dialogue) => {},
            Scene::Battle(battle) => battle.tick(rng, render),
            Scene::Home(_home) => {},
            Scene::Shop(_shop) => {},
        }
    }

    /// Take the result of the flash scan that the campaign asked for: the
    /// intro takes over, knowing whether a savegame was found.
    pub fn finish_scan(&mut self, campaign: &mut Campaign, found: Option<SaveSlot>) -> (r: Option<Render>)
        ensures
            *final(self) == Scene::Intro(
                Intro { has_save: found is Some, confirm_erase: None, debug_save: None },
            ),
            final(campaign).save_slot == found,
            final(campaign).progress == old(campaign).progress,
            final(campaign).money == old(campaign).money,
            final(campaign).stats == old(campaign).stats,
            final(campaign).purchased == old(campaign).purchased,
            final(campaign).pending_scene == old(campaign).pending_scene,
            final(campaign).flash_actions == old(campaign).flash_actions,
            r == Some(Render::Clear),
    {
        *self = Scene::Intro(campaign.intro(found));
        Some(Render::Clear)
    }
}

proof fn lemma_field_at(prefix: Seq<u8>, value: nat, n: nat, rest: Seq<u8>, default: nat)
    requires
        n > 0,
        value < crate::save::byte_range(n),
    ensures
        field(prefix + be_bytes(value, n) + rest, prefix.len(), n, default) == value,
{
    crate::save::lemma_be_roundtrip(value, n);
    let data = prefix + be_bytes(value, n) + rest;
    assert(data.subrange(prefix.len() as int, (prefix.len() + n) as int) =~= be_bytes(value, n));
}

/// A savegame loads back the state it was written from: progress, money,
/// stats and purchases.
pub proof fn lemma_save_roundtrip(progress: u16, money: u16, stats: Stats, purchased: u128)
    requires
        purchased <= ALL_BITS,
    ensures
        load_matches(save_bytes(progress, money, stats, purchased), progress, money, stats, purchased),
{
    crate::save::lemma_byte_ranges();
    let b0 = be_bytes(progress as nat, 2);
    let b1 = be_bytes(money as nat, 2);
    let b2 = be_bytes(stats.health as nat, 2);
    let b3 = be_bytes(stats.energy as nat, 2);
    let b4 = be_bytes(stats.recharge as nat, 2);
    let b5 = be_bytes(stats.cooldown as nat, 1);
    let b6 = be_bytes(stats.abilities as nat, 2);
    let b7 = be_bytes(purchased as nat, 16);
    crate::save::lemma_be_roundtrip(progress as nat, 2);
    crate::save::lemma_be_roundtrip(money as nat, 2);
    crate::save::lemma_be_roundtrip(stats.health as nat, 2);
    crate::save::lemma_be_roundtrip(stats.energy as nat, 2);
    crate::save::lemma_be_roundtrip(stats.recharge as nat, 2);
    crate::save::lemma_be_roundtrip(stats.cooldown as nat, 1);
    crate::save::lemma_be_roundtrip(stats.abilities as nat, 2);
    crate::save::lemma_be_roundtrip(purchased as nat, 16);
    let data = save_bytes(progress, money, stats, purchased);
    let empty = Seq::<u8>::empty();
    assert(data =~= empty + b0 + (b1 + b2 + b3 + b4 + b5 + b6 + b7));
    lemma_field_at(empty, progress as nat, 2, b1 + b2 + b3 + b4 + b5 + b6 + b7, 0);
    assert(data =~= b0 + b1 + (b2 + b3 + b4 + b5 + b6 + b7));
    lemma_field_at(b0, money as nat, 2, b2 + b3 + b4 + b5 + b6 + b7, 0);
    assert(data =~= (b0 + b1) + b2 + (b3 + b4 + b5 + b6 + b7));
    lemma_field_at(b0 + b1, stats.health as nat, 2, b3 + b4 + b5 + b6 + b7, DEFAULT_HEALTH as nat);
    assert(data =~= (b0 + b1 + b2) + b3 + (b4 + b5 + b6 + b7));
    lemma_field_at(b0 + b1 + b2, stats.energy as nat, 2, b4 + b5 + b6 + b7, DEFAULT_ENERGY as nat);
    assert(data =~= (b0 + b1 + b2 + b3) + b4 + (b5 + b6 + b7));
    lemma_field_at(b0 + b1 + b2 + b3, stats.recharge as nat, 2, b5 + b6 + b7, DEFAULT_RECHARGE as nat);
    assert(data =~= (b0 + b1 + b2 + b3 + b4) + b5 + (b6 + b7));
    lemma_field_at(b0 + b1 + b2 + b3 + b4, stats.cooldown as nat, 1, b6 + b7, DEFAULT_COOLDOWN as nat);
    assert(data =~= (b0 + b1 + b2 + b3 + b4 + b5) + b6 + b7);
    lemma_field_at(b0 + b1 + b2 + b3 + b4 + b5, stats.abilities as nat, 2, b7, DEFAULT_ABILITIES as nat);
    assert(data =~= (b0 + b1 + b2 + b3 + b4 + b5 + b6) + b7 + empty);
    lemma_field_at(b0 + b1 + b2 + b3 + b4 + b5 + b6, purchased as nat, 16, empty, 0);
    assert(purchased & 0x7f == purchased) by (bit_vector)
        requires
            purchased <= 0x7f,
    ;
}

/// A game started from the savegame a campaign queued for writing resumes
/// where it was saved: same progress, money, stats and purchases.
pub proof fn lemma_resume_saved_game(c0: Campaign, c1: Campaign, c2: Campaign, c3: Campaign)
    requires
        c0.purchased.spec_bits() <= ALL_BITS,
        saved(c0, c1),
        c2.save_slot matches Some(slot) && slot.data matches Some(v) && c1.flash_actions@.last() matches FlashAction::Append(w) && v@ == w@,
        game_started(c2, c3),
    ensures
        c3.progress == c0.progress,
        c3.money == c0.money,
        c3.stats == c0.stats,
        c3.purchased.spec_bits() == c0.purchased.spec_bits(),
{
    lemma_save_roundtrip(c0.progress, c0.money, c0.stats, c0.purchased.spec_bits());
    let data = save_bytes(c0.progress, c0.money, c0.stats, c0.purchased.spec_bits());
    assert(data.len() == 29) by {
        crate::save::lemma_byte_ranges();
        crate::save::lemma_be_roundtrip(c0.progress as nat, 2);
        crate::save::lemma_be_roundtrip(c0.money as nat, 2);
        crate::save::lemma_be_roundtrip(c0.stats.health as nat, 2);
        crate::save::lemma_be_roundtrip(c0.stats.energy as nat, 2);
        crate::save::lemma_be_roundtrip(c0.stats.recharge as nat, 2);
        crate::save::lemma_be_roundtrip(c0.stats.cooldown as nat, 1);
        crate::save::lemma_be_roundtrip(c0.stats.abilities as nat, 2);
        crate::save::lemma_be_roundtrip(c0.purchased.spec_bits() as nat, 16);
    }
    assert(loaded_bytes(c2.save_slot) == data);
}

} // verus!
