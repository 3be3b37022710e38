use crate::action::Move;
use crate::cooldown::{all_rollable, cooldown_of, unlocked};
use crate::fighter::{self, can_pick, exchange, Fighter, FighterView, Stats};
use crate::input;
use crate::machine::{fresh_fighter, raise, raised, scene_picked, Campaign, Render};
use crate::random::Rng;
use crate::story::has_free_move;
use crate::timer::Timer;
use crate::turn::{step_applied, Source, Step, Turn};
use vstd::prelude::*;

verus! {

pub const TURN_STEP_DELAY: u8 = u8::MAX;

/// How a battle ended.
#[derive(Debug, Clone, Copy, PartialEq, Eq, Structural)]
pub enum Outcome {
    Win,
    Lose,
}

impl Outcome {
    /// The text announcing the outcome.
    pub open spec fn spec_message(self) -> Seq<char> {
        match self {
            Outcome::Win => "They have been defeated! You win!"@,
            Outcome::Lose => "We have been defeated!"@,
        }
    }

    pub fn message(&self) -> (m: &'static str)
        ensures
            m@ == self.spec_message(),
    {
        match self {
            Outcome::Win => "They have been defeated! You win!",
            Outcome::Lose => "We have been defeated!",
        }
    }
}

/// Where the campaign goes after a won battle.
#[derive(Debug, Clone, Copy, PartialEq, Eq, Structural)]
pub enum Resolution {
    /// On to the next scene of the story.
    ProgressCampaign,
    /// Back to the scene of the current progress.
    Return,
}

/// A battle between the player and an enemy, played out one step at a time.
pub struct Battle {
    pub player: Fighter,
    pub enemy: Fighter,
    pub their_move: Move,
    pub turn: Option<Turn>,
    pub upcoming_step: Option<(Source, Step)>,
    pub outcome: Option<Outcome>,
    pub timer: Timer,
    pub reward: u16,
    pub resolution: Resolution,
}

/// A battle is decided by health: once the player's health is zero the
/// battle is lost (even if the enemy falls too), otherwise once the enemy's
/// is zero it is won, and while both stand the outcome stays as it was.
pub proof fn lemma_outcome_by_health(player: FighterView, enemy: FighterView, before: Option<Outcome>)
    ensures
        player.health == 0 ==> outcome_after(player, enemy, before) == Some(Outcome::Lose),
        player.health != 0 && enemy.health == 0 ==> outcome_after(player, enemy, before) == Some(
            Outcome::Win,
        ),
        player.health != 0 && enemy.health != 0 ==> outcome_after(player, enemy, before) == before,
{
}

/// A tick that plays out a step decides the battle by the fighters' health
/// after it: lost when the player has none left, won when only the enemy
/// has none left; a tick that plays nothing out leaves the outcome alone.
pub proof fn lemma_tick_decides(b0: Battle, r0: Option<Render>, b1: Battle, r1: Option<Render>)
    requires
        Battle::ticked(b0, r0, b1, r1),
    ensures
        Battle::fires(b0) && b1.player.health == 0 ==> b1.outcome == Some(Outcome::Lose),
        Battle::fires(b0) && b1.player.health != 0 && b1.enemy.health == 0 ==> b1.outcome == Some(
            Outcome::Win,
        ),
        !Battle::fires(b0) ==> b1.outcome == b0.outcome,
{
}

/// The enemy can always pick a move: Zero or One, which cost nothing, is
/// unlocked.
pub open spec fn free_move_unlocked(f: FighterView) -> bool {
    unlocked(f.cooldown, Move::Zero) || unlocked(f.cooldown, Move::One)
}

/// The outcome a battle has once the fighters are `player` and `enemy`.
pub open spec fn outcome_after(player: FighterView, enemy: FighterView, before: Option<Outcome>) -> Option<Outcome> {
    if player.health == 0 {
        Some(Outcome::Lose)
    } else if enemy.health == 0 {
        Some(Outcome::Win)
    } else {
        before
    }
}

impl Battle {
    /// Both fighters' cooldowns can be rolled against, each has all ten
    /// slots, and the enemy always has a move to pick.
    pub open spec fn wf(self) -> bool {
        &&& all_rollable(self.player.cooldown@)
        &&& all_rollable(self.enemy.cooldown@)
        &&& self.player.cooldown@.len() == 10
        &&& self.enemy.cooldown@.len() == 10
        &&& free_move_unlocked(self.enemy@)
        &&& self.turn matches Some(t) ==> t.steps().len() <= crate::turn::MAX_STEPS
    }

    /// A battle that has just begun.
    pub open spec fn is_fresh(self, player: Stats, enemy: Stats, reward: u16, resolution: Resolution) -> bool {
        &&& self.player@ == fresh_fighter(player)
        &&& self.enemy@ == fresh_fighter(enemy)
        &&& can_pick(self.enemy@, self.their_move)
        &&& self.turn is None
        &&& self.upcoming_step is None
        &&& self.outcome is None
        &&& self.timer.spec_delay() == TURN_STEP_DELAY
        &&& self.timer.spec_step() == 0
        &&& self.reward == reward
        &&& self.resolution == resolution
    }

    pub fn new<R: Rng>(
        rng: &mut R,
        player: &Stats,
        enemy: &Stats,
        reward: u16,
        resolution: Resolution,
    ) -> (b: Self)
        requires
            has_free_move(*enemy),
        ensures
            b.is_fresh(*player, *enemy, reward, resolution),
            b.wf(),
    {
        proof {
            crate::cooldown::lemma_initial_rollable(enemy.cooldown, enemy.abilities);
            crate::cooldown::lemma_initial_rollable(player.cooldown, player.abilities);
        }
        let enemy = Fighter::new(enemy);
        assert(can_pick(enemy@, Move::Zero) || can_pick(enemy@, Move::One));
        let their_move = enemy.random_move(rng);

        Battle {
            player: Fighter::new(player),
            enemy,
            their_move,
            turn: None,
            upcoming_step: None,
            outcome: None,
            timer: Timer::new(TURN_STEP_DELAY),
            reward,
            resolution,
        }
    }
}

/// `b1` is `b0` with only the timer, the turn, the upcoming step, the
/// fighters, their move and the outcome possibly changed.
pub open spec fn same_setup(b0: Battle, b1: Battle) -> bool {
    b1.reward == b0.reward && b1.resolution == b0.resolution
}

impl Battle {
    /// What a key does in battle. Once the battle is over, `#` moves on: to
    /// the campaign's next scene after a win (whatever the battle's
    /// resolution), back to the current one after a loss. Otherwise a digit of an unlocked move starts a turn of it
    /// against the enemy's announced move, worked out on copies of the
    /// fighters (with `their_ok` and `our_ok` the outcomes of the cooldown
    /// rolls); the steps are then applied by `tick`.
    pub open spec fn updated(b0: Battle, c0: Campaign, event: input::Event, b1: Battle, c1: Campaign, r: Option<Render>) -> bool {
        &&& r is None
        &&& match b0.outcome {
            Some(outcome) => {
                &&& b1 == b0
                &&& if event == input::Event::Hash {
                    match outcome {
                        Outcome::Win => crate::machine::advanced(c0, c1),
                        Outcome::Lose => scene_picked(c0, c1),
                    }
                } else {
                    c1 == c0
                }
            },
            None => {
                &&& c1 == c0
                &&& match Move::spec_from_input(event) {
                    Some(mv) if unlocked(b0.player.cooldown@, mv) => {
                        &&& b1.turn matches Some(t) && t.cursor() == 0 && exists|their_ok: bool, our_ok: bool|
                            {
                                let x = #[trigger] exchange(
                                    b0.player@,
                                    b0.enemy@,
                                    Some(mv),
                                    Some(b0.their_move),
                                    their_ok,
                                    our_ok,
                                );
                                t.steps() == x.steps && t.queued() == x.queued
                            }
                        &&& b1.player == b0.player
                        &&& b1.enemy == b0.enemy
                        &&& b1.their_move == b0.their_move
                        &&& b1.upcoming_step == b0.upcoming_step
                        &&& b1.outcome == b0.outcome
                        &&& b1.timer == b0.timer
                        &&& same_setup(b0, b1)
                    },
                    _ => b1 == b0,
                }
            },
        }
    }

    /// Keys in battle. `*` (a shortcut into the USB bootloader) is left to
    /// the caller.
    pub fn update<R: Rng>(
        &mut self,
        rng: &mut R,
        campaign: &mut Campaign,
        event: input::Event,
    ) -> (r: Option<Render>)
        requires
            event != input::Event::Star,
            old(self).wf(),
        ensures
            Self::updated(*old(self), *old(campaign), event, *final(self), *final(campaign), r),
            final(self).wf(),
            old(campaign).wf() ==> final(campaign).wf(),
    {
        // Check if the battle is already over
        if let Some(outcome) = self.outcome {
            if event == input::Event::Hash {
                match outcome {
                    Outcome::Win => {
                        campaign.progress_next(rng);
                    },
                    Outcome::Lose => {
                        // Restart the fight
                        campaign.pick_scene(rng);
                    },
                }
            }
            return None;
        }

        // Check if the move is valid
        let mv = match Move::from_input(event) {
            Some(mv) => mv,
            None => {
                return None;
            },
        };

        // Ensure the move is unlocked
        if self.player.cooldown.get(&mv).is_none() {
            return None;
        }

        // Resolve the move into a turn
        self.turn = Some(fighter::turn(rng, self.player, self.enemy, Some(&mv), Some(&self.their_move)));
        None
    }

    /// What one frame does to a battle (`r0` and `r1` the render requests
    /// before and after).
    ///
    /// Without a turn in progress the timer is made due, so that a new turn
    /// starts at once. With one, nothing happens until the timer fires; then
    /// the step shown last is applied, or else the next step of the turn is
    /// shown, or else (the turn being over) both fighters rest and the enemy
    /// announces its next move.
    /// A defeated fighter decides the outcome, and a redraw is requested.
    pub open spec fn ticked(b0: Battle, r0: Option<Render>, b1: Battle, r1: Option<Render>) -> bool {
        &&& same_setup(b0, b1)
        &&& b1.timer.spec_delay() == b0.timer.spec_delay()
        &&& match b0.turn {
            None => {
                &&& b1.timer.spec_step() == u8::MAX
                &&& b1.turn is None
                &&& b1.player == b0.player
                &&& b1.enemy == b0.enemy
                &&& b1.their_move == b0.their_move
                &&& b1.upcoming_step == b0.upcoming_step
                &&& b1.outcome == b0.outcome
                &&& r1 == r0
            },
            Some(t) => {
                let next = if b0.timer.spec_step() < u8::MAX {
                    (b0.timer.spec_step() + 1) as u8
                } else {
                    u8::MAX
                };
                if next < b0.timer.spec_delay() {
                    &&& b1.timer.spec_step() == next
                    &&& b1.turn == b0.turn
                    &&& b1.player == b0.player
                    &&& b1.enemy == b0.enemy
                    &&& b1.their_move == b0.their_move
                    &&& b1.upcoming_step == b0.upcoming_step
                    &&& b1.outcome == b0.outcome
                    &&& r1 == r0
                } else {
                    &&& b1.timer.spec_step() == 0
                    &&& r1 == raised(r0, Render::Redraw)
                    &&& b1.outcome == outcome_after(b1.player@, b1.enemy@, b0.outcome)
                    &&& if let Some((source, step)) = b0.upcoming_step {
                        &&& b1.upcoming_step is None
                        &&& b1.turn == b0.turn
                        &&& b1.their_move == b0.their_move
                        &&& match source {
                            Source::Player => b1.player@ == step_applied(b0.player@, step)
                                && b1.enemy == b0.enemy,
                            Source::Enemy => b1.enemy@ == step_applied(b0.enemy@, step)
                                && b1.player == b0.player,
                        }
                    } else if t.cursor() < t.steps().len() {
                        &&& b1.upcoming_step == Some(t.steps()[t.cursor() as int])
                        &&& b1.turn matches Some(t1) && t1.steps() == t.steps() && t1.queued()
                            == t.queued() && t1.cursor() == t.cursor() + 1
                        &&& b1.player == b0.player
                        &&& b1.enemy == b0.enemy
                        &&& b1.their_move == b0.their_move
                    } else {
                        &&& b1.upcoming_step is None
                        &&& b1.turn is None
                        &&& b1.player@ == fighter::recovered(b0.player@)
                        &&& b1.enemy@ == fighter::recovered(b0.enemy@)
                        &&& can_pick(b1.enemy@, b1.their_move)
                    }
                }
            },
        }
    }

    /// Whether a tick of `b` plays out a step: a turn is in progress and the
    /// timer fires.
    pub open spec fn fires(b: Battle) -> bool {
        b.turn is Some && b.timer.next_step() >= b.timer.spec_delay()
    }

    pub fn tick<R: Rng>(&mut self, rng: &mut R, render: &mut Option<Render>)
        requires
            old(self).wf(),
        ensures
            Self::ticked(*old(self), *old(render), *final(self), *final(render)),
            final(self).wf(),
            Self::fires(*old(self)) ==> {
                &&& final(self).player.health == 0 ==> final(self).outcome == Some(Outcome::Lose)
                &&& final(self).player.health != 0 && final(self).enemy.health == 0 ==> final(self).outcome
                    == Some(Outcome::Win)
            },
            !Self::fires(*old(self)) ==> final(self).outcome == old(self).outcome,
    {
        if self.turn.is_none() {
            // Make the timer execute immediately as soon as a turn starts
            self.timer.set_due();
            return ;
        }

        // Check timer
        if !self.timer.step() {
            return ;
        }

        let ghost p0 = self.player;
        let ghost e0 = self.enemy;
        // Execute the upcoming step we've render for a moment
        if let Some((source, step)) = self.upcoming_step {
            self.upcoming_step = None;
            match source {
                Source::Player => step.apply(&mut self.player),
                Source::Enemy => step.apply(&mut self.enemy),
            }
            proof {
                lemma_step_keeps(p0@, step);
                lemma_step_keeps(e0@, step);
            }
        } else {
            let mut turn = self.turn.take().unwrap();
            let next = match turn.next_step() {
                Some(entry) => Some(*entry),
                None => None,
            };
            match next {
                Some(entry) => {
                    // Select the next step for rendering
                    self.upcoming_step = Some(entry);
                    self.turn = Some(turn);
                },
                None => {
                    // Prepare next turn
                    let ghost p1 = self.player;
                    let ghost e1 = self.enemy;
                    // Recharge energy for both fighters
                    self.player.auto_recharge_energy();
                    self.enemy.auto_recharge_energy();
                    proof {
                        crate::cooldown::lemma_increased_keeps(p1.cooldown@);
                        crate::cooldown::lemma_increased_keeps(e1.cooldown@);
                    }
                    assert(can_pick(self.enemy@, Move::Zero) || can_pick(self.enemy@, Move::One));
                    self.their_move = self.enemy.random_move(rng);
                    // End the current turn
                },
            }
        }

        // Check for defeat
        if self.player.defeated() {
            // We have been defeated! Game over.
            self.outcome = Some(Outcome::Lose);
        } else if self.enemy.defeated() {
            // They have been defeated! You win!
            self.outcome = Some(Outcome::Win);
        }

        raise(render, Render::Redraw);
    }
}

/// Applying a step changes no cooldown of any fighter other than through
/// `SetCooldown`, which keeps every cooldown rollable and changes no unlock.
proof fn lemma_step_keeps(f: FighterView, step: Step)
    requires
        f.cooldown.len() == 10,
    ensures
        step_applied(f, step).cooldown.len() == 10,
        all_rollable(f.cooldown) ==> all_rollable(step_applied(f, step).cooldown),
        forall|x: Move| unlocked(step_applied(f, step).cooldown, x) == unlocked(f.cooldown, x),
{
    if let Step::SetCooldown(mv) = step {
        crate::cooldown::lemma_consumed_keeps(f.cooldown, mv);
    }
}

} // verus!
