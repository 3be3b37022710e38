use crate::action::{Decision, Move};
use crate::cooldown::{
    all_rollable, consumed, cooldown_of, increased, initial_cooldowns, Cooldown, CooldownSet,
};
use crate::random::Rng;
use crate::specials::{special_applied, special_steps, Special};
use crate::turn::{
    affords, cooldowns_after, damaged, drained, energy_recharged, health_recharged, Source, Step,
    Turn, MAX_STEPS,
};
use vstd::prelude::*;

verus! {

/// The stats a fighter starts a battle with.
#[derive(Clone, Copy, Debug, PartialEq, Eq)]
pub struct Stats {
    pub health: u16,
    pub energy: u16,
    pub recharge: u16,
    pub cooldown: u8,
    /// Bit `i` set unlocks the move of digit `i`.
    pub abilities: u16,
}

impl Stats {
    // This doesn't make much sense, but lets us notice if we don't initialize properly
    pub fn zero() -> (s: Self)
        ensures
            s.health == 0,
            s.energy == 0,
            s.recharge == 0,
            s.cooldown == 0,
            s.abilities == 0,
    {
        Self { health: 0, energy: 0, recharge: 0, cooldown: 0, abilities: 0 }
    }
}

/// A fighter's state in battle.
#[derive(Debug, PartialEq, Clone, Copy)]
pub struct Fighter {
    pub health: u16,
    pub max_health: u16,
    pub energy: u16,
    pub max_energy: u16,
    pub recharge: u16,
    pub special: Special,
    pub cooldown: CooldownSet,
}

/// The mathematical value of a fighter: its fields, with the cooldowns as a
/// sequence indexed by digit.
pub struct FighterView {
    pub health: u16,
    pub max_health: u16,
    pub energy: u16,
    pub max_energy: u16,
    pub recharge: u16,
    pub special: Special,
    pub cooldown: Seq<Option<Cooldown>>,
}

impl View for Fighter {
    type V = FighterView;

    open spec fn view(&self) -> FighterView {
        FighterView {
            health: self.health,
            max_health: self.max_health,
            energy: self.energy,
            max_energy: self.max_energy,
            recharge: self.recharge,
            special: self.special,
            cooldown: self.cooldown@,
        }
    }
}

/// `a` and `b` agree on everything but their cooldowns.
pub open spec fn same_but_cooldown(a: FighterView, b: FighterView) -> bool {
    &&& a.health == b.health
    &&& a.max_health == b.max_health
    &&& a.energy == b.energy
    &&& a.max_energy == b.max_energy
    &&& a.recharge == b.recharge
    &&& a.special == b.special
}

/// `Option<&Move>` as a plain optional move.
pub open spec fn opt_move(mv: Option<&Move>) -> Option<Move> {
    match mv {
        Some(m) => Some(*m),
        None => None,
    }
}

/// A fighter can pick `mv` when the move is unlocked and affordable.
pub open spec fn can_pick(f: FighterView, mv: Move) -> bool {
    cooldown_of(f.cooldown, mv) is Some && affords(f, mv)
}

/// A fighter that has some move it can pick.
pub open spec fn has_choice(f: FighterView) -> bool {
    exists|mv: Move| can_pick(f, mv)
}

/// Whether the cooldown check of `f` before it plays `mv` needs a roll: the
/// move is unlocked and not recharged.
pub open spec fn needs_roll(f: FighterView, mv: Option<Move>) -> bool {
    mv matches Some(m) && cooldown_of(f.cooldown, m) matches Some(cd) && !cd.spec_full()
}

/// The state of a turn being worked out: the recorded steps, the cooldowns
/// queued for consumption, and both fighters as the turn has left them.
pub struct Exchange {
    pub steps: Seq<(Source, Step)>,
    pub queued: Seq<(Source, Move)>,
    pub player: FighterView,
    pub enemy: FighterView,
}

pub open spec fn side(x: Exchange, s: Source) -> FighterView {
    match s {
        Source::Player => x.player,
        Source::Enemy => x.enemy,
    }
}

pub open spec fn with_side(x: Exchange, s: Source, f: FighterView) -> Exchange {
    match s {
        Source::Player => Exchange { player: f, ..x },
        Source::Enemy => Exchange { enemy: f, ..x },
    }
}

pub open spec fn record(x: Exchange, s: Source, step: Step) -> Exchange {
    Exchange { steps: x.steps.push((s, step)), ..x }
}

pub open spec fn queue(x: Exchange, s: Source, mv: Move) -> Exchange {
    Exchange { queued: x.queued.push((s, mv)), ..x }
}

/// The cooldown check of fighter `f` before it plays `mv`: a locked move is
/// dropped; a recharged one passes; otherwise `ok` (the outcome of the roll)
/// decides, and a failed roll drops the move. A successful roll consumes the
/// cooldown. Also gives the step to record, if any.
pub open spec fn roll_outcome(f: FighterView, mv: Option<Move>, ok: bool) -> (FighterView, Option<Move>, Option<Step>) {
    match mv {
        None => (f, None, None),
        Some(m) => match cooldown_of(f.cooldown, m) {
            None => (f, None, None),
            Some(cd) => if cd.spec_full() {
                (f, Some(m), None)
            } else if ok {
                (FighterView { cooldown: consumed(f.cooldown, m), ..f }, Some(m), Some(Step::RollSuccess))
            } else {
                (f, None, Some(Step::RollFailed))
            },
        },
    }
}

/// The cooldown check of the fighter on side `source`, within a turn.
pub open spec fn rolled(x: Exchange, source: Source, mv: Option<Move>, ok: bool) -> (Exchange, Option<Move>) {
    let (f, m, st) = roll_outcome(side(x, source), mv, ok);
    let x1 = match st {
        Some(step) => record(x, source, step),
        None => x,
    };
    (with_side(x1, source, f), m)
}

/// A turn in progress, with the fighter on side `source` being `me`.
pub open spec fn arranged(
    steps: Seq<(Source, Step)>,
    queued: Seq<(Source, Move)>,
    source: Source,
    me: FighterView,
    other: FighterView,
) -> Exchange {
    match source {
        Source::Player => Exchange { steps, queued, player: me, enemy: other },
        Source::Enemy => Exchange { steps, queued, player: other, enemy: me },
    }
}

/// The fighter on side `source` plays `mv` against the other's `their`:
/// it pays the move's cost (doing nothing if it cannot); the move fails if
/// the other can afford `their` and `their` blocks it; otherwise the other
/// takes the damage and a special is applied (healing gives back one health
/// and one energy, within the maxima, so an unblocked special can leave the
/// fighter with more energy than it paid). A move that was paid for has its
/// cooldown queued.
pub open spec fn executed(x: Exchange, source: Source, mv: Option<Move>, their: Option<Move>) -> Exchange {
    match mv {
        None => x,
        Some(m) => {
            let me = side(x, source);
            let other = side(x, source.spec_other());
            if !affords(me, m) {
                x
            } else {
                let x1 = with_side(record(x, source, Step::SpendEnergy(m)), source, drained(me, m));
                if their matches Some(t) && affords(other, t) && t.spec_blocks(m) {
                    queue(record(x1, source, Step::AttackFailed(m)), source, m)
                } else {
                    let x2 = if m.spec_damage() > 0 {
                        with_side(
                            record(x1, source.spec_other(), Step::TakeDamage(m)),
                            source.spec_other(),
                            damaged(other, m),
                        )
                    } else {
                        x1
                    };
                    let x3 = if m.spec_to_decision() == Decision::Special {
                        let us = side(x2, source);
                        with_side(
                            Exchange { steps: x2.steps + special_steps(us.special, source), ..x2 },
                            source,
                            special_applied(us.special, us),
                        )
                    } else {
                        x2
                    };
                    queue(x3, source, m)
                }
            }
        },
    }
}

/// A whole turn: both cooldown checks (the enemy's first, with roll
/// outcomes `their_ok` and `our_ok`), then the enemy acts, and the player
/// acts unless the enemy's action defeated it.
pub open spec fn exchange(
    player: FighterView,
    enemy: FighterView,
    our: Option<Move>,
    their: Option<Move>,
    their_ok: bool,
    our_ok: bool,
) -> Exchange {
    let x0 = Exchange { steps: Seq::empty(), queued: Seq::empty(), player, enemy };
    let (x1, their1) = rolled(x0, Source::Enemy, their, their_ok);
    let (x2, our1) = rolled(x1, Source::Player, our, our_ok);
    let x3 = executed(x2, Source::Enemy, their1, our1);
    if x3.player.health == 0 {
        x3
    } else {
        executed(x3, Source::Player, our1, their1)
    }
}

/// The fighters after applying `steps` in order, each to the fighter it
/// names.
pub open spec fn replayed(steps: Seq<(Source, Step)>, player: FighterView, enemy: FighterView) -> (FighterView, FighterView)
    decreases steps.len(),
{
    if steps.len() == 0 {
        (player, enemy)
    } else {
        let (p, e) = replayed(steps.drop_last(), player, enemy);
        let (s, step) = steps.last();
        match s {
            Source::Player => (crate::turn::step_applied(p, step), e),
            Source::Enemy => (p, crate::turn::step_applied(e, step)),
        }
    }
}

/// A fighter after a turn was applied: health and energy as the turn left
/// them, everything else as before, and the queued cooldowns consumed.
pub open spec fn settled(before: FighterView, after: FighterView, queued: Seq<(Source, Move)>, s: Source) -> FighterView {
    FighterView {
        health: after.health,
        energy: after.energy,
        cooldown: cooldowns_after(queued, s, before.cooldown),
        ..before
    }
}

impl Fighter {
    pub fn new(stats: &Stats) -> (f: Self)
        ensures
            f.health == stats.health,
            f.max_health == stats.health,
            f.energy == stats.energy,
            f.max_energy == stats.energy,
            f.recharge == stats.recharge,
            f.special == Special::Heal,
            f.cooldown@ == initial_cooldowns(stats.cooldown, stats.abilities),
    {
        Self {
            health: stats.health,
            max_health: stats.health,
            energy: stats.energy,
            max_energy: stats.energy,
            recharge: stats.recharge,
            special: Special::Heal,
            cooldown: CooldownSet::new(stats.cooldown, stats.abilities),
        }
    }

    pub fn apply_damage(&mut self, mv: &Move)
        ensures
            final(self)@ == damaged(old(self)@, *mv),
    {
        self.health = self.health.saturating_sub(mv.damage());
    }

    /// The energy left after paying for `mv`, if the fighter can afford it.
    pub fn check_energy_cost(&self, mv: &Move) -> (r: Option<u16>)
        ensures
            r == if affords(self@, *mv) {
                Some((self.energy - mv.spec_damage()) as u16)
            } else {
                None
            },
    {
        self.energy.checked_sub(mv.damage())
    }

    /// Pay for `mv` if the fighter can afford it.
    pub fn drain_energy(&mut self, mv: &Move) -> (r: bool)
        ensures
            r == affords(old(self)@, *mv),
            final(self)@ == drained(old(self)@, *mv),
    {
        if let Some(new_energy) = self.check_energy_cost(mv) {
            self.energy = new_energy;
            true
        } else {
            false
        }
    }

    pub fn defeated(&self) -> (r: bool)
        ensures
            r == (self.health == 0),
    {
        self.health == 0
    }

    /// Between turns: regain `recharge` energy and recharge every cooldown by
    /// one step.
    pub fn auto_recharge_energy(&mut self)
        ensures
            final(self)@ == (FighterView {
                cooldown: increased(old(self)@.cooldown),
                ..energy_recharged(old(self)@, old(self).recharge)
            }),
            final(self).energy == (if old(self).energy + old(self).recharge < old(self).max_energy {
                old(self).energy + old(self).recharge
            } else {
                old(self).max_energy as int
            }),
            old(self).energy <= old(self).max_energy ==> final(self).energy <= final(self).max_energy,
    {
        self.recharge_energy(self.recharge);
        self.cooldown.increase();
    }

    pub fn recharge_energy(&mut self, value: u16)
        ensures
            final(self)@ == energy_recharged(old(self)@, value),
            final(self).energy == (if old(self).energy + value < old(self).max_energy {
                old(self).energy + value
            } else {
                old(self).max_energy as int
            }),
            final(self).max_energy == old(self).max_energy,
            old(self).energy <= old(self).max_energy ==> final(self).energy <= final(self).max_energy,
    {
        let sum = self.energy.saturating_add(value);
        self.energy = if sum < self.max_energy {
            sum
        } else {
            self.max_energy
        };
    }

    pub fn recharge_health(&mut self, value: u16)
        ensures
            final(self)@ == health_recharged(old(self)@, value),
            final(self).health == (if old(self).health + value < old(self).max_health {
                old(self).health + value
            } else {
                old(self).max_health as int
            }),
            final(self).max_health == old(self).max_health,
            old(self).health <= old(self).max_health ==> final(self).health <= final(self).max_health,
    {
        let sum = self.health.saturating_add(value);
        self.health = if sum < self.max_health {
            sum
        } else {
            self.max_health
        };
    }
}

impl Fighter {
    /// The cooldown check before this fighter plays `*mv`: drops a locked
    /// move, lets a recharged one pass, and otherwise rolls; a failed roll
    /// drops the move. Rolls are recorded as steps.
    pub fn roll_cooldown_check<R: Rng>(
        &mut self,
        rng: &mut R,
        turn: &mut Turn,
        source: Source,
        mv: &mut Option<&Move>,
    )
        requires
            all_rollable(old(self)@.cooldown),
            old(turn).steps().len() < MAX_STEPS,
        ensures
            exists|ok: bool|
                {
                    let (f, m, st) = #[trigger] roll_outcome(old(self)@, opt_move(*old(mv)), ok);
                    &&& final(self)@ == f
                    &&& opt_move(*final(mv)) == m
                    &&& final(turn).steps() == match st {
                        Some(step) => old(turn).steps().push((source, step)),
                        None => old(turn).steps(),
                    }
                },
            final(turn).queued() == old(turn).queued(),
            final(turn).cursor() == old(turn).cursor(),
            all_rollable(final(self)@.cooldown),
            !needs_roll(old(self)@, opt_move(*old(mv))) ==> *final(rng) == *old(rng),
            needs_roll(old(self)@, opt_move(*old(mv))) ==> (opt_move(*final(mv)) is Some
                <==> cooldown_of(old(self)@.cooldown, opt_move(*old(mv)).unwrap()).unwrap().spec_attempt_succeeds(
                old(rng).peek(),
            )),
    {
        let m: Move = match *mv {
            Some(m) => *m,
            None => {
                *mv = None;
                assert(roll_outcome(old(self)@, opt_move(*old(mv)), true).0 == self@);
                return ;
            },
        };
        match self.cooldown.get(&m) {
            None => {
                // Move is not available, discard
                // We don't record this as turn event because this illegal move should never happen
                *mv = None;
                assert(roll_outcome(old(self)@, opt_move(*old(mv)), true).0 == self@);
                return ;
            },
            Some(cooldown) => {
                if cooldown.full() {
                    // Everything is fine, no roll needed
                    assert(roll_outcome(old(self)@, opt_move(*old(mv)), true).0 == self@);
                    return ;
                }
            },
        }
        let ok = self.cooldown.attempt(rng, &m);
        if ok {
            // Cooldown roll succeeded
            turn.push(source, Step::RollSuccess);
        } else {
            // Cooldown roll failed
            *mv = None;
            turn.push(source, Step::RollFailed);
        }
        assert(roll_outcome(old(self)@, opt_move(*old(mv)), ok).0 == self@);
        assert forall|i: int| 0 <= i < self@.cooldown.len() implies match #[trigger] self@.cooldown[i] {
            Some(cd) => cd.rollable(),
            None => true,
        } by {
            assert(old(self)@.cooldown[i] matches Some(cd) ==> cd.rollable());
        }
    }

    /// This fighter (on side `source`) plays `mv` against `other`, who plays
    /// `their_mv`, recording what happens in `turn`.
    pub fn execute(
        &mut self,
        turn: &mut Turn,
        source: Source,
        other: &mut Self,
        mv: Option<&Move>,
        their_mv: Option<&Move>,
    )
        requires
            old(turn).steps().len() + 4 <= MAX_STEPS,
        ensures
            ({
                let x = executed(
                    arranged(old(turn).steps(), old(turn).queued(), source, old(self)@, old(other)@),
                    source,
                    opt_move(mv),
                    opt_move(their_mv),
                );
                &&& final(turn).steps() == x.steps
                &&& final(turn).queued() == x.queued
                &&& final(self)@ == side(x, source)
                &&& final(other)@ == side(x, source.spec_other())
            }),
            final(turn).cursor() == old(turn).cursor(),
    {
        let mv = match mv {
            Some(mv) => mv,
            None => {
                return ;
            },
        };

        // Apply the cost of the move first
        if !self.drain_energy(mv) {
            return ;
        }
        turn.push(source, Step::SpendEnergy(*mv));

        // Check if it goes through
        let blocked = match their_mv {
            Some(their_mv) => other.check_energy_cost(their_mv).is_some() && their_mv.blocks(mv),
            None => false,
        };
        if blocked {
            turn.push(source, Step::AttackFailed(*mv));
            turn.queue_cooldown(source, *mv);
            return ;
        }
        if mv.damage() > 0 {
            turn.push(source.other(), Step::TakeDamage(*mv));
            other.apply_damage(mv);
        }
        if mv.to_decision() == Decision::Special {
            let special = self.special;
            special.apply(turn, source, self);
        }
        turn.queue_cooldown(source, *mv);
    }
}

/// Work out one turn on copies of the fighters: both cooldown checks (the
/// enemy's first), then the enemy's move, then (unless the player was
/// defeated by it) the player's. The result records the steps to apply and
/// the cooldowns to consume; `their_ok` and `our_ok` below are the outcomes
/// of the two cooldown rolls, which only matter for moves that have not
/// fully recharged.
pub fn turn<R: Rng>(
    rng: &mut R,
    player: Fighter,
    enemy: Fighter,
    our_move: Option<&Move>,
    their_move: Option<&Move>,
) -> (t: Turn)
    requires
        all_rollable(player.cooldown@),
        all_rollable(enemy.cooldown@),
    ensures
        t.cursor() == 0,
        t.steps().len() <= 10,
        exists|their_ok: bool, our_ok: bool|
            {
                let x = #[trigger] exchange(player@, enemy@, opt_move(our_move), opt_move(their_move), their_ok, our_ok);
                &&& t.steps() == x.steps
                &&& t.queued() == x.queued
            },
{
    let mut player = player;
    let mut enemy = enemy;
    let mut our_move = our_move;
    let mut their_move = their_move;
    let ghost our0 = opt_move(our_move);
    let ghost their0 = opt_move(their_move);
    let ghost x0 = Exchange { steps: Seq::empty(), queued: Seq::empty(), player: player@, enemy: enemy@ };
    let mut turn = Turn::new();

    // Apply cooldown checks and rolls
    enemy.roll_cooldown_check(rng, &mut turn, Source::Enemy, &mut their_move);
    let ghost their_ok = choose|ok: bool|
        {
            let (f, m, st) = #[trigger] roll_outcome(x0.enemy, their0, ok);
            &&& enemy@ == f
            &&& opt_move(their_move) == m
            &&& turn.steps() == match st {
                Some(step) => x0.steps.push((Source::Enemy, step)),
                None => x0.steps,
            }
        };
    let ghost x1 = rolled(x0, Source::Enemy, their0, their_ok).0;
    assert(turn.steps() == x1.steps && turn.queued() == x1.queued);
    assert(enemy@ == x1.enemy && player@ == x1.player);
    assert(opt_move(their_move) == rolled(x0, Source::Enemy, their0, their_ok).1);

    player.roll_cooldown_check(rng, &mut turn, Source::Player, &mut our_move);
    let ghost our_ok = choose|ok: bool|
        {
            let (f, m, st) = #[trigger] roll_outcome(x1.player, our0, ok);
            &&& player@ == f
            &&& opt_move(our_move) == m
            &&& turn.steps() == match st {
                Some(step) => x1.steps.push((Source::Player, step)),
                None => x1.steps,
            }
        };
    let ghost x2 = rolled(x1, Source::Player, our0, our_ok).0;
    assert(turn.steps() == x2.steps && turn.queued() == x2.queued);
    assert(enemy@ == x2.enemy && player@ == x2.player);
    assert(opt_move(our_move) == rolled(x1, Source::Player, our0, our_ok).1);

    // Apply moves
    assert(arranged(x2.steps, x2.queued, Source::Enemy, x2.enemy, x2.player) == x2);
    enemy.execute(&mut turn, Source::Enemy, &mut player, their_move, our_move);
    let ghost x3 = executed(x2, Source::Enemy, opt_move(their_move), opt_move(our_move));
    assert(exchange(x0.player, x0.enemy, our0, their0, their_ok, our_ok) == if x3.player.health == 0 {
        x3
    } else {
        executed(x3, Source::Player, opt_move(our_move), opt_move(their_move))
    });
    if player.defeated() {
        // If we were defeated, end the round early
        proof {
            lemma_replay_reproduces_turn(x0.player, x0.enemy, our0, their0, their_ok, our_ok);
        }
        return turn;
    }
    assert(arranged(x3.steps, x3.queued, Source::Player, x3.player, x3.enemy) == x3);
    player.execute(&mut turn, Source::Player, &mut enemy, our_move, their_move);
    proof {
        lemma_replay_reproduces_turn(x0.player, x0.enemy, our0, their0, their_ok, our_ok);
    }

    // Done
    turn
}

/// Every fighter field that steps other than `SetCooldown` never change.
pub open spec fn keeps(a: FighterView, b: FighterView) -> bool {
    &&& a.max_health == b.max_health
    &&& a.max_energy == b.max_energy
    &&& a.recharge == b.recharge
    &&& a.special == b.special
    &&& a.cooldown == b.cooldown
}

/// Replaying the steps of `x` on `player` and `enemy` gives fighters that
/// agree with `x`'s on everything but the cooldowns, and keeps everything
/// but health and energy.
pub open spec fn replay_matches(x: Exchange, player: FighterView, enemy: FighterView) -> bool {
    let (p, e) = replayed(x.steps, player, enemy);
    &&& same_but_cooldown(p, x.player)
    &&& same_but_cooldown(e, x.enemy)
    &&& keeps(p, player)
    &&& keeps(e, enemy)
    &&& forall|i: int| 0 <= i < x.steps.len() ==> !(#[trigger] x.steps[i].1 is SetCooldown)
}

proof fn lemma_step_congruent(a: FighterView, b: FighterView, step: Step)
    requires
        same_but_cooldown(a, b),
        !(step is SetCooldown),
    ensures
        same_but_cooldown(crate::turn::step_applied(a, step), crate::turn::step_applied(b, step)),
        keeps(crate::turn::step_applied(a, step), a),
{
}

/// Recording a step together with its effect on the fighter keeps the replay
/// in step with the turn.
proof fn lemma_record(x: Exchange, player: FighterView, enemy: FighterView, s: Source, step: Step, f: FighterView)
    requires
        replay_matches(x, player, enemy),
        !(step is SetCooldown),
        same_but_cooldown(f, crate::turn::step_applied(side(x, s), step)),
    ensures
        replay_matches(with_side(record(x, s, step), s, f), player, enemy),
{
    let y = with_side(record(x, s, step), s, f);
    assert(y.steps.drop_last() =~= x.steps);
    let (p, e) = replayed(x.steps, player, enemy);
    match s {
        Source::Player => lemma_step_congruent(p, x.player, step),
        Source::Enemy => lemma_step_congruent(e, x.enemy, step),
    }
    assert forall|i: int| 0 <= i < y.steps.len() implies !(#[trigger] y.steps[i].1 is SetCooldown) by {
        if i < x.steps.len() {
            assert(y.steps[i] == x.steps[i]);
        }
    }
}

proof fn lemma_rolled(x: Exchange, player: FighterView, enemy: FighterView, source: Source, mv: Option<Move>, ok: bool)
    requires
        replay_matches(x, player, enemy),
    ensures
        replay_matches(rolled(x, source, mv, ok).0, player, enemy),
        rolled(x, source, mv, ok).0.steps.len() <= x.steps.len() + 1,
        rolled(x, source, mv, ok).0.queued == x.queued,
{
    let (f, m, st) = roll_outcome(side(x, source), mv, ok);
    match st {
        Some(step) => lemma_record(x, player, enemy, source, step, f),
        None => {
            assert(with_side(x, source, f) == x);
        },
    }
}

proof fn lemma_executed(x: Exchange, player: FighterView, enemy: FighterView, source: Source, mv: Option<Move>, their: Option<Move>)
    requires
        replay_matches(x, player, enemy),
    ensures
        replay_matches(executed(x, source, mv, their), player, enemy),
        executed(x, source, mv, their).steps.len() <= x.steps.len() + 4,
{
    match mv {
        None => {},
        Some(m) => {
            let me = side(x, source);
            let other = side(x, source.spec_other());
            if affords(me, m) {
                let x1 = with_side(record(x, source, Step::SpendEnergy(m)), source, drained(me, m));
                lemma_record(x, player, enemy, source, Step::SpendEnergy(m), drained(me, m));
                if their matches Some(t) && affords(other, t) && t.spec_blocks(m) {
                    lemma_record(x1, player, enemy, source, Step::AttackFailed(m), side(x1, source));
                    assert(with_side(record(x1, source, Step::AttackFailed(m)), source, side(x1, source))
                        == record(x1, source, Step::AttackFailed(m)));
                } else {
                    let x2 = if m.spec_damage() > 0 {
                        with_side(
                            record(x1, source.spec_other(), Step::TakeDamage(m)),
                            source.spec_other(),
                            damaged(other, m),
                        )
                    } else {
                        x1
                    };
                    if m.spec_damage() > 0 {
                        assert(side(x1, source.spec_other()) == other);
                        lemma_record(x1, player, enemy, source.spec_other(), Step::TakeDamage(m), damaged(other, m));
                    }
                    if m.spec_to_decision() == Decision::Special {
                        let us = side(x2, source);
                        let h = health_recharged(us, 1);
                        let xa = with_side(record(x2, source, Step::RechargeHealth(1)), source, h);
                        lemma_record(x2, player, enemy, source, Step::RechargeHealth(1), h);
                        let xb = with_side(record(xa, source, Step::RechargeEnergy(1)), source, energy_recharged(h, 1));
                        lemma_record(xa, player, enemy, source, Step::RechargeEnergy(1), energy_recharged(h, 1));
                        assert(us.special == Special::Heal);
                        assert(xb.steps =~= x2.steps + special_steps(us.special, source));
                    }
                }
            }
        },
    }
}

/// Playing back the steps of a turn on the fighters it was worked out for
/// reproduces the turn: the health and energy of both fighters come out as
/// the turn left them, and every other field (cooldowns included) stays as it
/// was; a turn records at most ten steps.
pub proof fn lemma_replay_reproduces_turn(
    player: FighterView,
    enemy: FighterView,
    our: Option<Move>,
    their: Option<Move>,
    their_ok: bool,
    our_ok: bool,
)
    ensures
        ({
            let x = exchange(player, enemy, our, their, their_ok, our_ok);
            let (p, e) = replayed(x.steps, player, enemy);
            &&& same_but_cooldown(p, x.player)
            &&& same_but_cooldown(e, x.enemy)
            &&& keeps(p, player)
            &&& keeps(e, enemy)
            &&& x.steps.len() <= 10
        }),
{
    let x0 = Exchange { steps: Seq::empty(), queued: Seq::empty(), player, enemy };
    assert(replay_matches(x0, player, enemy));
    let (x1, their1) = rolled(x0, Source::Enemy, their, their_ok);
    lemma_rolled(x0, player, enemy, Source::Enemy, their, their_ok);
    let (x2, our1) = rolled(x1, Source::Player, our, our_ok);
    lemma_rolled(x1, player, enemy, Source::Player, our, our_ok);
    let x3 = executed(x2, Source::Enemy, their1, our1);
    lemma_executed(x2, player, enemy, Source::Enemy, their1, our1);
    lemma_executed(x3, player, enemy, Source::Player, our1, their1);
}

/// Work out a turn and apply it to the fighters: the steps are replayed one
/// by one, then the cooldowns of the moves that were used are consumed.
pub fn apply_turn<R: Rng>(
    rng: &mut R,
    player: &mut Fighter,
    enemy: &mut Fighter,
    our_move: Option<&Move>,
    their_move: Option<&Move>,
)
    requires
        all_rollable(old(player).cooldown@),
        all_rollable(old(enemy).cooldown@),
    ensures
        exists|their_ok: bool, our_ok: bool|
            {
                let x = #[trigger] exchange(
                    old(player)@,
                    old(enemy)@,
                    opt_move(our_move),
                    opt_move(their_move),
                    their_ok,
                    our_ok,
                );
                &&& final(player)@ == settled(old(player)@, x.player, x.queued, Source::Player)
                &&& final(enemy)@ == settled(old(enemy)@, x.enemy, x.queued, Source::Enemy)
            },
{
    let ghost p0 = player@;
    let ghost e0 = enemy@;
    let mut turn = turn(rng, *player, *enemy, our_move, their_move);
    let ghost (their_ok, our_ok) = choose|their_ok: bool, our_ok: bool|
        {
            let x = #[trigger] exchange(p0, e0, opt_move(our_move), opt_move(their_move), their_ok, our_ok);
            &&& turn.steps() == x.steps
            &&& turn.queued() == x.queued
        };
    let ghost x = exchange(p0, e0, opt_move(our_move), opt_move(their_move), their_ok, our_ok);
    proof {
        lemma_replay_reproduces_turn(p0, e0, opt_move(our_move), opt_move(their_move), their_ok, our_ok);
    }
    loop
        invariant_except_break
            turn.cursor() <= x.steps.len(),
            (player@, enemy@) == replayed(x.steps.take(turn.cursor() as int), p0, e0),
        invariant
            turn.steps() == x.steps,
            turn.queued() == x.queued,
            x.steps.len() <= 10,
        ensures
            (player@, enemy@) == replayed(x.steps, p0, e0),
        decreases x.steps.len() - turn.cursor(),
    {
        let ghost c = turn.cursor();
        match turn.next_step() {
            Some(entry) => {
                let (source, step) = *entry;
                assert(x.steps.take(c + 1int).drop_last() =~= x.steps.take(c as int));
                match source {
                    Source::Player => step.apply(player),
                    Source::Enemy => step.apply(enemy),
                }
            },
            None => {
                assert(x.steps.take(c as int) =~= x.steps);
                break;
            },
        }
    }
    turn.apply_cooldown(player, enemy);
}

/// One draw of a random move for `f`, with the digit `roll`: a locked move
/// is drawn again; the first time a move on cooldown comes up (while
/// `reroll` holds) it is drawn again and the redraw is spent; an
/// affordable move is picked; anything else is drawn again.
pub open spec fn roll_pick(f: FighterView, roll: u8, reroll: bool) -> (Option<Move>, bool) {
    let mv = Move::of_digit(roll as int);
    match cooldown_of(f.cooldown, mv) {
        None => (None, reroll),
        Some(cd) => if !cd.spec_full() && reroll {
            (None, false)
        } else if affords(f, mv) {
            (Some(mv), reroll)
        } else {
            (None, reroll)
        },
    }
}

/// A block stops a fast attack: when the fighter on side `source` plays a
/// fast attack (Two, Three, Five or Seven) it can pay for, against a block
/// (Zero, Six or Eight) that the other fighter can pay for, it pays for the
/// attack, the attack is recorded as failed, and the other fighter is left
/// exactly as it was: it takes no damage.
pub proof fn lemma_block_stops_fast_attack(x: Exchange, source: Source, m: Move, t: Move)
    requires
        m.index() == 2 || m.index() == 3 || m.index() == 5 || m.index() == 7,
        t.index() == 0 || t.index() == 6 || t.index() == 8,
        side(x, source).energy >= m.index(),
        side(x, source.spec_other()).energy >= t.spec_damage(),
    ensures
        ({
            let y = executed(x, source, Some(m), Some(t));
            &&& side(y, source.spec_other()) == side(x, source.spec_other())
            &&& side(y, source).energy == side(x, source).energy - m.index()
            &&& side(y, source).health == side(x, source).health
            &&& y.steps == x.steps.push((source, Step::SpendEnergy(m))).push((source, Step::AttackFailed(m)))
        }),
{
}

/// What stops what, by digit: a block (Zero, Six, Eight) stops fast attacks
/// (Two, Three, Five, Seven) and blocks; a fast attack stops strong attacks
/// (Four, Nine) and the special (One); a strong attack stops blocks and the
/// special; the special stops blocks.
pub proof fn lemma_blocks_by_digit(a: Move, b: Move)
    ensures
        a.spec_blocks(b) <==> {
            let (i, j) = (a.index(), b.index());
            let block = |k: nat| k == 0 || k == 6 || k == 8;
            let fast = |k: nat| k == 2 || k == 3 || k == 5 || k == 7;
            let strong = |k: nat| k == 4 || k == 9;
            ||| block(i) && (fast(j) || block(j))
            ||| fast(i) && (strong(j) || j == 1)
            ||| strong(i) && (block(j) || j == 1)
            ||| i == 1 && block(j)
        },
{
}

/// Recharging adds the amount up to the maximum and never beyond it: the
/// energy (or health) becomes the smaller of the sum and the maximum, so a
/// fighter within its maximum stays within it, and nothing else changes.
pub proof fn lemma_recharge_capped(f: FighterView, amount: u16)
    ensures
        energy_recharged(f, amount).energy == (if f.energy + amount < f.max_energy {
            f.energy + amount
        } else {
            f.max_energy as int
        }),
        f.energy <= f.max_energy ==> f.energy <= energy_recharged(f, amount).energy <= f.max_energy,
        energy_recharged(f, amount) == (FighterView { energy: energy_recharged(f, amount).energy, ..f }),
        health_recharged(f, amount).health == (if f.health + amount < f.max_health {
            f.health + amount
        } else {
            f.max_health as int
        }),
        f.health <= f.max_health ==> f.health <= health_recharged(f, amount).health <= f.max_health,
        health_recharged(f, amount) == (FighterView { health: health_recharged(f, amount).health, ..f }),
{
}

/// Whether a first draw of the digit `roll` settles the random move of `f`
/// at once: the digit (below ten) names an unlocked move that has
/// recharged and that `f` can afford.
pub open spec fn first_draw_picks(f: FighterView, roll: u8) -> bool {
    let m = Move::of_digit(roll as int);
    &&& roll < 10
    &&& cooldown_of(f.cooldown, m) matches Some(cd)
    &&& cd.spec_full()
    &&& affords(f, m)
}

/// What one draw of a random move does, said of the digit drawn: it only
/// ever picks the move the digit names, and only one the fighter can pick;
/// an unlocked, recharged, affordable move is picked at once; a locked or
/// unaffordable one never is; and a move still on cooldown is passed over
/// the first time (spending the redraw) and picked the next time.
pub proof fn lemma_roll_pick(f: FighterView, roll: u8, reroll: bool)
    ensures
        roll_pick(f, roll, reroll).0 matches Some(m) ==> m == Move::of_digit(roll as int) && can_pick(f, m),
        ({
            let m = Move::of_digit(roll as int);
            &&& (cooldown_of(f.cooldown, m) matches Some(cd) && cd.spec_full() && affords(f, m))
                ==> roll_pick(f, roll, reroll) == (Some(m), reroll)
            &&& !can_pick(f, m) ==> roll_pick(f, roll, reroll).0 is None
            &&& (cooldown_of(f.cooldown, m) matches Some(cd) && !cd.spec_full() && affords(f, m))
                ==> roll_pick(f, roll, true) == (None::<Move>, false) && roll_pick(f, roll, false) == (
                Some(m),
                false,
            )
        }),
{
}

impl Fighter {
    /// Whether this fighter has a move it can pick: an unlocked move it can
    /// afford.
    pub fn has_choice(&self) -> (r: bool)
        ensures
            r == has_choice(self@),
    {
        let mut d: u8 = 0;
        while d < 10
            invariant
                d <= 10,
                forall|j: int| 0 <= j < d ==> !can_pick(self@, #[trigger] Move::of_digit(j)),
            decreases 10 - d,
        {
            let mv = Move::from(d);
            if self.cooldown.get(&mv).is_some() && self.check_energy_cost(&mv).is_some() {
                assert(can_pick(self@, Move::of_digit(d as int)));
                return true;
            }
            d += 1;
        }
        proof {
            if has_choice(self@) {
                let m = choose|m: Move| can_pick(self@, m);
                crate::action::lemma_digit_index(m);
                assert(!can_pick(self@, Move::of_digit(m.index() as int)));
            }
        }
        false
    }

    /// The first move (by digit) that this fighter can pick.
    fn first_pickable_move(&self) -> (mv: Move)
        requires
            has_choice(self@),
        ensures
            can_pick(self@, mv),
    {
        let mut d: u8 = 0;
        while d < 10
            invariant
                d <= 10,
                has_choice(self@),
                forall|j: int| 0 <= j < d ==> !can_pick(self@, #[trigger] Move::of_digit(j)),
            decreases 10 - d,
        {
            let mv = Move::from(d);
            if self.cooldown.get(&mv).is_some() && self.check_energy_cost(&mv).is_some() {
                return mv;
            }
            d += 1;
        }
        proof {
            let m = choose|m: Move| can_pick(self@, m);
            crate::action::lemma_digit_index(m);
            assert(!can_pick(self@, Move::of_digit(m.index() as int)));
        }
        Move::Zero
    }

    /// What one draw of `random_move` does with the digit `roll`, where
    /// `reroll` says whether the redraw for a move on cooldown is still to
    /// be had: the move picked (if any), and whether the redraw is still to
    /// be had for the next draw.
    pub fn pick_from_roll(&self, roll: u8, reroll: bool) -> (r: (Option<Move>, bool))
        ensures
            r == roll_pick(self@, roll, reroll),
    {
        let mv = Move::from(roll);
        if let Some(cooldown) = self.cooldown.get(&mv) {
            // balance the odds of selecting moves on cooldown
            if !cooldown.full() && reroll {
                return (None, false);
            }
            // if we can afford the move, select it
            if self.check_energy_cost(&mv).is_some() {
                return (Some(mv), reroll);
            }
        }
        (None, reroll)
    }

    /// Pick a random move this fighter can play: an unlocked move it can
    /// afford. The first roll of a move that has not fully recharged is
    /// rerolled once, to balance the odds of picking moves on cooldown.
    ///
    /// The rolls are capped so that the loop provably ends; if every one of
    /// them misses, the first pickable move by digit is taken.
    pub fn random_move<R: Rng>(&self, rng: &mut R) -> (mv: Move)
        requires
            has_choice(self@),
        ensures
            can_pick(self@, mv),
            first_draw_picks(self@, old(rng).peek()) ==> mv == Move::of_digit(old(rng).peek() as int),
    {
        let mut cooldown_reroll = true;
        let mut attempts: u32 = 0;
        loop
            invariant
                has_choice(self@),
                attempts == 0 ==> rng.peek() == old(rng).peek() && cooldown_reroll,
                attempts > 0 ==> !first_draw_picks(self@, old(rng).peek()),
            decreases u32::MAX - attempts,
        {
            let roll = rng.get_range(0..10);
            let (picked, reroll) = self.pick_from_roll(roll, cooldown_reroll);
            cooldown_reroll = reroll;
            if let Some(mv) = picked {
                return mv;
            }
            if attempts == u32::MAX {
                return self.first_pickable_move();
            }
            attempts += 1;
        }
    }
}

} // verus!

verus! {

/// How a round of a duel ended.
#[derive(Debug, Clone, Copy, PartialEq, Eq, Structural)]
pub enum RoundEnd {
    /// We have been defeated.
    Lost,
    /// They have been defeated.
    Won,
    /// Both stand: they have recharged for the next round.
    Continues,
}

/// A fighter after the rest between rounds: energy regained and every
/// cooldown one step further.
pub open spec fn recovered(f: FighterView) -> FighterView {
    FighterView { cooldown: increased(f.cooldown), ..energy_recharged(f, f.recharge) }
}

/// Close a round of a duel between `us` and `them`: we lose when we are
/// defeated (even if they are too), we win when they are, and otherwise
/// both recharge.
pub fn conclude_round(us: &mut Fighter, them: &mut Fighter) -> (r: RoundEnd)
    ensures
        r == (if old(us).health == 0 {
            RoundEnd::Lost
        } else if old(them).health == 0 {
            RoundEnd::Won
        } else {
            RoundEnd::Continues
        }),
        r == RoundEnd::Continues ==> final(us)@ == recovered(old(us)@) && final(them)@ == recovered(old(them)@),
        r != RoundEnd::Continues ==> *final(us) == *old(us) && *final(them) == *old(them),
{
    if us.defeated() {
        RoundEnd::Lost
    } else if them.defeated() {
        RoundEnd::Won
    } else {
        us.auto_recharge_energy();
        them.auto_recharge_energy();
        RoundEnd::Continues
    }
}

} // verus!
