use crate::action::Move;
use crate::cooldown::{consumed, Cooldown};
use crate::fighter::{Fighter, FighterView};
use arrayvec::ArrayVec;
use vstd::prelude::*;

verus! {

/// How many steps a turn can record; a turn never needs more than ten.
pub const MAX_STEPS: usize = 32;

/// `arrayvec::ArrayVec`, a vector of fixed capacity, known to Verus only by
/// what the functions below state of its contents.
#[verifier::external_type_specification]
#[verifier::external_body]
#[verifier::reject_recursive_types(T)]
pub struct ExArrayVec<T, const CAP: usize>(ArrayVec<T, CAP>);

/// The steps that an `ArrayVec` of turn steps holds, in order.
pub uninterp spec fn recorded(v: ArrayVec<(Source, Step), MAX_STEPS>) -> Seq<(Source, Step)>;

/// `ArrayVec::new`: the new vector holds nothing.
#[verifier::external_body]
fn steps_new() -> (v: ArrayVec<(Source, Step), MAX_STEPS>)
    ensures
        recorded(v) == Seq::<(Source, Step)>::empty(),
{
    ArrayVec::new()
}

/// `ArrayVec::try_push`: appends the item and succeeds when fewer than
/// `MAX_STEPS` items are held, else leaves the vector as it was and fails.
#[verifier::external_body]
fn steps_try_push(v: &mut ArrayVec<(Source, Step), MAX_STEPS>, item: (Source, Step)) -> (ok: bool)
    ensures
        ok == (recorded(*old(v)).len() < MAX_STEPS),
        ok ==> recorded(*final(v)) == recorded(*old(v)).push(item),
        !ok ==> recorded(*final(v)) == recorded(*old(v)),
{
    v.try_push(item).is_ok()
}

/// Slice indexing `get` through `ArrayVec`'s deref: the item at `idx`, if
/// there is one.
#[verifier::external_body]
fn steps_get(v: &ArrayVec<(Source, Step), MAX_STEPS>, idx: usize) -> (r: Option<&(Source, Step)>)
    ensures
        idx < recorded(*v).len() ==> r == Some(&recorded(*v)[idx as int]),
        idx >= recorded(*v).len() ==> r is None,
{
    v.get(idx)
}

/// Which fighter a step happens to.
#[derive(Debug, Clone, Copy, PartialEq, Eq, Structural)]
pub enum Source {
    Player,
    Enemy,
}

impl Source {
    pub open spec fn spec_other(self) -> Source {
        match self {
            Source::Player => Source::Enemy,
            Source::Enemy => Source::Player,
        }
    }

    pub fn other(&self) -> (s: Self)
        ensures
            s == self.spec_other(),
    {
        match self {
            Source::Player => Source::Enemy,
            Source::Enemy => Source::Player,
        }
    }
}

/// One observable event of a turn.
#[derive(Debug, Clone, Copy, PartialEq, Eq, Structural)]
pub enum Step {
    TakeDamage(Move),
    AttackFailed(Move),
    SpendEnergy(Move),
    SetCooldown(Move),
    RechargeHealth(u16),
    RechargeEnergy(u16),
    RollSuccess,
    RollFailed,
}

/// `f` after losing the damage of `mv`, not going below zero.
pub open spec fn damaged(f: FighterView, mv: Move) -> FighterView {
    FighterView {
        health: if f.health >= mv.spec_damage() {
            (f.health - mv.spec_damage()) as u16
        } else {
            0
        },
        ..f
    }
}

/// Whether `f` has the energy to pay for `mv`.
pub open spec fn affords(f: FighterView, mv: Move) -> bool {
    f.energy >= mv.spec_damage()
}

/// `f` after paying for `mv`, when it can afford it.
pub open spec fn drained(f: FighterView, mv: Move) -> FighterView {
    if affords(f, mv) {
        FighterView { energy: (f.energy - mv.spec_damage()) as u16, ..f }
    } else {
        f
    }
}

/// `a + b` capped at `max` (and at `u16::MAX`).
pub open spec fn capped_add(a: u16, b: u16, max: u16) -> u16 {
    let sum = if a + b > u16::MAX {
        u16::MAX as int
    } else {
        a + b
    };
    if sum < max {
        sum as u16
    } else {
        max
    }
}

pub open spec fn health_recharged(f: FighterView, amount: u16) -> FighterView {
    FighterView { health: capped_add(f.health, amount, f.max_health), ..f }
}

pub open spec fn energy_recharged(f: FighterView, amount: u16) -> FighterView {
    FighterView { energy: capped_add(f.energy, amount, f.max_energy), ..f }
}

/// What applying `step` does to the fighter it happens to.
pub open spec fn step_applied(f: FighterView, step: Step) -> FighterView {
    match step {
        Step::TakeDamage(mv) => damaged(f, mv),
        Step::AttackFailed(_) => f,
        Step::SpendEnergy(mv) => drained(f, mv),
        Step::SetCooldown(mv) => FighterView { cooldown: consumed(f.cooldown, mv), ..f },
        Step::RechargeHealth(amount) => health_recharged(f, amount),
        Step::RechargeEnergy(amount) => energy_recharged(f, amount),
        Step::RollSuccess => f,
        Step::RollFailed => f,
    }
}

impl Step {
    pub fn apply(&self, fighter: &mut Fighter)
        ensures
            final(fighter)@ == step_applied(old(fighter)@, *self),
    {
        match self {
            Step::TakeDamage(mv) => {
                fighter.apply_damage(mv);
            },
            Step::AttackFailed(_amount) => {},
            Step::SpendEnergy(mv) => {
                fighter.drain_energy(mv);
            },
            Step::SetCooldown(mv) => {
                fighter.cooldown.consume(mv);
            },
            Step::RechargeHealth(amount) => {
                fighter.recharge_health(*amount);
            },
            Step::RechargeEnergy(amount) => {
                fighter.recharge_energy(*amount);
            },
            Step::RollSuccess => {},
            Step::RollFailed => {},
        }
    }
}

/// The cooldowns of the fighter on side `side` after the queued cooldowns
/// were consumed, in order.
pub open spec fn cooldowns_after(
    queued: Seq<(Source, Move)>,
    side: Source,
    cds: Seq<Option<Cooldown>>,
) -> Seq<Option<Cooldown>>
    decreases queued.len(),
{
    if queued.len() == 0 {
        cds
    } else {
        let rest = cooldowns_after(queued.drop_last(), side, cds);
        if queued.last().0 == side {
            consumed(rest, queued.last().1)
        } else {
            rest
        }
    }
}

/// Consuming the queued cooldowns keeps every cooldown rollable and
/// unlocks or locks no move.
pub proof fn lemma_cooldowns_after_keeps(queued: Seq<(Source, Move)>, side: Source, cds: Seq<Option<Cooldown>>)
    requires
        cds.len() == 10,
    ensures
        cooldowns_after(queued, side, cds).len() == 10,
        crate::cooldown::all_rollable(cds) ==> crate::cooldown::all_rollable(
            cooldowns_after(queued, side, cds),
        ),
        forall|x: Move|
            crate::cooldown::unlocked(cooldowns_after(queued, side, cds), x)
                == crate::cooldown::unlocked(cds, x),
    decreases queued.len(),
{
    if queued.len() > 0 {
        let rest = cooldowns_after(queued.drop_last(), side, cds);
        lemma_cooldowns_after_keeps(queued.drop_last(), side, cds);
        crate::cooldown::lemma_consumed_keeps(rest, queued.last().1);
    }
}

/// The outcome of one exchange of moves: the steps to show and apply one at a
/// time, and the moves whose cooldowns are consumed once the turn is over.
pub struct Turn {
    array: ArrayVec<(Source, Step), MAX_STEPS>,
    current: usize,
    cooldowns: Vec<(Source, Move)>,
}

impl Turn {
    /// The recorded steps, in order.
    pub closed spec fn steps(&self) -> Seq<(Source, Step)> {
        recorded(self.array)
    }

    /// The index of the next step `next_step` hands out.
    pub closed spec fn cursor(&self) -> nat {
        self.current as nat
    }

    /// The moves whose cooldowns are consumed when the turn is over.
    pub closed spec fn queued(&self) -> Seq<(Source, Move)> {
        self.cooldowns@
    }

    pub fn new() -> (t: Self)
        ensures
            t.steps() == Seq::<(Source, Step)>::empty(),
            t.cursor() == 0,
            t.queued() == Seq::<(Source, Move)>::empty(),
    {
        Turn { array: steps_new(), current: 0, cooldowns: Vec::new() }
    }

    /// Record a step; once `MAX_STEPS` are held further steps are dropped.
    pub fn push(&mut self, source: Source, step: Step)
        ensures
            old(self).steps().len() < MAX_STEPS ==> final(self).steps() == old(self).steps().push(
                (source, step),
            ),
            old(self).steps().len() >= MAX_STEPS ==> final(self).steps() == old(self).steps(),
            final(self).cursor() == old(self).cursor(),
            final(self).queued() == old(self).queued(),
    {
        steps_try_push(&mut self.array, (source, step));
    }

    /// Hand out the step at the cursor (if any) and advance the cursor.
    pub fn next_step(&mut self) -> (r: Option<&(Source, Step)>)
        ensures
            old(self).cursor() < old(self).steps().len() ==> r == Some(
                &old(self).steps()[old(self).cursor() as int],
            ),
            old(self).cursor() >= old(self).steps().len() ==> r is None,
            final(self).cursor() == if old(self).cursor() < usize::MAX {
                old(self).cursor() + 1
            } else {
                old(self).cursor()
            },
            final(self).steps() == old(self).steps(),
            final(self).queued() == old(self).queued(),
    {
        let item = steps_get(&self.array, self.current);
        self.current = self.current.saturating_add(1);
        item
    }

    /// Remember that the cooldown of `mv` used by `source` is consumed when
    /// the turn is over.
    pub fn queue_cooldown(&mut self, source: Source, mv: Move)
        ensures
            final(self).steps() == old(self).steps(),
            final(self).cursor() == old(self).cursor(),
            final(self).queued() == old(self).queued().push((source, mv)),
    {
        self.cooldowns.push((source, mv));
    }

    /// Consume the cooldowns of the moves that were used in this turn.
    pub fn apply_cooldown(&self, player: &mut Fighter, enemy: &mut Fighter)
        ensures
            final(player)@ == (FighterView {
                cooldown: cooldowns_after(self.queued(), Source::Player, old(player)@.cooldown),
                ..old(player)@
            }),
            final(enemy)@ == (FighterView {
                cooldown: cooldowns_after(self.queued(), Source::Enemy, old(enemy)@.cooldown),
                ..old(enemy)@
            }),
    {
        let mut i: usize = 0;
        while i < self.cooldowns.len()
            invariant
                i <= self.cooldowns@.len(),
                player@ == (FighterView {
                    cooldown: cooldowns_after(
                        self.cooldowns@.take(i as int),
                        Source::Player,
                        old(player)@.cooldown,
                    ),
                    ..old(player)@
                }),
                enemy@ == (FighterView {
                    cooldown: cooldowns_after(
                        self.cooldowns@.take(i as int),
                        Source::Enemy,
                        old(enemy)@.cooldown,
                    ),
                    ..old(enemy)@
                }),
            decreases self.cooldowns@.len() - i,
        {
            let (source, mv) = self.cooldowns[i];
            assert(self.cooldowns@.take(i + 1).drop_last() =~= self.cooldowns@.take(i as int));
            match source {
                Source::Player => player.cooldown.consume(&mv),
                Source::Enemy => enemy.cooldown.consume(&mv),
            }
            i += 1;
        }
        assert(self.cooldowns@.take(self.cooldowns@.len() as int) =~= self.cooldowns@);
    }
}

} // verus!
