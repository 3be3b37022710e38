pub mod heal;

use crate::fighter::{Fighter, FighterView};
use crate::specials::heal::Heal;
use crate::turn::{energy_recharged, health_recharged, Source, Step, Turn, MAX_STEPS};
use vstd::prelude::*;

verus! {

trait SpecialAbility {
    fn apply(turn: &mut Turn, source: Source, us: &mut Fighter)
        requires
            old(turn).steps().len() + 2 <= MAX_STEPS,
    ;
}

/// The special ability a fighter uses with the Special move.
#[derive(Debug, PartialEq, Eq, Clone, Copy, Structural)]
pub enum Special {
    Heal,
}

/// The steps a special records for the fighter on side `source`.
pub open spec fn special_steps(special: Special, source: Source) -> Seq<(Source, Step)> {
    match special {
        Special::Heal => seq![(source, Step::RechargeHealth(1)), (source, Step::RechargeEnergy(1))],
    }
}

/// What a special does to the fighter using it.
pub open spec fn special_applied(special: Special, us: FighterView) -> FighterView {
    match special {
        Special::Heal => energy_recharged(health_recharged(us, 1), 1),
    }
}

impl Special {
    pub fn apply(&self, turn: &mut Turn, source: Source, us: &mut Fighter)
        requires
            old(turn).steps().len() + 2 <= MAX_STEPS,
        ensures
            final(turn).steps() == old(turn).steps() + special_steps(*self, source),
            final(turn).cursor() == old(turn).cursor(),
            final(turn).queued() == old(turn).queued(),
            final(us)@ == special_applied(*self, old(us)@),
    {
        match self {
            Special::Heal => Heal::apply(turn, source, us),
        }
    }
}

} // verus!
