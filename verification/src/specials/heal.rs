use crate::fighter::Fighter;
use crate::specials::SpecialAbility;
use crate::specials::{special_applied, special_steps, Special};
use crate::turn::{Source, Step, Turn};
use vstd::prelude::*;

verus! {

/// Restores one point of health and one of energy.
pub struct Heal;

impl SpecialAbility for Heal {
    fn apply(turn: &mut Turn, source: Source, us: &mut Fighter)
        ensures
            final(turn).steps() == old(turn).steps() + special_steps(Special::Heal, source),
            final(turn).cursor() == old(turn).cursor(),
            final(turn).queued() == old(turn).queued(),
            final(us)@ == special_applied(Special::Heal, old(us)@),
    {
        turn.push(source, Step::RechargeHealth(1));
        us.recharge_health(1);
        turn.push(source, Step::RechargeEnergy(1));
        us.recharge_energy(1);
        assert(turn.steps() =~= old(turn).steps() + special_steps(Special::Heal, source));
    }
}

} // verus!
