//! The layout of the battle screen.
pub mod action;
pub mod stats;

use crate::cooldown::all_rollable;
use crate::gfx::battle::action::AbilityBox;
use crate::gfx::battle::stats::{StatsView, STATS_WIDTH};
use crate::gfx::{Point, CHAR_HEIGHT, HEIGHT, WIDTH};
use crate::machine::battle::Battle;
use crate::turn::{Source, Step};
use vstd::prelude::*;

verus! {

/// Where the player's stats go: near the bottom-left corner.
pub open spec fn player_stats_point() -> Point {
    Point { x: 10, y: (HEIGHT - 65) as i32 }
}

/// Where the enemy's stats go: at the top, flush right.
pub open spec fn enemy_stats_point() -> Point {
    Point { x: (WIDTH - STATS_WIDTH) as i32, y: 10 }
}

/// What to draw of a battle.
#[derive(Debug)]
pub struct BattleView {
    pub player: StatsView,
    /// The enemy's stats, with its chosen move.
    pub enemy: StatsView,
    /// Where the player's latest activity goes.
    pub player_activity_at: Point,
    /// Where the enemy's latest activity goes.
    pub enemy_activity_at: Point,
    /// The boxes of the player's unlocked moves, by digit.
    pub abilities: Vec<AbilityBox>,
    /// The step about to be played, shown in bold.
    pub upcoming: Option<(Source, Step)>,
    /// How the battle ended, shown in bold.
    pub outcome: Option<&'static str>,
}

/// Lay out `battle`: both fighters' stats (the enemy's with its move), the
/// boxes of the player's unlocked moves, the upcoming step and the outcome.
pub fn render(battle: &Battle) -> (v: BattleView)
    requires
        all_rollable(battle.player.cooldown@),
        all_rollable(battle.enemy.cooldown@),
    ensures
        v.player == stats::stats_view(player_stats_point(), battle.player, None),
        v.enemy == stats::stats_view(enemy_stats_point(), battle.enemy, Some(battle.their_move)),
        v.player_activity_at == (Point { x: (10 + STATS_WIDTH - 15) as i32, y: (HEIGHT - 65 + 10) as i32 }),
        v.enemy_activity_at == (Point { x: 50, y: 15 }),
        v.abilities@.len() <= 10,
        forall|i: int| 0 <= i < v.abilities@.len() ==> {
            let b = #[trigger] v.abilities@[i];
            &&& battle.player.cooldown@[b.num as int] matches Some(cd)
            &&& b == action::ability_box(b.num as int, cd)
        },
        forall|i: int, j: int| 0 <= i < j < v.abilities@.len() ==> v.abilities@[i].num < v.abilities@[j].num,
        forall|n: int| 0 <= n < 10 && (#[trigger] battle.player.cooldown@[n]) is Some ==> exists|i: int|
            0 <= i < v.abilities@.len() && v.abilities@[i].num == n,
        v.upcoming == battle.upcoming_step,
        match battle.outcome {
            Some(o) => v.outcome matches Some(m) && m@ == o.spec_message(),
            None => v.outcome is None,
        },
{
    let player = stats::render(Point { x: 10, y: 415 }, &battle.player, None);
    let enemy = stats::render(Point { x: 180, y: 10 }, &battle.enemy, Some(battle.their_move));
    let cds = battle.player.cooldown.iter();
    let mut abilities: Vec<AbilityBox> = Vec::new();
    let mut num: usize = 0;
    while num < cds.len()
        invariant
            cds@ == battle.player.cooldown@,
            cds@.len() == 10,
            all_rollable(battle.player.cooldown@),
            num <= 10,
            abilities@.len() <= num,
            forall|i: int| 0 <= i < abilities@.len() ==> {
                let b = #[trigger] abilities@[i];
                &&& b.num < num
                &&& battle.player.cooldown@[b.num as int] matches Some(cd)
                &&& b == action::ability_box(b.num as int, cd)
            },
            forall|i: int, j: int| 0 <= i < j < abilities@.len() ==> abilities@[i].num < abilities@[j].num,
            forall|n: int| 0 <= n < num && (#[trigger] battle.player.cooldown@[n]) is Some ==> exists|i: int|
                0 <= i < abilities@.len() && abilities@[i].num == n,
        decreases 10 - num,
    {
        let ghost before = abilities@;
        if let Some(cd) = &cds[num] {
            assert(cd.rollable());
            let b = action::render(num, cd);
            abilities.push(b);
            assert(abilities@[abilities@.len() - 1].num == num);
        }
        proof {
            assert forall|n: int|
                0 <= n < num + 1 && (#[trigger] battle.player.cooldown@[n]) is Some implies exists|i: int|
                0 <= i < abilities@.len() && abilities@[i].num == n by {
                if n < num {
                    let i = choose|i: int| 0 <= i < before.len() && before[i].num == n;
                    assert(abilities@[i] == before[i]);
                } else {
                    assert(abilities@[abilities@.len() - 1].num == n);
                }
            }
        }
        num = num + 1;
    }
    let outcome = match &battle.outcome {
        Some(o) => Some(o.message()),
        None => None,
    };
    BattleView {
        player,
        enemy,
        player_activity_at: Point { x: 135, y: 425 },
        enemy_activity_at: Point { x: 50, y: 15 },
        abilities,
        upcoming: battle.upcoming_step,
        outcome,
    }
}

} // verus!
