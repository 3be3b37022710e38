use game_the_curse_of_the_headless_goose::action::Move;
use game_the_curse_of_the_headless_goose::cooldown::{Cooldown, CooldownSet};
use game_the_curse_of_the_headless_goose::fighter::{apply_turn, Fighter, Stats};
use game_the_curse_of_the_headless_goose::random::FastRandom;
use game_the_curse_of_the_headless_goose::specials::Special;

const ALL_ABILITIES: u16 = 0b1111111111;

fn fighter_template() -> Fighter {
    Fighter::new(&Stats {
        health: 10,
        energy: 10,
        recharge: 1,
        cooldown: 1,
        abilities: ALL_ABILITIES,
    })
}

#[test]
fn test_abilities_5() {
    let fighter = Fighter::new(&Stats {
        health: 10,
        energy: 10,
        recharge: 1,
        cooldown: 1,
        abilities: 0b11111,
    });

    assert_eq!(
        fighter.cooldown,
        CooldownSet::from([
            Some(Cooldown::new(1)),
            Some(Cooldown::new(1)),
            Some(Cooldown::new(1)),
            Some(Cooldown::new(1)),
            Some(Cooldown::new(1)),
            None,
            None,
            None,
            None,
            None,
        ])
    );
}

#[test]
fn test_abilities_all() {
    let fighter = Fighter::new(&Stats {
        health: 10,
        energy: 10,
        recharge: 1,
        cooldown: 1,
        abilities: 0b1111111111,
    });

    assert_eq!(
        fighter.cooldown,
        CooldownSet::from([Some(Cooldown::new(1)); 10])
    );
}

#[test]
fn test_abilities_none() {
    let fighter = Fighter::new(&Stats {
        health: 10,
        energy: 10,
        recharge: 1,
        cooldown: 1,
        abilities: 0b0,
    });

    assert_eq!(fighter.cooldown, CooldownSet::from([None; 10]));
}

#[test]
fn test_abilities_block_only() {
    let fighter = Fighter::new(&Stats {
        health: 10,
        energy: 10,
        recharge: 1,
        cooldown: 1,
        abilities: 0b101000001,
    });

    assert_eq!(
        fighter.cooldown,
        CooldownSet::from([
            Some(Cooldown::new(1)),
            None,
            None,
            None,
            None,
            None,
            Some(Cooldown::new(1)),
            None,
            Some(Cooldown::new(1)),
            None,
        ])
    );
}

#[test]
fn test_fighter_both_fast() {
    let mut fighter = fighter_template();
    let mut other = fighter_template();
    let mut rng = FastRandom::new();
    apply_turn(
        &mut rng,
        &mut fighter,
        &mut other,
        Some(&Move::Three),
        Some(&Move::Two),
    );

    assert_eq!(
        fighter,
        Fighter {
            health: 8,
            max_health: 10,
            energy: 7,
            max_energy: 10,
            recharge: 1,
            special: Special::Heal,
            cooldown: CooldownSet::new(1, ALL_ABILITIES).and_consumed(&Move::Three),
        }
    );
    assert_eq!(
        other,
        Fighter {
            health: 7,
            max_health: 10,
            energy: 8,
            max_energy: 10,
            recharge: 1,
            special: Special::Heal,
            cooldown: CooldownSet::new(1, ALL_ABILITIES).and_consumed(&Move::Two),
        }
    );
}

#[test]
fn test_fighter_fast_against_block() {
    let mut fighter = fighter_template();
    let mut other = fighter_template();
    let mut rng = FastRandom::new();
    apply_turn(
        &mut rng,
        &mut fighter,
        &mut other,
        Some(&Move::Three),
        Some(&Move::Six),
    );

    assert_eq!(
        fighter,
        Fighter {
            health: 4,
            max_health: 10,
            energy: 7,
            max_energy: 10,
            recharge: 1,
            special: Special::Heal,
            cooldown: CooldownSet::new(1, ALL_ABILITIES).and_consumed(&Move::Three),
        }
    );
    assert_eq!(
        other,
        Fighter {
            health: 7,
            max_health: 10,
            energy: 4,
            max_energy: 10,
            recharge: 1,
            special: Special::Heal,
            cooldown: CooldownSet::new(1, ALL_ABILITIES).and_consumed(&Move::Six),
        }
    );
}

#[test]
fn test_fighter_fast_against_strong() {
    let mut fighter = fighter_template();
    let mut other = fighter_template();
    let mut rng = FastRandom::new();
    apply_turn(
        &mut rng,
        &mut fighter,
        &mut other,
        Some(&Move::Three),
        Some(&Move::Nine),
    );

    assert_eq!(
        fighter,
        Fighter {
            health: 10,
            max_health: 10,
            energy: 7,
            max_energy: 10,
            recharge: 1,
            special: Special::Heal,
            cooldown: CooldownSet::new(1, ALL_ABILITIES).and_consumed(&Move::Three),
        }
    );
    assert_eq!(
        other,
        Fighter {
            health: 7,
            max_health: 10,
            energy: 1,
            max_energy: 10,
            recharge: 1,
            special: Special::Heal,
            cooldown: CooldownSet::new(1, ALL_ABILITIES).and_consumed(&Move::Nine),
        }
    );
}

#[test]
fn test_fighter_both_strong() {
    let mut fighter = fighter_template();
    let mut other = fighter_template();
    let mut rng = FastRandom::new();
    apply_turn(
        &mut rng,
        &mut fighter,
        &mut other,
        Some(&Move::Nine),
        Some(&Move::Four),
    );

    assert_eq!(
        fighter,
        Fighter {
            health: 6,
            max_health: 10,
            energy: 1,
            max_energy: 10,
            recharge: 1,
            special: Special::Heal,
            cooldown: CooldownSet::new(1, ALL_ABILITIES).and_consumed(&Move::Nine),
        }
    );
    assert_eq!(
        other,
        Fighter {
            health: 1,
            max_health: 10,
            energy: 6,
            max_energy: 10,
            recharge: 1,
            special: Special::Heal,
            cooldown: CooldownSet::new(1, ALL_ABILITIES).and_consumed(&Move::Four),
        }
    );
}

#[test]
fn test_fighter_strong_against_block() {
    let mut fighter = fighter_template();
    let mut other = fighter_template();
    let mut rng = FastRandom::new();
    apply_turn(
        &mut rng,
        &mut fighter,
        &mut other,
        Some(&Move::Nine),
        Some(&Move::Six),
    );

    assert_eq!(
        fighter,
        Fighter {
            health: 10,
            max_health: 10,
            energy: 1,
            max_energy: 10,
            recharge: 1,
            special: Special::Heal,
            cooldown: CooldownSet::new(1, ALL_ABILITIES).and_consumed(&Move::Nine),
        }
    );
    assert_eq!(
        other,
        Fighter {
            health: 1,
            max_health: 10,
            energy: 4,
            max_energy: 10,
            recharge: 1,
            special: Special::Heal,
            cooldown: CooldownSet::new(1, ALL_ABILITIES).and_consumed(&Move::Six),
        }
    );
}

#[test]
fn test_fighter_strong_against_fast() {
    let mut fighter = fighter_template();
    let mut other = fighter_template();
    let mut rng = FastRandom::new();
    apply_turn(
        &mut rng,
        &mut fighter,
        &mut other,
        Some(&Move::Nine),
        Some(&Move::Three),
    );

    assert_eq!(
        fighter,
        Fighter {
            health: 7,
            max_health: 10,
            energy: 1,
            max_energy: 10,
            recharge: 1,
            special: Special::Heal,
            cooldown: CooldownSet::new(1, ALL_ABILITIES).and_consumed(&Move::Nine),
        }
    );
    assert_eq!(
        other,
        Fighter {
            health: 10,
            max_health: 10,
            energy: 7,
            max_energy: 10,
            recharge: 1,
            special: Special::Heal,
            cooldown: CooldownSet::new(1, ALL_ABILITIES).and_consumed(&Move::Three),
        }
    );
}

#[test]
fn test_fighter_special_heal_against_block() {
    let mut fighter = fighter_template();
    fighter.health = 5;
    fighter.energy = 5;
    let mut other = fighter_template();
    let mut rng = FastRandom::new();
    apply_turn(
        &mut rng,
        &mut fighter,
        &mut other,
        Some(&Move::One),
        Some(&Move::Six),
    );
    assert_eq!(
        fighter,
        Fighter {
            health: 6,
            max_health: 10,
            energy: 6,
            max_energy: 10,
            recharge: 1,
            special: Special::Heal,
            cooldown: CooldownSet::new(1, ALL_ABILITIES).and_consumed(&Move::One),
        }
    );
    assert_eq!(
        other,
        Fighter {
            health: 10,
            max_health: 10,
            energy: 4,
            max_energy: 10,
            recharge: 1,
            special: Special::Heal,
            cooldown: CooldownSet::new(1, ALL_ABILITIES).and_consumed(&Move::Six),
        }
    );
}

#[test]
fn test_fighter_special_heal_against_fast() {
    let mut fighter = fighter_template();
    fighter.health = 5;
    fighter.energy = 5;
    let mut other = fighter_template();
    let mut rng = FastRandom::new();
    apply_turn(
        &mut rng,
        &mut fighter,
        &mut other,
        Some(&Move::One),
        Some(&Move::Three),
    );
    assert_eq!(
        fighter,
        Fighter {
            health: 2,
            max_health: 10,
            energy: 5,
            max_energy: 10,
            recharge: 1,
            special: Special::Heal,
            cooldown: CooldownSet::new(1, ALL_ABILITIES).and_consumed(&Move::One),
        }
    );
    assert_eq!(
        other,
        Fighter {
            health: 10,
            max_health: 10,
            energy: 7,
            max_energy: 10,
            recharge: 1,
            special: Special::Heal,
            cooldown: CooldownSet::new(1, ALL_ABILITIES).and_consumed(&Move::Three),
        }
    );
}

#[test]
fn test_fighter_cooldown_fail_cant_block() {
    let mut fighter = fighter_template();
    let mut other = fighter_template();

    let cd = other.cooldown.get_mut(&Move::Six).unwrap();
    cd.value = 0;
    cd.total = u8::MAX;
    let cd = other.cooldown.clone();

    let mut rng = FastRandom::new();
    apply_turn(
        &mut rng,
        &mut fighter,
        &mut other,
        Some(&Move::Three),
        Some(&Move::Six),
    );

    assert_eq!(
        fighter,
        Fighter {
            health: 10,
            max_health: 10,
            energy: 7,
            max_energy: 10,
            recharge: 1,
            special: Special::Heal,
            cooldown: CooldownSet::new(1, ALL_ABILITIES).and_consumed(&Move::Three),
        }
    );
    assert_eq!(
        other,
        Fighter {
            health: 7,
            max_health: 10,
            energy: 10,
            max_energy: 10,
            recharge: 1,
            special: Special::Heal,
            cooldown: cd.and_consumed(&Move::Six),
        }
    );
}
