use game_the_curse_of_the_headless_goose::action::Move;
use game_the_curse_of_the_headless_goose::cooldown::{decimal_string, Cooldown, CooldownSet};
use game_the_curse_of_the_headless_goose::fighter::{Fighter, Stats};
use game_the_curse_of_the_headless_goose::random::accept_roll;
use game_the_curse_of_the_headless_goose::timer::Timer;

fn fighter(abilities: u16) -> Fighter {
    Fighter::new(&Stats { health: 10, energy: 10, recharge: 1, cooldown: 2, abilities })
}

#[test]
fn accept_roll_keeps_draws_in_range() {
    assert_eq!(accept_roll(&(3..9), 3), Some(3));
    assert_eq!(accept_roll(&(3..9), 8), Some(8));
    assert_eq!(accept_roll(&(3..9), 9), None);
    assert_eq!(accept_roll(&(3..9), 2), None);
}

#[test]
fn pick_from_roll_follows_the_draw() {
    // Moves 0, 2 and 3 unlocked, all recharged.
    let mut f = fighter(0b1101);
    // A recharged, affordable move is picked; the redraw stays.
    assert_eq!(f.pick_from_roll(2, true), (Some(Move::Two), true));
    // The digit is taken modulo ten.
    assert_eq!(f.pick_from_roll(13, true), (Some(Move::Three), true));
    // A locked move is drawn again.
    assert_eq!(f.pick_from_roll(1, true), (None, true));
    // A move on cooldown is drawn again once, spending the redraw...
    f.cooldown.consume(&Move::Three);
    assert_eq!(f.pick_from_roll(3, true), (None, false));
    // ...and taken the next time.
    assert_eq!(f.pick_from_roll(3, false), (Some(Move::Three), false));
    // A move that costs more than the energy left is drawn again.
    f.energy = 2;
    assert_eq!(f.pick_from_roll(3, false), (None, false));
    assert_eq!(f.pick_from_roll(0, false), (Some(Move::Zero), false));
}

#[test]
fn has_choice_needs_an_affordable_unlocked_move() {
    let mut f = fighter(0b1000);
    assert!(f.has_choice());
    f.energy = 2;
    assert!(!f.has_choice());
    assert!(!fighter(0).has_choice());
}

#[test]
fn all_rollable_spots_empty_durations() {
    let mut set = CooldownSet::new(2, 0b11);
    assert!(set.all_rollable());
    set.values[0] = Some(Cooldown { value: 1, total: 0 });
    assert!(!set.all_rollable());
    set.values[0] = Some(Cooldown { value: 0, total: 0 });
    assert!(set.all_rollable());
}

#[test]
fn cooldowns_describe_themselves() {
    assert_eq!(decimal_string(0), "0");
    assert_eq!(decimal_string(42), "42");
    assert_eq!(decimal_string(255), "255");
    assert_eq!(Cooldown { value: 3, total: 10 }.describe(), "Cooldown { 3/10 }");
    let set = CooldownSet::new(2, 0b101);
    assert_eq!(
        set.describe(),
        "CooldownSet [ Cooldown { 2/2 }, -, Cooldown { 2/2 }, -, -, -, -, -, -, - ]"
    );
}

#[test]
fn cooldown_recharges_then_stays_full() {
    let mut cd = Cooldown::new(3);
    cd.consume();
    for _ in 0..3 {
        assert!(!cd.full());
        cd.increase();
    }
    assert!(cd.full());
    cd.increase();
    assert_eq!(cd, Cooldown { value: 3, total: 3 });
}

#[test]
fn timer_counts_ticks_and_keeps_its_delay() {
    let mut t = Timer::new(5);
    for k in 1..=7u8 {
        t.tick();
        assert_eq!(t.get(), k);
    }
    assert!(t.is_due());
    t.reset();
    t.set_due();
    // Due: the step fires and starts over.
    assert!(t.step());
    assert_eq!(t.get(), 0);
    assert!(!t.step());
    assert_eq!(t.get(), 1);
    assert_eq!(t.delay(), 5);
}
