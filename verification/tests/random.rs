use game_the_curse_of_the_headless_goose::random::{EntropySource, FastRandom, Random, Rng};

/// An entropy source that always gives the same word.
struct Constant(u64);

impl EntropySource for Constant {
    fn next_u64(&mut self) -> u64 {
        self.0
    }
}

#[test]
fn random_squeezes_the_permuted_sponge() {
    let mut rng = Random::new(Constant(0));
    // Absorbing zero into the zero state, then permuting.
    let mut state = ascon::State::new(0, 0, 0, 0, 0);
    state.permute_6();
    let first = state[0];
    assert_eq!(rng.squeeze(), first);
    // The next squeeze absorbs another zero word first.
    let mut state2 = ascon::State::new(first, state[1], state[2], state[3], state[4]);
    state2.permute_6();
    assert_eq!(rng.get(), state2[0] as u8);
}

#[test]
fn random_mixes_in_the_entropy() {
    let mut a = Random::new(Constant(1));
    let mut b = Random::new(Constant(2));
    assert_ne!(a.squeeze(), b.squeeze());
}

#[test]
fn get_range_stays_in_range() {
    let mut rng = Random::new(Constant(7));
    for _ in 0..1000 {
        let v = rng.get_range(3..9);
        assert!((3..9).contains(&v));
    }
    let mut fast = FastRandom::new();
    for _ in 0..1000 {
        let v = fast.get_range(0..10);
        assert!(v < 10);
    }
}

#[test]
fn fast_random_varies() {
    let mut fast = FastRandom::new();
    let draws: Vec<u8> = (0..64).map(|_| fast.get()).collect();
    assert!(draws.iter().any(|&d| d != draws[0]));
}
