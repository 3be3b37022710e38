use vstd::prelude::*;

verus! {

/// A source of random bytes.
pub trait Rng {
    /// The byte the next draw gives (what it is, the generator's state
    /// decides).
    spec fn peek(&self) -> u8;

    /// Draw one random byte: the one the generator's state holds next.
    fn get(&mut self) -> (b: u8)
        ensures
            b == old(self).peek(),
    ;

    /// Draw a random byte from `range` by rejection sampling.
    ///
    /// Draws are repeated until one falls into the range. So that the loop
    /// provably ends, the number of draws is capped; should every one of them
    /// miss, the last draw is folded into the range.
    fn get_range(&mut self, range: core::ops::Range<u8>) -> (r: u8)
        requires
            range.start < range.end,
        ensures
            range.start <= r < range.end,
            range.start <= old(self).peek() < range.end ==> r == old(self).peek(),
    {
        let mut attempts: u32 = 0;
        loop
            invariant
                range.start < range.end,
                attempts == 0 ==> self.peek() == old(self).peek(),
                attempts > 0 ==> !(range.start <= old(self).peek() < range.end),
            decreases u32::MAX - attempts,
        {
            let roll = self.get();
            if let Some(r) = accept_roll(&range, roll) {
                return r;
            }
            if attempts == u32::MAX {
                return range.start + roll % (range.end - range.start);
            }
            attempts = attempts + 1;
        }
    }
}

/// What one draw of `get_range` gives: the draw itself when it lands in
/// `range`, else nothing (another draw is needed).
pub fn accept_roll(range: &core::ops::Range<u8>, roll: u8) -> (r: Option<u8>)
    ensures
        r == (if range.start <= roll < range.end {
            Some(roll)
        } else {
            None::<u8>
        }),
{
    if range.start <= roll && roll < range.end {
        Some(roll)
    } else {
        None
    }
}

/// A source of random 64-bit words, such as a hardware random number
/// generator.
pub trait EntropySource {
    /// The next word; any value may come back.
    fn next_u64(&mut self) -> u64;
}

/// What Ascon's permutation with six rounds makes of the five words of the
/// state.
pub uninterp spec fn ascon_p6(words: Seq<u64>) -> Seq<u64>;

/// `ascon::State::permute_6`, on the state with the five words `words`:
/// gives the five words of the permuted state.
#[verifier::external_body]
fn ascon_permute_6(words: [u64; 5]) -> (r: [u64; 5])
    ensures
        r@ == ascon_p6(words@),
{
    let mut state = ascon::State::new(words[0], words[1], words[2], words[3], words[4]);
    state.permute_6();
    [state[0], state[1], state[2], state[3], state[4]]
}

/// A random number generator that mixes words from an entropy source into an
/// Ascon sponge.
pub struct Random<R: EntropySource> {
    ascon: [u64; 5],
    hwrng: R,
}

impl<R: EntropySource> Random<R> {
    /// The five words of the sponge.
    pub closed spec fn state(&self) -> Seq<u64> {
        self.ascon@
    }

    /// The sponge after absorbing the word `input`: it is XORed into the
    /// first word, then the state is permuted.
    pub open spec fn absorbed(state: Seq<u64>, input: u64) -> Seq<u64> {
        ascon_p6(state.update(0, state[0] ^ input))
    }

    /// The sponge's starting state: five zero words.
    pub open spec fn zero_state() -> Seq<u64> {
        Seq::new(5, |i: int| 0u64)
    }

    /// Start from the all-zero state and absorb one word from `hwrng`.
    pub fn new(hwrng: R) -> (r: Self)
        ensures
            exists|input: u64| r.state() == #[trigger] Self::absorbed(Self::zero_state(), input),
    {
        let ascon: [u64; 5] = [0; 5];
        let mut random = Random { ascon, hwrng };
        assert(random.ascon@ =~= Self::zero_state());
        random.absorb();
        random
    }

    /// Absorb one word from the entropy source.
    pub fn absorb(&mut self)
        ensures
            exists|input: u64| final(self).state() == #[trigger] Self::absorbed(old(self).state(), input),
    {
        let input = self.hwrng.next_u64();
        let mut words = self.ascon;
        words[0] = words[0] ^ input;
        assert(words@ =~= old(self).ascon@.update(0, old(self).ascon@[0] ^ input));
        self.ascon = ascon_permute_6(words);
        assert(self.state() == Self::absorbed(old(self).state(), input));
    }

    /// Hand out the first word of the sponge, then absorb a fresh word.
    pub fn squeeze(&mut self) -> (num: u64)
        ensures
            num == old(self).state()[0],
            exists|input: u64| final(self).state() == #[trigger] Self::absorbed(old(self).state(), input),
    {
        let num = self.ascon[0];
        self.absorb();
        num
    }
}

impl<R: EntropySource> Rng for Random<R> {
    /// The low byte of the first word of the sponge.
    open spec fn peek(&self) -> u8 {
        self.state()[0] as u8
    }

    /// The low byte of a squeezed word.
    fn get(&mut self) -> (b: u8)
        ensures
            b == old(self).state()[0] as u8,
    {
        self.squeeze() as u8
    }
}

/// What `fastrand`'s generator draws as a full-range byte from the state
/// `seed`, and its state afterwards.
pub uninterp spec fn fastrand_u8_step(seed: u64) -> (u8, u64);

/// `fastrand::Rng::new` (a generator forked from the thread's generator),
/// given by its state (`Rng::get_seed`): a random seed.
#[verifier::external_body]
fn fastrand_seed() -> u64 {
    fastrand::Rng::new().get_seed()
}

/// `fastrand::Rng::u8(..)` on the generator with state `seed`
/// (`Rng::with_seed`), with the generator's state afterwards
/// (`Rng::get_seed`).
#[verifier::external_body]
fn fastrand_u8(seed: u64) -> (r: (u8, u64))
    ensures
        r == fastrand_u8_step(seed),
{
    let mut rng = fastrand::Rng::with_seed(seed);
    let value = rng.u8(..);
    (value, rng.get_seed())
}

/// A random number generator for hosted builds, backed by `fastrand`.
pub struct FastRandom {
    seed: u64,
}

impl FastRandom {
    /// The state of the generator.
    pub closed spec fn state(&self) -> u64 {
        self.seed
    }

    /// A generator seeded from the thread's generator.
    pub fn new() -> Self {
        Self { seed: fastrand_seed() }
    }
}

impl Rng for FastRandom {
    /// The byte `fastrand` draws next from the generator's state.
    open spec fn peek(&self) -> u8 {
        fastrand_u8_step(self.state()).0
    }

    fn get(&mut self) -> (b: u8)
        ensures
            (b, final(self).state()) == fastrand_u8_step(old(self).state()),
    {
        let (value, seed) = fastrand_u8(self.seed);
        self.seed = seed;
        value
    }
}

} // verus!
