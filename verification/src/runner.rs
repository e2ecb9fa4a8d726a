use vstd::prelude::*;

verus! {

/// A recoverable failure: a strategy could not produce a value that meets its
/// constraints. The driver treats it as "discard this attempt and draw
/// again", never as a test failure.
#[derive(Clone, Copy, Debug)]
pub struct Reject {
    /// A human-readable reason for the rejection.
    pub reason: &'static str,
}

/// The increment of the splitmix64 state (the golden-ratio constant).
pub const SEED_INCREMENT: u64 = 0x9E3779B97F4A7C15;

/// The first multiplier of the splitmix64 output mix.
pub const MIX_MULTIPLIER_A: u64 = 0xBF58476D1CE4E5B9;

/// The second multiplier of the splitmix64 output mix.
pub const MIX_MULTIPLIER_B: u64 = 0x94D049BB133111EB;

/// The state reached from `s` after one splitmix64 step.
pub open spec fn next_state(s: u64) -> u64 {
    vstd::wrapping::u64_specs::wrapping_add(s, SEED_INCREMENT)
}

/// The word that the splitmix64 output mix derives from state `s`.
pub open spec fn mix(s: u64) -> u64 {
    let a = vstd::wrapping::u64_specs::wrapping_mul(s ^ (s >> 30u64), MIX_MULTIPLIER_A);
    let b = vstd::wrapping::u64_specs::wrapping_mul(a ^ (a >> 27u64), MIX_MULTIPLIER_B);
    b ^ (b >> 31u64)
}

/// The state a runner reaches from `s` after `n` draws.
pub open spec fn state_after(s: u64, n: nat) -> u64
    decreases n,
{
    if n == 0 {
        s
    } else {
        next_state(state_after(s, (n - 1) as nat))
    }
}

/// A replayable entropy source handed to strategies when they draw a value.
///
/// The sequence of words is a pure function of the seed, so running the same
/// strategies against a runner with the same seed reproduces the same values.
pub struct TestRunner {
    state: u64,
}

impl TestRunner {
    /// The current state of the entropy source.
    pub closed spec fn model(&self) -> u64 {
        self.state
    }

    /// A runner seeded with the given value.
    pub fn new(seed: u64) -> (r: TestRunner)
        ensures
            r.model() == seed,
    {
        TestRunner { state: seed }
    }

    /// A runner with a fixed seed, for reproducible runs.
    pub fn deterministic() -> (r: TestRunner)
        ensures
            r.model() == SEED_INCREMENT,
    {
        TestRunner { state: SEED_INCREMENT }
    }

    /// The current state of the entropy source, for replay and diagnostics.
    pub fn state(&self) -> (r: u64)
        ensures
            r == self.model(),
    {
        self.state
    }

    /// Draws the next raw word of entropy (one splitmix64 step).
    pub fn next_u64(&mut self) -> (r: u64)
        ensures
            final(self).model() == next_state(old(self).model()),
            r == mix(next_state(old(self).model())),
    {
        self.state = self.state.wrapping_add(SEED_INCREMENT);
        let z = self.state;
        let a = (z ^ (z >> 30u64)).wrapping_mul(MIX_MULTIPLIER_A);
        let b = (a ^ (a >> 27u64)).wrapping_mul(MIX_MULTIPLIER_B);
        b ^ (b >> 31u64)
    }
}

} // verus!
