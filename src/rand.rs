use vstd::prelude::*;

verus! {

/// A source of bounded random integers.
pub trait Rand {
    /// Draws an integer in `[0, upper_bound)`.
    fn below(&mut self, upper_bound: u64) -> (r: u64)
        requires
            upper_bound > 0,
        ensures
            r < upper_bound,
    ;
}

/// Increment added to the state on every draw.
pub const GAMMA: u64 = 0x9e37_79b9_7f4a_7c15;

/// The splitmix64 generator.
pub struct StdRand {
    state: u64,
}

impl StdRand {
    pub closed spec fn state(&self) -> u64 {
        self.state
    }

    pub fn new(seed: u64) -> (r: StdRand)
        ensures
            r.state() == seed,
    {
        StdRand { state: seed }
    }

    /// Advances the state by `GAMMA` and returns the mixed new state.
    pub fn next_u64(&mut self) -> (r: u64)
        ensures
            final(self).state() == old(self).state().wrapping_add(GAMMA),
    {
        self.state = self.state.wrapping_add(GAMMA);
        let mut z: u64 = self.state;
        z = (z ^ (z >> 30u64)).wrapping_mul(0xbf58_476d_1ce4_e5b9);
        z = (z ^ (z >> 27u64)).wrapping_mul(0x94d0_49bb_1331_11eb);
        z ^ (z >> 31u64)
    }
}

impl Rand for StdRand {
    fn below(&mut self, upper_bound: u64) -> (r: u64)
        ensures
            final(self).state() == old(self).state().wrapping_add(GAMMA),
    {
        self.next_u64() % upper_bound
    }
}

} // verus!
