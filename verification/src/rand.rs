use vstd::prelude::*;

verus! {

/// One round of the xorshift generator on a 64-bit state.
pub open spec fn xorshift_spec(x: u64) -> u64 {
    let a = x ^ (x << 13);
    let b = a ^ (a >> 7);
    b ^ (b << 17)
}

/// A small pseudo-random generator for gameplay use; not a source of
/// secrets.
pub struct RandState {
    /// The generator state; any value works as a seed.
    pub state: u64,
}

impl RandState {
    /// Creates a generator from a seed.
    pub fn new(seed: u64) -> (r: RandState)
        ensures
            r.state == seed,
    {
        RandState { state: seed }
    }

    /// Draws the next value: one xorshift round, returned and kept as the
    /// new state.
    pub fn rand(&mut self) -> (r: u64)
        ensures
            final(self).state == xorshift_spec(old(self).state),
            r == final(self).state,
    {
        self.state = self.state ^ (self.state << 13);
        self.state = self.state ^ (self.state >> 7);
        self.state = self.state ^ (self.state << 17);
        self.state
    }

    /// Draws a value in `[min, max)`.
    pub fn rand_range(&mut self, min: u64, max: u64) -> (r: u64)
        requires
            min < max,
        ensures
            final(self).state == xorshift_spec(old(self).state),
            r == xorshift_spec(old(self).state) as int % (max - min) + min,
            min <= r < max,
    {
        self.rand() % (max - min) + min
    }

    /// Draws one byte.
    pub fn rand_byte(&mut self) -> (r: u8)
        ensures
            final(self).state == xorshift_spec(old(self).state),
            r == xorshift_spec(old(self).state) as u8,
    {
        #[verifier::truncate]
        (self.rand() as u8)
    }
}

} // verus!
