use vstd::prelude::*;

verus! {

/// Multiplier of the linear congruential step (Knuth's MMIX parameters).
pub const STEP_MUL: u64 = 6364136223846793005;

/// Increment of the linear congruential step.
pub const STEP_INC: u64 = 1442695040888963407;

/// One step of the linear congruential recurrence on the source state.
pub open spec fn next_state(s: u64) -> u64 {
    vstd::wrapping::u64_specs::wrapping_add(
        vstd::wrapping::u64_specs::wrapping_mul(s, STEP_MUL),
        STEP_INC,
    )
}

/// The state after `k` steps of the recurrence from `s`.
pub open spec fn state_after(s: u64, k: nat) -> u64
    decreases k,
{
    if k == 0 {
        s
    } else {
        next_state(state_after(s, (k - 1) as nat))
    }
}

/// The index in `[0, n)` read off a source state: the high bits of the
/// state, reduced modulo `n`.
pub open spec fn index_from_state(s: u64, n: int) -> int {
    ((s >> 33) as int) % n
}

/// The index in `[0, n)` that one call of [`SeededRng::next_index`] returns
/// when the source stands at state `s` before the call.
pub open spec fn spec_draw(s: u64, n: int) -> int {
    index_from_state(next_state(s), n)
}

/// An explicitly seeded pseudo-random source: a 64-bit linear congruential
/// generator. Every draw is a pure function of the current state, so a fixed
/// seed reproduces the same draw sequence on every run.
pub struct SeededRng {
    state: u64,
}

impl SeededRng {
    /// The current state of the source.
    pub closed spec fn spec_state(&self) -> u64 {
        self.state
    }

    /// A source whose state starts at `seed`.
    pub fn new(seed: u64) -> (r: Self)
        ensures
            r.spec_state() == seed,
    {
        SeededRng { state: seed }
    }

    /// Step the source once and return a uniform-style index in `[0, n)`.
    pub fn next_index(&mut self, n: usize) -> (r: usize)
        requires
            n > 0,
        ensures
            final(self).spec_state() == next_state(old(self).spec_state()),
            r == spec_draw(old(self).spec_state(), n as int),
            r < n,
    {
        self.state = self.state.wrapping_mul(STEP_MUL).wrapping_add(STEP_INC);
        let high: u64 = self.state >> 33;
        (high % (n as u64)) as usize
    }
}

} // verus!
