//! A seedable source of uniform draws for the layout generator.
use vstd::prelude::*;

verus! {

/// Draws are integers in `[0, DRAW_SCALE)`, standing for reals in `[0, 1)`.
pub const DRAW_SCALE: u32 = 1_000_000;
/// State used in place of a zero seed, which xorshift would never leave.
pub const FALLBACK_STATE: u64 = 0x9E37_79B9_7F4A_7C15;

/// One xorshift64 step (shifts 13, 7, 17).
pub open spec fn next_state(s: u64) -> u64 {
    let a = s ^ (s << 13u64);
    let b = a ^ (a >> 7u64);
    b ^ (b << 17u64)
}

/// The draw that a state yields: its high 32 bits scaled onto `[0, DRAW_SCALE)`.
pub open spec fn draw_of(s: u64) -> int {
    (s as int / 0x1_0000_0000) * (DRAW_SCALE as int) / 0x1_0000_0000
}

/// A xorshift64 generator; each draw advances the state by one step.
pub struct RandomSource {
    pub state: u64,
}

impl RandomSource {
    /// A generator seeded with `seed` (a zero seed is replaced by a fixed state).
    pub fn new(seed: u64) -> (r: Self)
        ensures
            r.state == (if seed == 0 { FALLBACK_STATE } else { seed }),
    {
        RandomSource { state: if seed == 0 { FALLBACK_STATE } else { seed } }
    }

    /// Advances the state and returns the draw of the new state.
    pub fn next_draw(&mut self) -> (r: u32)
        ensures
            final(self).state == next_state(old(self).state),
            r == draw_of(final(self).state),
            r < DRAW_SCALE,
    {
        let s = self.state;
        let a: u64 = s ^ (s << 13u64);
        let b: u64 = a ^ (a >> 7u64);
        let c: u64 = b ^ (b << 17u64);
        self.state = c;
        let hi: u64 = c / 0x1_0000_0000;
        assert(hi * (DRAW_SCALE as int) < 0x1_0000_0000 * (DRAW_SCALE as int)) by (nonlinear_arith)
            requires
                hi < 0x1_0000_0000,
        ;
        let scaled: u64 = hi * (DRAW_SCALE as u64) / 0x1_0000_0000;
        scaled as u32
    }
}

} // verus!
