//! Sources of random draws.
//!
//! A box never reaches for randomness on its own.  Whoever observes it hands
//! it a source, and the box asks that source for at most one draw.

use vstd::prelude::*;

verus! {

/// Something that can be asked for an integer below a bound.
///
/// A source is described by the relation `may_draw`: which answers a request
/// may get, and in which state each answer leaves the source.  A source whose
/// answers depend on nothing but its own state admits exactly one answer; one
/// fed by entropy admits every answer below the bound, which is what the
/// relation says unless an implementation narrows it.
pub trait RandomSource: Sized {
    /// Whether asking `self` for a draw below `bound` may answer `draw` and
    /// leave the source as `next`.
    open spec fn may_draw(&self, bound: u128, draw: u128, next: &Self) -> bool {
        true
    }

    /// Draws an integer from `[0, bound)`.  For the draws to be fair, every
    /// integer in that range has to be equally likely.
    fn below(&mut self, bound: u128) -> (draw: u128)
        requires
            bound > 0,
        ensures
            draw < bound,
            old(self).may_draw(bound, draw, final(self)),
    ;
}

/// Whether `source` has only one answer to give when asked for a draw below
/// `bound`.
pub open spec fn determined<R: RandomSource>(source: R, bound: u128) -> bool {
    forall|one: u128, other: u128, next_one: R, next_other: R|
        #[trigger] source.may_draw(bound, one, &next_one) && #[trigger] source.may_draw(
            bound,
            other,
            &next_other,
        ) ==> one == other
}

/// A source that answers every request with the same number, reduced into the
/// requested range.  It makes the outcome of a collapse predictable.
#[derive(Clone, Copy, Debug, PartialEq, Eq, Structural)]
pub struct FixedSource {
    pub value: u128,
}

impl RandomSource for FixedSource {
    open spec fn may_draw(&self, bound: u128, draw: u128, next: &Self) -> bool {
        draw == self.value % bound && *next == *self
    }

    fn below(&mut self, bound: u128) -> (draw: u128) {
        self.value % bound
    }
}

/// The increment that moves a `SplitMix64` generator from one state to the
/// next.
pub const GOLDEN_GAMMA: u64 = 0x9E37_79B9_7F4A_7C15;

/// The first multiplier of the output scrambler.
pub const SCRAMBLE_A: u64 = 0xBF58_476D_1CE4_E5B9;

/// The second multiplier of the output scrambler.
pub const SCRAMBLE_B: u64 = 0x94D0_49BB_1331_11EB;

/// Two to the power of 64.
pub const WORD: u128 = 0x1_0000_0000_0000_0000;

/// The state that follows `state`.
pub open spec fn advance(state: u64) -> u64 {
    state.wrapping_add(GOLDEN_GAMMA)
}

/// The 64 bits that a generator in state `state` puts out.
pub open spec fn scramble(state: u64) -> u64 {
    let a: u64 = (state ^ (state >> 30)).wrapping_mul(SCRAMBLE_A);
    let b: u64 = (a ^ (a >> 27)).wrapping_mul(SCRAMBLE_B);
    b ^ (b >> 31)
}

/// The 128 bits that a generator puts out in the two steps after `state`,
/// the first step giving the upper half.
pub open spec fn wide_output(state: u64) -> u128 {
    (scramble(advance(state)) * WORD + scramble(advance(advance(state)))) as u128
}

/// A seeded pseudo-random generator (SplitMix64).
///
/// Equal seeds give equal sequences of draws.  A draw is 128 bits of output
/// reduced modulo the bound, so for bounds that do not divide two to the
/// power of 128 the small results are favoured, by less than one part in
/// two to the power of 128 divided by the bound.
#[derive(Clone, Copy, Debug, PartialEq, Eq, Structural)]
pub struct SplitMix64 {
    state: u64,
}

impl SplitMix64 {
    /// The generator's current state.
    pub closed spec fn state(&self) -> u64 {
        self.state
    }

    /// A generator that starts from `seed`.
    pub fn new(seed: u64) -> (generator: Self)
        ensures
            generator.state() == seed,
    {
        SplitMix64 { state: seed }
    }

    /// Steps the generator once and returns the 64 bits it puts out.
    pub fn next_u64(&mut self) -> (bits: u64)
        ensures
            final(self).state() == advance(old(self).state()),
            bits == scramble(final(self).state()),
    {
        self.state = self.state.wrapping_add(GOLDEN_GAMMA);
        let a: u64 = (self.state ^ (self.state >> 30)).wrapping_mul(SCRAMBLE_A);
        let b: u64 = (a ^ (a >> 27)).wrapping_mul(SCRAMBLE_B);
        b ^ (b >> 31)
    }
}

impl RandomSource for SplitMix64 {
    open spec fn may_draw(&self, bound: u128, draw: u128, next: &Self) -> bool {
        &&& draw == wide_output(self.state()) % bound
        &&& next.state() == advance(advance(self.state()))
    }

    fn below(&mut self, bound: u128) -> (draw: u128) {
        let upper: u64 = self.next_u64();
        let lower: u64 = self.next_u64();
        let wide: u128 = upper as u128 * WORD + lower as u128;
        wide % bound
    }
}

} // verus!
