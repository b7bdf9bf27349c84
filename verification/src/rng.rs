//! The pseudo-random byte source used by the `RND` instruction.
//!
//! The generator is a 32-bit xorshift register. It is fully determined by its
//! seed, so a run of the machine can be replayed exactly.

use vstd::prelude::*;

verus! {

/// Seed used when a generator is asked to start from zero, the one state
/// that a xorshift register can never leave.
pub const DEFAULT_SEED: u32 = 0x2545_F491;

/// The register after one xorshift round (shifts 13, 17, 5).
pub open spec fn advance(state: u32) -> u32 {
    let a = state ^ (state << 13);
    let b = a ^ (a >> 17);
    b ^ (b << 5)
}

/// The byte produced when the register holds `state`: the top byte of the
/// register after one round.
pub open spec fn output(state: u32) -> u8 {
    (advance(state) >> 24) as u8
}

/// The register that a generator seeded with `seed` starts from.
pub open spec fn seeded(seed: u32) -> u32 {
    if seed == 0 {
        DEFAULT_SEED
    } else {
        seed
    }
}

/// A round never produces the zero register from a non-zero one.
pub proof fn advance_keeps_nonzero(state: u32)
    requires
        state != 0,
    ensures
        advance(state) != 0,
{
    assert(state != 0 ==> ({
        let a = state ^ (state << 13);
        let b = a ^ (a >> 17);
        b ^ (b << 5)
    }) != 0) by (bit_vector);
}

/// A deterministic generator of bytes.
#[derive(Clone, Copy, Debug)]
pub struct Rng {
    state: u32,
}

impl Rng {
    /// The current register.
    pub closed spec fn view(&self) -> u32 {
        self.state
    }

    /// A generator starting from `seed` (from `DEFAULT_SEED` if `seed` is 0).
    pub fn new(seed: u32) -> (rng: Rng)
        ensures
            rng@ == seeded(seed),
            rng@ != 0,
    {
        if seed == 0 {
            Rng { state: DEFAULT_SEED }
        } else {
            Rng { state: seed }
        }
    }

    /// Produces the next byte and advances the register by one round. A
    /// register that is not zero stays so.
    pub fn next_u8(&mut self) -> (byte: u8)
        ensures
            byte == output(old(self)@),
            final(self)@ == advance(old(self)@),
            old(self)@ != 0 ==> final(self)@ != 0,
    {
        proof {
            if self.state != 0 {
                advance_keeps_nonzero(self.state);
            }
        }
        let a: u32 = self.state ^ (self.state << 13);
        let b: u32 = a ^ (a >> 17);
        let c: u32 = b ^ (b << 5);
        self.state = c;
        assert((c >> 24) < 0x100) by (bit_vector);
        (c >> 24) as u8
    }
}

} // verus!
