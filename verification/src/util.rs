//! A small pseudo-random generator whose state the caller holds.

use vstd::prelude::*;

verus! {

/// One step of the generator: three shift-and-xor rounds on the state.
pub open spec fn scramble(state: u32) -> u32 {
    let a = state ^ (state >> 17u32);
    let b = a ^ (a << 5u32);
    b ^ (b << 13u32)
}

/// The state of the generator.
#[derive(Clone, Copy, Debug)]
pub struct XorShift {
    state: u32,
}

impl XorShift {
    /// The number the generator gave last, or the seed where it gave
    /// none yet.
    pub closed spec fn state(self) -> u32 {
        self.state
    }
}

/// A generator seeded with `seed`.
pub fn srand(seed: u32) -> (generator: XorShift)
    ensures
        generator.state() == seed,
{
    XorShift { state: seed }
}

/// The next number of the generator, which is also its new state.
pub fn rand(generator: &mut XorShift) -> (number: u32)
    ensures
        number == scramble(old(generator).state()),
        final(generator).state() == number,
{
    let a: u32 = generator.state ^ (generator.state >> 17u32);
    let b: u32 = a ^ (a << 5u32);
    let c: u32 = b ^ (b << 13u32);
    generator.state = c;
    c
}

} // verus!
