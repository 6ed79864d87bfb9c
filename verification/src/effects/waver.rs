//! The noise source that feeds the key click.

use vstd::prelude::*;

verus! {

/// The value that follows `x` in the noise sequence: a linear congruential
/// step modulo 2^16.
pub open spec fn noise_step(x: u16) -> u16 {
    ((x as int * 4005 + 165) % 0x1_0000) as u16
}

/// A small pseudo-random generator. It is owned by whoever clocks it: no
/// state is shared between two generators.
#[derive(Clone, Copy, PartialEq, Eq, Structural, Debug)]
pub struct Noise {
    x: u16,
}

impl Default for Noise {
    fn default() -> (n: Self)
        ensures
            n@ == 0,
    {
        Noise { x: 0 }
    }
}

impl Noise {
    /// The value that the generator holds.
    pub closed spec fn view(&self) -> u16 {
        self.x
    }

    pub fn with_seed(seed: u16) -> (n: Self)
        ensures
            n@ == seed,
    {
        Noise { x: seed }
    }

    /// Moves one step on and returns the new value, out of the full range
    /// of 16 bits. To be called once per tick at most: the sequence repeats
    /// after 2^16 calls.
    pub fn clock(&mut self) -> (r: u16)
        ensures
            r == noise_step(old(self)@),
            final(self)@ == r,
    {
        let m: u16 = self.x.wrapping_mul(4005);
        let r: u16 = m.wrapping_add(165);
        assert(r == noise_step(self.x)) by {
            let p = self.x as int * 4005;
            assert(m as int == p % 0x1_0000);
            assert((p % 0x1_0000 + 165) % 0x1_0000 == (p + 165) % 0x1_0000);
        }
        self.x = r;
        r
    }
}

} // verus!
