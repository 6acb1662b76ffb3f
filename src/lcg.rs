//! A small linear congruential generator over bytes.
use vstd::prelude::*;

verus! {

/// One step of the generator: `(a * x + c) mod 256`.
pub open spec fn lcg_step(a: u8, c: u8, x: u8) -> u8 {
    ((a as int * x as int + c as int) % 256) as u8
}

/// Linear congruential generator `x' = (a * x + c) mod 256`.
pub struct Lcg {
    a: u8,
    c: u8,
    state: u8,
}

impl View for Lcg {
    /// Multiplier, increment and current state.
    type V = (u8, u8, u8);

    closed spec fn view(&self) -> (u8, u8, u8) {
        (self.a, self.c, self.state)
    }
}

impl Lcg {
    pub fn new(a: u8, c: u8, state: u8) -> (r: Lcg)
        ensures
            r@ == (a, c, state),
    {
        Lcg { a, c, state }
    }

    /// Advances the generator and returns the new state.
    pub fn next(&mut self) -> (r: u8)
        ensures
            r == lcg_step(old(self)@.0, old(self)@.1, old(self)@.2),
            final(self)@ == (old(self)@.0, old(self)@.1, r),
    {
        proof {
            let (a, x) = (self.a as int, self.state as int);
            assert(0 <= a * x <= 255 * 255) by (nonlinear_arith)
                requires
                    0 <= a <= 255,
                    0 <= x <= 255,
            ;
        }
        let next: u16 = (self.a as u16 * self.state as u16 + self.c as u16) % 256;
        self.state = next as u8;
        self.state
    }
}

} // verus!
