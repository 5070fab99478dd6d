//! The injectable random source.
//!
//! Weight initialisation and epoch shuffling draw from a deterministic
//! generator so that both are reproducible under an injected seed; when no
//! seed is injected, the seed itself comes from the process-wide generator
//! of the `rand` crate.

use vstd::prelude::*;

verus! {

/// One xorshift round on 64 bits.
pub open spec fn xorshift_step(x: u64) -> u64 {
    let a = x ^ (x << 13u64);
    let b = a ^ (a >> 7u64);
    b ^ (b << 17u64)
}

/// A deterministic xorshift generator. Equal seeds give equal sequences,
/// which is what makes seeded training reproducible.
pub struct Prng {
    state: u64,
}

impl Prng {
    /// The current internal state.
    pub closed spec fn spec_state(self) -> u64 {
        self.state
    }

    /// Starts the generator. A zero seed is replaced by a fixed odd
    /// constant, since zero is the one state an xorshift generator never
    /// leaves.
    pub fn new(seed: u64) -> (r: Prng)
        ensures
            r.spec_state() == if seed == 0 {
                0x9E3779B97F4A7C15u64
            } else {
                seed
            },
    {
        if seed == 0 {
            Prng { state: 0x9E3779B97F4A7C15u64 }
        } else {
            Prng { state: seed }
        }
    }

    /// The next 64 uniform-looking bits.
    pub fn next_u64(&mut self) -> (r: u64)
        ensures
            final(self).spec_state() == xorshift_step(old(self).spec_state()),
            r == final(self).spec_state(),
    {
        let mut x = self.state;
        x = x ^ (x << 13u64);
        x = x ^ (x >> 7u64);
        x = x ^ (x << 17u64);
        self.state = x;
        x
    }
}

/// Relies on `rand::random` for entropy when no seed is injected; nothing is
/// promised of the value drawn.
pub assume_specification<T>[ rand::random::<T> ]() -> (r: T)
    where
        rand::distributions::Standard: rand::distributions::Distribution<T>,
;

/// A fresh seed from the process-wide generator of the `rand` crate.
pub fn fresh_seed() -> u64 {
    rand::random::<u64>()
}

} // verus!
