//! The abstract element type that every matrix, parameter vector and cost
//! value is made of.

use vstd::prelude::*;

verus! {

/// The arithmetic capability behind every model.
///
/// The library never inspects values of this type: every guarantee it proves
/// is about shapes, parameter layout and model state, and holds for any
/// implementation. A caller supplies the concrete number type (typically a
/// machine float) from outside the verified crate, which keeps all numeric
/// behaviour — rounding, saturation, division by zero — the implementation's
/// own, exactly as the arithmetic itself would produce it.
pub trait Scalar: Copy {
    /// Additive identity.
    fn zero() -> Self;

    /// Multiplicative identity.
    fn one() -> Self;

    /// The count `n` as an element; used to average a gradient over a batch.
    fn from_count(n: usize) -> Self;

    /// A sample in `[0, 1)` derived from 64 uniform bits; used by weight
    /// initialisation.
    fn unit_from(bits: u64) -> Self;

    fn plus(self, o: Self) -> Self;

    fn minus(self, o: Self) -> Self;

    fn times(self, o: Self) -> Self;

    fn divide(self, o: Self) -> Self;

    fn neg(self) -> Self;

    /// Natural exponential.
    fn exp(self) -> Self;

    /// Natural logarithm.
    fn ln(self) -> Self;

    fn sqrt(self) -> Self;
}

/// Copies a vector of elements, entry for entry.
pub fn dup_vec<T: Copy>(v: &Vec<T>) -> (r: Vec<T>)
    ensures
        r@ == v@,
{
    let mut r: Vec<T> = Vec::new();
    let mut i: usize = 0;
    while i < v.len()
        invariant
            i <= v.len(),
            r@ == v@.take(i as int),
        decreases v.len() - i,
    {
        proof {
            assert(v@.take(i + 1) =~= v@.take(i as int).push(v@[i as int]));
        }
        r.push(v[i]);
        i += 1;
    }
    proof {
        assert(v@.take(v@.len() as int) =~= v@);
    }
    r
}

} // verus!
