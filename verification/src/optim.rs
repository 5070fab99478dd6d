//! First-order optimization over the `Optimizable` contract.
//!
//! An optimizer sees a model only through `compute_grad`; both optimizers
//! here repeatedly evaluate it and step every parameter against the
//! gradient. Neither checks convergence: each runs for its configured
//! iteration or epoch count and returns a parameter vector of the same
//! length it started from.

use vstd::prelude::*;
use crate::matrix::Matrix;
use crate::rng::{fresh_seed, Prng};
use crate::scalar::{dup_vec, Scalar};

verus! {

/// The interface every trainable model implements: given a flat parameter
/// vector, an input batch and a target batch, return the scalar cost and
/// the flat gradient vector.
pub trait Optimizable<T: Scalar> {
    /// When a gradient evaluation is meaningful: the parameter vector and
    /// the two batches fit the model's own dimensions.
    spec fn grad_ok(&self, params: Seq<T>, inputs: Matrix<T>, targets: Matrix<T>) -> bool;

    /// The cost of `params` on the batch, and its gradient: one entry per
    /// parameter, in the same order.
    fn compute_grad(&self, params: &Vec<T>, inputs: &Matrix<T>, targets: &Matrix<T>) -> (r: (
        T,
        Vec<T>,
    ))
        requires
            self.grad_ok(params@, *inputs, *targets),
        ensures
            r.1@.len() == params@.len(),
    ;
}

/// One descent step: every parameter moves against its gradient entry,
/// scaled by the learning rate.
fn apply_step<T: Scalar>(alpha: T, params: Vec<T>, grad: &Vec<T>) -> (r: Vec<T>)
    requires
        grad@.len() == params@.len(),
    ensures
        r@.len() == params@.len(),
{
    let mut out = params;
    let mut i: usize = 0;
    while i < out.len()
        invariant
            out@.len() == grad@.len(),
            i <= out@.len(),
        decreases out@.len() - i,
    {
        let stepped = out[i].minus(alpha.times(grad[i]));
        out[i] = stepped;
        i += 1;
    }
    out
}

/// Fixed-iteration full-batch gradient descent. Deterministic: it draws
/// no randomness of its own.
#[derive(Clone, Copy)]
pub struct GradientDesc<T> {
    /// The learning rate.
    pub alpha: T,
    /// How many iterations to run; every one uses the full training set.
    pub iters: usize,
}

impl<T: Scalar> GradientDesc<T> {
    /// An optimizer with the given learning rate and iteration count.
    pub fn new(alpha: T, iters: usize) -> (r: GradientDesc<T>)
        ensures
            r.alpha == alpha,
            r.iters == iters,
    {
        GradientDesc { alpha, iters }
    }

    /// Runs the configured number of full-batch steps from `start` and
    /// returns the stepped parameter vector, one entry per entry of
    /// `start`.
    pub fn optimize<M: Optimizable<T>>(
        &self,
        model: &M,
        start: &Vec<T>,
        inputs: &Matrix<T>,
        targets: &Matrix<T>,
    ) -> (r: Vec<T>)
        requires
            forall|p: Seq<T>|
                p.len() == start@.len() ==> model.grad_ok(p, *inputs, *targets),
        ensures
            r@.len() == start@.len(),
    {
        let mut params = dup_vec(start);
        let mut it: usize = 0;
        while it < self.iters
            invariant
                params@.len() == start@.len(),
                forall|p: Seq<T>|
                    p.len() == start@.len() ==> model.grad_ok(p, *inputs, *targets),
            decreases self.iters - it,
        {
            let cg = model.compute_grad(&params, inputs, targets);
            params = apply_step(self.alpha, params, &cg.1);
            it += 1;
        }
        params
    }
}

impl<T: Scalar> Default for GradientDesc<T> {
    /// The conventional configuration: learning rate three tenths, one
    /// hundred iterations.
    fn default() -> (r: GradientDesc<T>)
        ensures
            r.iters == 100,
    {
        GradientDesc { alpha: T::from_count(3).divide(T::from_count(10)), iters: 100 }
    }
}

/// Reorders the entries in place: a Fisher–Yates pass driven by the given
/// generator. The result holds exactly the entries it started with —
/// nothing is lost, duplicated or invented — in some order the generator
/// chose.
pub fn shuffle(v: &mut Vec<usize>, prng: &mut Prng)
    ensures
        final(v)@.len() == old(v)@.len(),
        final(v)@.to_multiset() == old(v)@.to_multiset(),
        forall|t: int| 0 <= t < final(v)@.len() ==> old(v)@.contains(final(v)@[t]),
{
    broadcast use vstd::seq_lib::group_to_multiset_ensures;
    broadcast use vstd::seq_lib::to_multiset_update;

    let n = v.len();
    if 2 <= n {
        let mut i: usize = n - 1;
        while 1 <= i
            invariant
                v@.len() == n,
                i < n,
                v@.to_multiset() == old(v)@.to_multiset(),
            decreases i,
        {
            let r = prng.next_u64();
            let j = (r % ((i as u64) + 1)) as usize;
            if j != i {
                let ghost s0 = v@;
                let a = v[i];
                let b = v[j];
                v[i] = b;
                let ghost s1 = v@;
                v[j] = a;
                proof {
                    s0.to_multiset_ensures();
                    s1.to_multiset_ensures();
                    vstd::seq_lib::to_multiset_update(s0, i as int, b);
                    vstd::seq_lib::to_multiset_update(s1, j as int, a);
                    assert(s0[i as int] == a);
                    assert(s0.contains(a));
                    assert(s0.to_multiset().count(a) > 0);
                    assert(s1 == s0.update(i as int, b));
                    assert(s1.to_multiset() == s0.to_multiset().insert(b).remove(a));
                    assert(s1[j as int] == b);
                    assert(v@ == s1.update(j as int, a));
                    assert(v@.to_multiset() == s1.to_multiset().insert(a).remove(b));
                    assert(v@.to_multiset() =~= s0.to_multiset());
                }
            }
            i -= 1;
        }
    }
    proof {
        assert forall|t: int| 0 <= t < v@.len() implies old(v)@.contains(v@[t]) by {
            assert(v@.to_multiset().count(v@[t]) > 0);
        }
    }
}

/// Epoch-and-minibatch stochastic gradient descent. Each epoch shuffles
/// the row order, partitions it into minibatches of the configured size
/// (the final partial batch is still used), and steps once per minibatch.
/// With an injected seed the whole run is reproducible; without one, a
/// seed is drawn from the process-wide generator.
#[derive(Clone, Copy)]
pub struct StochasticGD<T> {
    /// The learning rate.
    pub alpha: T,
    /// How many passes over the whole training set to make.
    pub epochs: usize,
    /// How many rows each update uses. A batch larger than the training
    /// set behaves as one full batch.
    pub batch: usize,
    /// An injected seed for reproducible runs, if any.
    pub seed: Option<u64>,
}

impl<T: Scalar> StochasticGD<T> {
    /// An optimizer with the given learning rate, epoch count and
    /// minibatch size, drawing its shuffle seed from the process-wide
    /// generator.
    pub fn new(alpha: T, epochs: usize, batch: usize) -> (r: StochasticGD<T>)
        requires
            1 <= batch,
        ensures
            r.alpha == alpha,
            r.epochs == epochs,
            r.batch == batch,
            r.seed is None,
    {
        StochasticGD { alpha, epochs, batch, seed: None }
    }

    /// The same optimizer with an injected shuffle seed.
    pub fn with_seed(self, seed: u64) -> (r: StochasticGD<T>)
        ensures
            r.alpha == self.alpha,
            r.epochs == self.epochs,
            r.batch == self.batch,
            r.seed == Some(seed),
    {
        StochasticGD { seed: Some(seed), ..self }
    }

    /// Runs the configured epochs of minibatch steps from `start` and
    /// returns the stepped parameter vector, one entry per entry of
    /// `start`. The model must accept any batch whose column counts match
    /// the training set, since minibatches keep columns and select rows.
    pub fn optimize<M: Optimizable<T>>(
        &self,
        model: &M,
        start: &Vec<T>,
        inputs: &Matrix<T>,
        targets: &Matrix<T>,
    ) -> (r: Vec<T>)
        requires
            1 <= self.batch,
            inputs.wf(),
            targets.wf(),
            inputs.nrows() == targets.nrows(),
            forall|p: Seq<T>, x: Matrix<T>, y: Matrix<T>|
                p.len() == start@.len() && x.wf() && y.wf() && x.nrows() == y.nrows()
                    && x.ncols() == inputs.ncols() && y.ncols() == targets.ncols()
                    ==> model.grad_ok(p, x, y),
        ensures
            r@.len() == start@.len(),
    {
        let n = inputs.rows();
        let mut prng = match self.seed {
            Some(s) => Prng::new(s),
            None => Prng::new(fresh_seed()),
        };
        let mut params = dup_vec(start);
        let mut perm: Vec<usize> = Vec::new();
        let mut k: usize = 0;
        while k < n
            invariant
                k <= n,
                perm@.len() == k,
                forall|t: int| 0 <= t < perm@.len() ==> perm@[t] < n,
            decreases n - k,
        {
            perm.push(k);
            k += 1;
        }
        let mut e: usize = 0;
        while e < self.epochs
            invariant
                n == inputs.nrows(),
                inputs.wf(),
                targets.wf(),
                inputs.nrows() == targets.nrows(),
                params@.len() == start@.len(),
                perm@.len() == n,
                forall|t: int| 0 <= t < perm@.len() ==> perm@[t] < n,
                forall|p: Seq<T>, x: Matrix<T>, y: Matrix<T>|
                    p.len() == start@.len() && x.wf() && y.wf() && x.nrows() == y.nrows()
                        && x.ncols() == inputs.ncols() && y.ncols() == targets.ncols()
                        ==> model.grad_ok(p, x, y),
                1 <= self.batch,
            decreases self.epochs - e,
        {
            shuffle(&mut perm, &mut prng);
            let mut pos: usize = 0;
            while pos < n
                invariant
                    n == inputs.nrows(),
                    inputs.wf(),
                    targets.wf(),
                    inputs.nrows() == targets.nrows(),
                    params@.len() == start@.len(),
                    perm@.len() == n,
                    forall|t: int| 0 <= t < perm@.len() ==> perm@[t] < n,
                    forall|p: Seq<T>, x: Matrix<T>, y: Matrix<T>|
                        p.len() == start@.len() && x.wf() && y.wf() && x.nrows() == y.nrows()
                            && x.ncols() == inputs.ncols() && y.ncols() == targets.ncols()
                            ==> model.grad_ok(p, x, y),
                    pos <= n,
                    1 <= self.batch,
                decreases n - pos,
            {
                let end: usize = if n - pos > self.batch {
                    pos + self.batch
                } else {
                    n
                };
                let mut picks: Vec<usize> = Vec::new();
                let mut t: usize = pos;
                while t < end
                    invariant
                        pos <= t <= end <= n,
                        perm@.len() == n,
                        n == inputs.nrows(),
                        forall|u: int| 0 <= u < perm@.len() ==> perm@[u] < n,
                        picks@.len() == t - pos,
                        forall|u: int| 0 <= u < picks@.len() ==> picks@[u] < inputs.nrows(),
                    decreases end - t,
                {
                    picks.push(perm[t]);
                    t += 1;
                }
                let xb = inputs.select_rows(&picks);
                let yb = targets.select_rows(&picks);
                let cg = model.compute_grad(&params, &xb, &yb);
                params = apply_step(self.alpha, params, &cg.1);
                pos = end;
            }
            e += 1;
        }
        params
    }
}

impl<T: Scalar> Default for StochasticGD<T> {
    /// The conventional configuration: learning rate one tenth, twenty
    /// epochs, single-row minibatches, no injected seed.
    fn default() -> (r: StochasticGD<T>)
        ensures
            r.epochs == 20,
            r.batch == 1,
            r.seed is None,
    {
        StochasticGD {
            alpha: T::one().divide(T::from_count(10)),
            epochs: 20,
            batch: 1,
            seed: None,
        }
    }
}

} // verus!
