//! The feed-forward network engine.
//!
//! A network owns one flat parameter vector holding every layer's weight
//! matrix, bias row included, concatenated in layer order. The layout is
//! fixed by the topology alone: layer `l` maps `t[l]` units to `t[l + 1]`
//! units through a `(t[l] + 1) x t[l + 1]` block, and both initialisation
//! and gradient assembly reconstruct the very same slicing — the proofs
//! below pin that layout down exactly.

use vstd::prelude::*;
use crate::criterion::{BCECriterion, Criterion};
use crate::matrix::Matrix;
use crate::optim::{Optimizable, StochasticGD};
use crate::rng::{fresh_seed, Prng};
use crate::scalar::{dup_vec, Scalar};
use crate::Error;

verus! {

/// A usable topology: at least an input and an output layer, no empty
/// layer.
pub open spec fn topo_ok(t: Seq<usize>) -> bool {
    &&& 2 <= t.len()
    &&& forall|l: int| 0 <= l < t.len() ==> 1 <= #[trigger] t[l]
}

/// How many parameters the transition out of layer `l` takes: a weight for
/// each of the `t[l]` units plus one bias, for each of the `t[l + 1]`
/// target units.
pub open spec fn layer_dim(t: Seq<usize>, l: int) -> int {
    (t[l] + 1) * t[l + 1]
}

/// Where the block of layer `l` starts in the flat parameter vector: the
/// blocks of all earlier layers lie before it.
pub open spec fn offset(t: Seq<usize>, l: int) -> int
    decreases l,
{
    if l <= 0 {
        0
    } else {
        offset(t, l - 1) + layer_dim(t, l - 1)
    }
}

/// The length of the whole flat parameter vector.
pub open spec fn total_dim(t: Seq<usize>) -> int {
    offset(t, t.len() - 1)
}

/// A layer block never shrinks the offset: block sizes are nonnegative.
pub proof fn lemma_offset_mono(t: Seq<usize>, a: int, b: int)
    requires
        0 <= a <= b,
    ensures
        offset(t, a) <= offset(t, b),
    decreases b - a,
{
    if a < b {
        lemma_offset_mono(t, a, b - 1);
        vstd::arithmetic::mul::lemma_mul_nonnegative(t[b - 1] + 1, t[b] as int);
    }
}

/// Offsets start at zero and stay nonnegative.
pub proof fn lemma_offset_nonneg(t: Seq<usize>, l: int)
    requires
        0 <= l,
    ensures
        0 <= offset(t, l),
{
    lemma_offset_mono(t, 0, l);
}

/// The block of layer `l` lies inside the flat vector, and a single layer
/// input row fits inside the block.
pub proof fn lemma_layer_fits(t: Seq<usize>, l: int)
    requires
        topo_ok(t),
        0 <= l < t.len() - 1,
    ensures
        0 <= offset(t, l),
        offset(t, l) + layer_dim(t, l) == offset(t, l + 1),
        offset(t, l + 1) <= total_dim(t),
        t[l] + 1 <= layer_dim(t, l),
{
    lemma_offset_nonneg(t, l);
    lemma_offset_mono(t, l + 1, t.len() - 1);
    assert(t[l] + 1 <= (t[l] + 1) * t[l + 1]) by (nonlinear_arith)
        requires
            1 <= t[l + 1],
            0 <= t[l],
    ;
}

/// Validates a topology and measures its flat parameter vector: the answer
/// is the total parameter count exactly when the topology is usable and
/// that count fits in a machine word.
fn check_topology(t: &Vec<usize>) -> (r: Option<usize>)
    ensures
        match r {
            Some(n) => topo_ok(t@) && total_dim(t@) <= usize::MAX && n == total_dim(t@),
            None => !(topo_ok(t@) && total_dim(t@) <= usize::MAX),
        },
{
    if t.len() < 2 {
        return None;
    }
    let mut i: usize = 0;
    while i < t.len()
        invariant
            i <= t@.len(),
            forall|l: int| 0 <= l < i ==> 1 <= #[trigger] t@[l],
        decreases t@.len() - i,
    {
        if t[i] == 0 {
            return None;
        }
        i += 1;
    }
    let kk = t.len() - 1;
    let mut acc: usize = 0;
    let mut l: usize = 0;
    while l < kk
        invariant
            topo_ok(t@),
            kk == t@.len() - 1,
            l <= kk,
            acc == offset(t@, l as int),
        decreases kk - l,
    {
        proof {
            lemma_layer_fits(t@, l as int);
            lemma_offset_mono(t@, l + 1, kk as int);
        }
        let lin = match t[l].checked_add(1) {
            Some(v) => v,
            None => {
                return None;
            },
        };
        let dim = match lin.checked_mul(t[l + 1]) {
            Some(v) => v,
            None => {
                return None;
            },
        };
        let next = match acc.checked_add(dim) {
            Some(v) => v,
            None => {
                return None;
            },
        };
        acc = next;
        l += 1;
    }
    Some(acc)
}

/// A multi-layer feed-forward network: a fixed topology, a criterion, the
/// flat parameter vector, and the stochastic optimizer its training uses.
pub struct NeuralNet<T, C> {
    layer_sizes: Vec<usize>,
    weights: Vec<T>,
    gd: StochasticGD<T>,
    criterion: C,
}

impl<T: Scalar, C: Criterion<T>> NeuralNet<T, C> {
    /// The layer sizes this network was built with.
    pub closed spec fn topology(self) -> Seq<usize> {
        self.layer_sizes@
    }

    /// The flat parameter vector.
    pub closed spec fn params(self) -> Seq<T> {
        self.weights@
    }

    /// The structural invariant every constructor establishes and `train`
    /// preserves: a usable topology whose parameter count fits in a
    /// machine word, a flat parameter vector of exactly that length, and a
    /// usable optimizer configuration.
    pub closed spec fn wf(self) -> bool {
        &&& topo_ok(self.topology())
        &&& total_dim(self.topology()) <= usize::MAX
        &&& self.weights@.len() == total_dim(self.topology())
        &&& 1 <= self.gd.batch
    }

    /// The flat parameter vector always has one entry per cell of every
    /// layer block.
    pub proof fn lemma_param_count(self)
        requires
            self.wf(),
        ensures
            self.params().len() == total_dim(self.topology()),
            topo_ok(self.topology()),
    {
    }

    /// Random weights for one layer transition: `l_in * l_out` samples
    /// drawn uniformly from `[-eps, eps]` with
    /// `eps = sqrt(6 / (l_in + l_out))`. The denominator saturates rather
    /// than overflow; the epsilon value carries no contract.
    fn initialize_weights(l_in: usize, l_out: usize, prng: &mut Prng) -> (r: Vec<T>)
        requires
            l_in * l_out <= usize::MAX,
        ensures
            r@.len() == l_in * l_out,
    {
        let denom: usize = if l_out <= usize::MAX - l_in {
            l_in + l_out
        } else {
            usize::MAX
        };
        let eps = T::from_count(6).divide(T::from_count(denom)).sqrt();
        let two = T::one().plus(T::one());
        let count = l_in * l_out;
        let mut w: Vec<T> = Vec::new();
        let mut i: usize = 0;
        while i < count
            invariant
                i <= count,
                w@.len() == i,
            decreases count - i,
        {
            let u = T::unit_from(prng.next_u64());
            w.push(u.times(two).times(eps).minus(eps));
            i += 1;
        }
        w
    }

    /// The initial flat parameter vector: every layer block generated in
    /// topology order and concatenated.
    fn create_weights(t: &Vec<usize>, prng: &mut Prng) -> (r: Vec<T>)
        requires
            topo_ok(t@),
            total_dim(t@) <= usize::MAX,
        ensures
            r@.len() == total_dim(t@),
    {
        let kk = t.len() - 1;
        let mut w: Vec<T> = Vec::new();
        let mut l: usize = 0;
        while l < kk
            invariant
                topo_ok(t@),
                total_dim(t@) <= usize::MAX,
                kk == t@.len() - 1,
                l <= kk,
                w@.len() == offset(t@, l as int),
            decreases kk - l,
        {
            proof {
                lemma_layer_fits(t@, l as int);
                lemma_offset_mono(t@, l + 1, kk as int);
            }
            let lin = t[l] + 1;
            let lout = t[l + 1];
            let mut block = Self::initialize_weights(lin, lout, prng);
            w.append(&mut block);
            l += 1;
        }
        w
    }

    /// A network with the given layer sizes and criterion, its weights
    /// initialised from the process-wide random generator. Fails exactly
    /// when the topology is unusable or its parameter count cannot fit in
    /// a machine word.
    pub fn new(layer_sizes: &Vec<usize>, criterion: C) -> (r: Result<NeuralNet<T, C>, Error>)
        ensures
            match r {
                Ok(net) => net.wf() && net.topology() == layer_sizes@,
                Err(e) => e == Error::InvalidTopology && !(topo_ok(layer_sizes@) && total_dim(
                    layer_sizes@,
                ) <= usize::MAX),
            },
    {
        let seed = fresh_seed();
        Self::new_seeded(layer_sizes, criterion, seed)
    }

    /// The same construction from an injected seed, for reproducible
    /// initialisation.
    pub fn new_seeded(layer_sizes: &Vec<usize>, criterion: C, seed: u64) -> (r: Result<
        NeuralNet<T, C>,
        Error,
    >)
        ensures
            match r {
                Ok(net) => net.wf() && net.topology() == layer_sizes@,
                Err(e) => e == Error::InvalidTopology && !(topo_ok(layer_sizes@) && total_dim(
                    layer_sizes@,
                ) <= usize::MAX),
            },
    {
        match check_topology(layer_sizes) {
            None => Err(Error::InvalidTopology),
            Some(_) => {
                let mut prng = Prng::new(seed);
                let weights = Self::create_weights(layer_sizes, &mut prng);
                Ok(
                    NeuralNet {
                        layer_sizes: dup_vec(layer_sizes),
                        weights,
                        gd: StochasticGD::default(),
                        criterion,
                    },
                )
            },
        }
    }

    /// The weight matrix of the transition out of layer `idx`, read from
    /// the given flat vector: the `(t[idx] + 1) x t[idx + 1]` block that
    /// starts where every earlier block ends.
    fn get_layer_weights(&self, weights: &Vec<T>, idx: usize) -> (r: Matrix<T>)
        requires
            topo_ok(self.topology()),
            total_dim(self.topology()) <= usize::MAX,
            weights@.len() == total_dim(self.topology()),
            idx < self.topology().len() - 1,
        ensures
            r.wf(),
            r.nrows() == self.topology()[idx as int] + 1,
            r.ncols() == self.topology()[idx as int + 1],
            r.flat() == weights@.subrange(
                offset(self.topology(), idx as int),
                offset(self.topology(), idx as int) + layer_dim(self.topology(), idx as int),
            ),
    {
        let kk = self.layer_sizes.len() - 1;
        let mut start: usize = 0;
        let mut l: usize = 0;
        while l < idx
            invariant
                topo_ok(self.topology()),
                total_dim(self.topology()) <= usize::MAX,
                kk == self.topology().len() - 1,
                idx < kk + 1,
                idx <= kk,
                l <= idx,
                start == offset(self.topology(), l as int),
            decreases idx - l,
        {
            proof {
                lemma_layer_fits(self.topology(), l as int);
                lemma_offset_mono(self.topology(), l + 1, kk as int);
            }
            start = start + (self.layer_sizes[l] + 1) * self.layer_sizes[l + 1];
            l += 1;
        }
        proof {
            lemma_layer_fits(self.topology(), idx as int);
            lemma_offset_mono(self.topology(), idx as int + 1, kk as int);
        }
        let rows = self.layer_sizes[idx] + 1;
        let cols = self.layer_sizes[idx + 1];
        let cap = rows * cols;
        let mut data: Vec<T> = Vec::new();
        let mut k: usize = 0;
        while k < cap
            invariant
                weights@.len() == total_dim(self.topology()),
                total_dim(self.topology()) <= usize::MAX,
                start == offset(self.topology(), idx as int),
                start + cap <= total_dim(self.topology()),
                k <= cap,
                data@ == weights@.subrange(start as int, start as int + k),
            decreases cap - k,
        {
            proof {
                assert(weights@.subrange(start as int, start as int + k + 1) =~= weights@.subrange(
                    start as int,
                    start as int + k,
                ).push(weights@[start as int + k]));
            }
            data.push(weights[start + k]);
            k += 1;
        }
        Matrix::new(rows, cols, data)
    }

    /// The weight matrix of the transition out of layer `idx`, read from
    /// the network's own parameters. The bias term gives it one extra row.
    pub fn get_net_weights(&self, idx: usize) -> (r: Matrix<T>)
        requires
            self.wf(),
            idx < self.topology().len() - 1,
        ensures
            r.wf(),
            r.nrows() == self.topology()[idx as int] + 1,
            r.ncols() == self.topology()[idx as int + 1],
            r.flat() == self.params().subrange(
                offset(self.topology(), idx as int),
                offset(self.topology(), idx as int) + layer_dim(self.topology(), idx as int),
            ),
    {
        self.get_layer_weights(&self.weights, idx)
    }

    /// Forward propagation of an input batch through the given flat
    /// parameters: bias-augment, multiply by the layer's weight block,
    /// activate; the final activation is the output, one row per input
    /// row, one column per output unit.
    fn forward_prop(&self, weights: &Vec<T>, inputs: &Matrix<T>) -> (r: Matrix<T>)
        requires
            topo_ok(self.topology()),
            total_dim(self.topology()) <= usize::MAX,
            weights@.len() == total_dim(self.topology()),
            inputs.wf(),
            inputs.ncols() == self.topology()[0],
        ensures
            r.wf(),
            r.nrows() == inputs.nrows(),
            r.ncols() == self.topology().last(),
    {
        let kk = self.layer_sizes.len() - 1;
        proof {
            lemma_layer_fits(self.topology(), 0);
        }
        let a = inputs.augment_ones();
        let w0 = self.get_layer_weights(weights, 0);
        let mut z = a.matmul(&w0);
        let mut l: usize = 1;
        while l < kk
            invariant
                topo_ok(self.topology()),
                total_dim(self.topology()) <= usize::MAX,
                weights@.len() == total_dim(self.topology()),
                inputs.wf(),
                kk == self.topology().len() - 1,
                1 <= l <= kk,
                z.wf(),
                z.nrows() == inputs.nrows(),
                z.ncols() == self.topology()[l as int],
            decreases kk - l,
        {
            proof {
                lemma_layer_fits(self.topology(), l as int);
            }
            let act = self.criterion.activate(&z);
            let a2 = act.augment_ones();
            let w = self.get_layer_weights(weights, l);
            z = a2.matmul(&w);
            l += 1;
        }
        self.criterion.activate(&z)
    }

    /// Runs the network forward on an input batch against the stored
    /// parameters. Fails exactly when the batch's column count is not the
    /// input layer's size; nothing is mutated either way.
    pub fn predict(&self, inputs: &Matrix<T>) -> (r: Result<Matrix<T>, Error>)
        requires
            self.wf(),
            inputs.wf(),
        ensures
            match r {
                Ok(out) => inputs.ncols() == self.topology()[0] && out.wf() && out.nrows()
                    == inputs.nrows() && out.ncols() == self.topology().last(),
                Err(e) => e == Error::DimensionError && inputs.ncols() != self.topology()[0],
            },
    {
        if inputs.cols() != self.layer_sizes[0] {
            return Err(Error::DimensionError);
        }
        Ok(self.forward_prop(&self.weights, inputs))
    }

    /// Trains the network: validates the batch shapes, then replaces the
    /// whole parameter vector with what the stochastic optimizer returns.
    /// Fails exactly when the input columns miss the first layer, the
    /// target columns miss the last layer, or the row counts differ — and
    /// a failed call leaves the network untouched.
    pub fn train(&mut self, inputs: &Matrix<T>, targets: &Matrix<T>) -> (r: Result<(), Error>)
        requires
            old(self).wf(),
            inputs.wf(),
            targets.wf(),
        ensures
            final(self).wf(),
            final(self).topology() == old(self).topology(),
            match r {
                Ok(()) => inputs.ncols() == old(self).topology()[0] && targets.ncols() == old(
                    self,
                ).topology().last() && inputs.nrows() == targets.nrows(),
                Err(e) => e == Error::DimensionError && *final(self) == *old(self) && !(inputs.ncols()
                    == old(self).topology()[0] && targets.ncols() == old(self).topology().last()
                    && inputs.nrows() == targets.nrows()),
            },
    {
        let kk = self.layer_sizes.len() - 1;
        if inputs.cols() != self.layer_sizes[0] || targets.cols() != self.layer_sizes[kk]
            || inputs.rows() != targets.rows() {
            return Err(Error::DimensionError);
        }
        let start = dup_vec(&self.weights);
        let gd = self.gd;
        let optimal = gd.optimize(self, &start, inputs, targets);
        self.weights = optimal;
        Ok(())
    }
}

impl<T: Scalar> NeuralNet<T, BCECriterion> {
    /// A network with the default criterion — the logistic activation with
    /// the cross-entropy cost — and default optimizer settings.
    pub fn default(layer_sizes: &Vec<usize>) -> (r: Result<NeuralNet<T, BCECriterion>, Error>)
        ensures
            match r {
                Ok(net) => net.wf() && net.topology() == layer_sizes@,
                Err(e) => e == Error::InvalidTopology && !(topo_ok(layer_sizes@) && total_dim(
                    layer_sizes@,
                ) <= usize::MAX),
            },
    {
        NeuralNet::new(layer_sizes, BCECriterion)
    }
}

impl<T: Scalar, C: Criterion<T>> Optimizable<T> for NeuralNet<T, C> {
    /// A gradient evaluation fits when the parameter vector has the
    /// topology's length and both batches have the topology's end-layer
    /// widths and equal row counts.
    open spec fn grad_ok(&self, params: Seq<T>, inputs: Matrix<T>, targets: Matrix<T>) -> bool {
        &&& topo_ok(self.topology())
        &&& total_dim(self.topology()) <= usize::MAX
        &&& params.len() == total_dim(self.topology())
        &&& inputs.wf()
        &&& targets.wf()
        &&& inputs.ncols() == self.topology()[0]
        &&& targets.ncols() == self.topology().last()
        &&& inputs.nrows() == targets.nrows()
    }

    /// Backpropagation. A forward pass caches each layer's bias-augmented
    /// input and pre-activation; the output error is the cost gradient
    /// times the activation gradient; each earlier error is the next error
    /// pushed through the transposed weight block, with the bias column
    /// stripped, times that layer's activation gradient. Block `l` of the
    /// flat gradient is the transposed augmented input times the error
    /// leaving layer `l`, averaged over the batch — laid out exactly as
    /// the parameter vector is, so entry `k` of the gradient belongs to
    /// entry `k` of the parameters.
    fn compute_grad(&self, params: &Vec<T>, inputs: &Matrix<T>, targets: &Matrix<T>) -> (r: (
        T,
        Vec<T>,
    )) {
        let kk = self.layer_sizes.len() - 1;
        let n = inputs.rows();
        let mut acts: Vec<Matrix<T>> = Vec::new();
        let mut zs: Vec<Matrix<T>> = Vec::new();
        proof {
            lemma_layer_fits(self.topology(), 0);
        }
        acts.push(inputs.augment_ones());

        // Forward pass: acts[l] enters layer l, zs[l] leaves it.
        let mut l: usize = 0;
        while l < kk - 1
            invariant
                topo_ok(self.topology()),
                total_dim(self.topology()) <= usize::MAX,
                params@.len() == total_dim(self.topology()),
                inputs.wf(),
                kk == self.topology().len() - 1,
                n == inputs.nrows(),
                l <= kk - 1,
                acts@.len() == l + 1,
                zs@.len() == l,
                forall|m: int|
                    0 <= m <= l ==> (#[trigger] acts@[m]).wf() && acts@[m].nrows() == n
                        && acts@[m].ncols() == self.topology()[m] + 1,
                forall|m: int|
                    0 <= m < l ==> (#[trigger] zs@[m]).wf() && zs@[m].nrows() == n
                        && zs@[m].ncols() == self.topology()[m + 1],
            decreases kk - 1 - l,
        {
            proof {
                lemma_layer_fits(self.topology(), l as int);
                lemma_layer_fits(self.topology(), l as int + 1);
            }
            let w = self.get_layer_weights(params, l);
            let z = acts[l].matmul(&w);
            zs.push(z);
            let act = self.criterion.activate(&zs[l]);
            acts.push(act.augment_ones());
            l += 1;
        }
        proof {
            lemma_layer_fits(self.topology(), kk as int - 1);
        }
        let wlast = self.get_layer_weights(params, kk - 1);
        let zlast = acts[kk - 1].matmul(&wlast);
        zs.push(zlast);
        let out = self.criterion.activate(&zs[kk - 1]);

        // Backward pass: deltas_rev[m] is the error leaving layer kk - m.
        let mut deltas_rev: Vec<Matrix<T>> = Vec::new();
        let g_out = self.criterion.grad_activ(&zs[kk - 1]);
        let cg = self.criterion.cost_grad(&out, targets);
        deltas_rev.push(cg.ele_mul(&g_out));
        let mut i: usize = 1;
        while i < kk
            invariant
                topo_ok(self.topology()),
                total_dim(self.topology()) <= usize::MAX,
                params@.len() == total_dim(self.topology()),
                kk == self.topology().len() - 1,
                n == inputs.nrows(),
                inputs.wf(),
                1 <= i <= kk,
                zs@.len() == kk,
                forall|m: int|
                    0 <= m < kk ==> (#[trigger] zs@[m]).wf() && zs@[m].nrows() == n
                        && zs@[m].ncols() == self.topology()[m + 1],
                deltas_rev@.len() == i,
                forall|m: int|
                    0 <= m < i ==> (#[trigger] deltas_rev@[m]).wf() && deltas_rev@[m].nrows() == n
                        && deltas_rev@[m].ncols() == self.topology()[kk - m],
            decreases kk - i,
        {
            let li = kk - i;
            proof {
                lemma_layer_fits(self.topology(), li as int);
            }
            let w = self.get_layer_weights(params, li);
            let wt = w.transpose();
            let prod = deltas_rev[i - 1].matmul(&wt);
            let stripped = prod.drop_first_col();
            let g = self.criterion.grad_activ(&zs[li - 1]);
            deltas_rev.push(stripped.ele_mul(&g));
            i += 1;
        }

        // Gradient assembly, in the layer order of the parameter layout.
        let mut grads: Vec<T> = Vec::new();
        let divisor = T::from_count(n);
        let mut l: usize = 0;
        while l < kk
            invariant
                topo_ok(self.topology()),
                total_dim(self.topology()) <= usize::MAX,
                kk == self.topology().len() - 1,
                n == inputs.nrows(),
                acts@.len() == kk,
                forall|m: int|
                    0 <= m < kk ==> (#[trigger] acts@[m]).wf() && acts@[m].nrows() == n
                        && acts@[m].ncols() == self.topology()[m] + 1,
                deltas_rev@.len() == kk,
                forall|m: int|
                    0 <= m < kk ==> (#[trigger] deltas_rev@[m]).wf() && deltas_rev@[m].nrows() == n
                        && deltas_rev@[m].ncols() == self.topology()[kk - m],
                l <= kk,
                grads@.len() == offset(self.topology(), l as int),
            decreases kk - l,
        {
            let at = acts[l].transpose();
            let block = at.matmul(&deltas_rev[kk - 1 - l]).scale_div(divisor);
            proof {
                lemma_layer_fits(self.topology(), l as int);
                block.lemma_flat_len();
            }
            let mut bv = block.into_vec();
            grads.append(&mut bv);
            l += 1;
        }
        proof {
            assert(grads@.len() == total_dim(self.topology()));
        }
        let cost = self.criterion.cost(&out, targets);
        (cost, grads)
    }
}

} // verus!
