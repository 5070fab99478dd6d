//! Logistic regression: the minimal consumer of the optimization
//! contract.
//!
//! One sigmoid "layer" over a bias-augmented input batch, with a fixed
//! logistic/cross-entropy pairing, trained by full-batch gradient descent.
//! The model starts untrained — an explicit tag, not an absent value — and
//! each successful `train` call replaces the whole parameter vector.

use vstd::prelude::*;
use crate::criterion::{BCECriterion, Criterion};
use crate::matrix::Matrix;
use crate::optim::{GradientDesc, Optimizable};
use crate::scalar::{dup_vec, Scalar};
use crate::Error;

verus! {

/// Whether a model has been fitted yet, and with what.
pub enum ParamState<T> {
    /// No parameter vector yet: `predict` must refuse to run.
    Untrained,
    /// A fitted flat parameter vector: intercept first, then one weight
    /// per input column.
    Trained(Vec<T>),
}

/// The logistic regression model.
pub struct LogisticRegressor<T> {
    state: ParamState<T>,
    gd: GradientDesc<T>,
}

impl<T: Scalar> LogisticRegressor<T> {
    /// Whether any `train` call has succeeded yet.
    pub closed spec fn trained(self) -> bool {
        self.state is Trained
    }

    /// The fitted parameter vector (meaningful only when trained).
    pub closed spec fn model_params(self) -> Seq<T> {
        match self.state {
            ParamState::Trained(p) => p@,
            ParamState::Untrained => Seq::empty(),
        }
    }

    /// The optimizer configuration the model trains with.
    pub closed spec fn config(self) -> GradientDesc<T> {
        self.gd
    }

    /// An untrained model that will train with the given optimizer.
    pub fn new(gd: GradientDesc<T>) -> (r: LogisticRegressor<T>)
        ensures
            !r.trained(),
            r.config() == gd,
    {
        LogisticRegressor { state: ParamState::Untrained, gd }
    }

    /// The current parameters — intercept first — or nothing if the model
    /// was never trained.
    pub fn parameters(&self) -> (r: Option<Vec<T>>)
        ensures
            match r {
                Some(p) => self.trained() && p@ == self.model_params(),
                None => !self.trained(),
            },
    {
        match &self.state {
            ParamState::Untrained => None,
            ParamState::Trained(p) => Some(dup_vec(p)),
        }
    }

    /// Fits the model: bias-augments the inputs, starts every parameter at
    /// one half, and runs the configured gradient descent. Fails exactly
    /// when the targets are not one column of the inputs' row count (or
    /// the augmented width would not fit in a machine word), and a failed
    /// call leaves the model untouched.
    pub fn train(&mut self, inputs: &Matrix<T>, targets: &Matrix<T>) -> (r: Result<(), Error>)
        requires
            inputs.wf(),
            targets.wf(),
        ensures
            final(self).config() == old(self).config(),
            match r {
                Ok(()) => targets.ncols() == 1 && targets.nrows() == inputs.nrows()
                    && inputs.ncols() + 1 <= usize::MAX && final(self).trained()
                    && final(self).model_params().len() == inputs.ncols() + 1,
                Err(e) => e == Error::DimensionError && *final(self) == *old(self) && !(
                targets.ncols() == 1 && targets.nrows() == inputs.nrows() && inputs.ncols() + 1
                    <= usize::MAX),
            },
    {
        if targets.cols() != 1 || targets.rows() != inputs.rows() || inputs.cols() == usize::MAX {
            return Err(Error::DimensionError);
        }
        let full = inputs.augment_ones();
        let half = T::one().divide(T::one().plus(T::one()));
        let c = full.cols();
        let mut init: Vec<T> = Vec::new();
        let mut i: usize = 0;
        while i < c
            invariant
                i <= c,
                init@.len() == i,
            decreases c - i,
        {
            init.push(half);
            i += 1;
        }
        let gd = self.gd;
        let optimal = gd.optimize(self, &init, &full, targets);
        self.state = ParamState::Trained(optimal);
        Ok(())
    }

    /// One forward pass against the fitted parameters: bias-augment,
    /// multiply by the parameter column, apply the logistic function.
    /// Fails with `UntrainedModelError` before any successful `train`, and
    /// with `DimensionError` when the augmented width is not the parameter
    /// count.
    pub fn predict(&self, inputs: &Matrix<T>) -> (r: Result<Matrix<T>, Error>)
        requires
            inputs.wf(),
        ensures
            match r {
                Ok(out) => self.trained() && inputs.ncols() + 1 == self.model_params().len()
                    && out.wf() && out.nrows() == inputs.nrows() && out.ncols() == 1,
                Err(e) => (e == Error::UntrainedModelError && !self.trained()) || (e
                    == Error::DimensionError && self.trained() && inputs.ncols() + 1
                    != self.model_params().len()),
            },
    {
        match &self.state {
            ParamState::Untrained => Err(Error::UntrainedModelError),
            ParamState::Trained(p) => {
                let pl = p.len();
                if inputs.cols() == usize::MAX {
                    return Err(Error::DimensionError);
                }
                if inputs.cols() + 1 != pl {
                    return Err(Error::DimensionError);
                }
                let full = inputs.augment_ones();
                let w = Matrix::new(p.len(), 1, dup_vec(p));
                let z = full.matmul(&w);
                let crit = BCECriterion;
                Ok(crit.activate(&z))
            },
        }
    }
}

impl<T: Scalar> Default for LogisticRegressor<T> {
    /// An untrained model with the default gradient descent
    /// configuration.
    fn default() -> (r: LogisticRegressor<T>)
        ensures
            !r.trained(),
            r.config().iters == 100,
    {
        LogisticRegressor { state: ParamState::Untrained, gd: Default::default() }
    }
}

impl<T: Scalar> Optimizable<T> for LogisticRegressor<T> {
    /// A gradient evaluation fits when the parameter vector has one entry
    /// per input column — the inputs are already bias-augmented here —
    /// and the targets are one column of the same row count.
    open spec fn grad_ok(&self, params: Seq<T>, inputs: Matrix<T>, targets: Matrix<T>) -> bool {
        &&& inputs.wf()
        &&& targets.wf()
        &&& params.len() == inputs.ncols()
        &&& targets.ncols() == 1
        &&& targets.nrows() == inputs.nrows()
    }

    /// The cost is the cross-entropy of `sigmoid(inputs x params)` against
    /// the targets; the gradient is `inputs^T (outputs - targets)`
    /// averaged over the rows — one entry per parameter, in parameter
    /// order.
    fn compute_grad(&self, params: &Vec<T>, inputs: &Matrix<T>, targets: &Matrix<T>) -> (r: (
        T,
        Vec<T>,
    )) {
        let w = Matrix::new(params.len(), 1, dup_vec(params));
        let z = inputs.matmul(&w);
        let crit = BCECriterion;
        let outputs = crit.activate(&z);
        let cost = crit.cost(&outputs, targets);
        let diff = outputs.ele_sub(targets);
        let grad_m = inputs.transpose().matmul(&diff).scale_div(T::from_count(inputs.rows()));
        proof {
            grad_m.lemma_flat_len();
        }
        (cost, grad_m.into_vec())
    }
}

} // verus!
