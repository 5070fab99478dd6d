//! A small supervised-learning toolkit built on dense-matrix arithmetic.
//!
//! The crate proves the structural side of first-order training: the layout
//! of the flat parameter vector, the shapes produced by forward and backward
//! propagation, the bookkeeping of the optimizers, and the state machine of
//! each model. Element arithmetic is abstract: every guarantee holds for any
//! implementation of [`scalar::Scalar`] that a caller supplies.

use vstd::prelude::*;

pub mod scalar;
pub mod criterion;
pub mod logistic;
pub mod matrix;
pub mod nnet;
pub mod optim;
pub mod rng;

verus! {

/// Why a `train` or `predict` call was aborted.
///
/// Any detected violation aborts the call before the model is mutated, so a
/// failed call always leaves the previous state untouched.
#[derive(Clone, Copy, Debug, PartialEq, Eq, Structural)]
pub enum Error {
    /// The layer topology has fewer than two layers, an empty layer, or
    /// would need a parameter vector longer than a machine word can index.
    InvalidTopology,
    /// Input, target and topology shapes disagree.
    DimensionError,
    /// `predict` was called on a model that was never trained.
    UntrainedModelError,
}

} // verus!
