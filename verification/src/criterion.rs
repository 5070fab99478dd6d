//! Criteria: an activation strategy paired with a cost strategy.
//!
//! The network engine is agnostic to the concrete functions; it relies only
//! on the shape contracts below. A criterion must keep its four operations
//! consistent with one another — `grad_activ` the derivative of `activate`,
//! `cost_grad` the per-example derivative of `cost` — for the gradients the
//! engine assembles to be gradients of the cost it reports.

use vstd::prelude::*;
use crate::matrix::Matrix;
use crate::scalar::Scalar;

verus! {

/// An activation function with its derivative, and a cost function with its
/// derivative, used together throughout one network's training and
/// inference.
pub trait Criterion<T: Scalar> {
    /// Applies the activation function element-wise to a pre-activation
    /// batch.
    fn activate(&self, m: &Matrix<T>) -> (r: Matrix<T>)
        requires
            m.wf(),
        ensures
            r.wf(),
            r.nrows() == m.nrows(),
            r.ncols() == m.ncols(),
    ;

    /// The element-wise derivative of the activation function at each
    /// pre-activation entry.
    fn grad_activ(&self, m: &Matrix<T>) -> (r: Matrix<T>)
        requires
            m.wf(),
        ensures
            r.wf(),
            r.nrows() == m.nrows(),
            r.ncols() == m.ncols(),
    ;

    /// The scalar training cost of a predicted batch against its targets,
    /// averaged over the batch rows.
    fn cost(&self, outputs: &Matrix<T>, targets: &Matrix<T>) -> (r: T)
        requires
            outputs.wf(),
            targets.wf(),
            outputs.nrows() == targets.nrows(),
            outputs.ncols() == targets.ncols(),
    ;

    /// The element-wise derivative of the per-example cost with respect to
    /// each predicted entry.
    fn cost_grad(&self, outputs: &Matrix<T>, targets: &Matrix<T>) -> (r: Matrix<T>)
        requires
            outputs.wf(),
            targets.wf(),
            outputs.nrows() == targets.nrows(),
            outputs.ncols() == targets.ncols(),
        ensures
            r.wf(),
            r.nrows() == outputs.nrows(),
            r.ncols() == outputs.ncols(),
    ;
}

/// The logistic function of one entry.
fn sigmoid_val<T: Scalar>(x: T) -> T {
    T::one().divide(T::one().plus(x.neg().exp()))
}

/// Maps a fixed elementary function over every entry; `op` selects the
/// logistic function, its derivative, or the constant one.
fn map_cells<T: Scalar>(m: &Matrix<T>, op: u8) -> (r: Matrix<T>)
    requires
        m.wf(),
    ensures
        r.wf(),
        r.nrows() == m.nrows(),
        r.ncols() == m.ncols(),
{
    let rr: usize = m.rows();
    let rc: usize = m.cols();
    let mut data: Vec<T> = Vec::new();
    let mut i: usize = 0;
    while i < rr
        invariant
            m.wf(),
            rr == m.nrows(),
            rc == m.ncols(),
            i <= rr,
            data@.len() == i * rc,
        decreases rr - i,
    {
        let mut j: usize = 0;
        while j < rc
            invariant
                m.wf(),
                rr == m.nrows(),
                rc == m.ncols(),
                i < rr,
                j <= rc,
                data@.len() == i * rc + j,
            decreases rc - j,
        {
            let x = m.get(i, j);
            let v = if op == 0 {
                sigmoid_val(x)
            } else if op == 1 {
                let s = sigmoid_val(x);
                s.times(T::one().minus(s))
            } else {
                T::one()
            };
            data.push(v);
            j += 1;
        }
        proof {
            assert((i + 1) * rc == i * rc + rc) by (nonlinear_arith);
        }
        i += 1;
    }
    Matrix::new(rr, rc, data)
}

/// The binary cross-entropy criterion: the logistic activation with the
/// cross-entropy cost.
pub struct BCECriterion;

impl<T: Scalar> Criterion<T> for BCECriterion {
    fn activate(&self, m: &Matrix<T>) -> (r: Matrix<T>) {
        map_cells(m, 0)
    }

    fn grad_activ(&self, m: &Matrix<T>) -> (r: Matrix<T>) {
        map_cells(m, 1)
    }

    /// `-(sum of t*ln(o) + (1-t)*ln(1-o)) / rows`.
    fn cost(&self, outputs: &Matrix<T>, targets: &Matrix<T>) -> (r: T) {
        let rr: usize = outputs.rows();
        let rc: usize = outputs.cols();
        let mut acc: T = T::zero();
        let mut i: usize = 0;
        while i < rr
            invariant
                outputs.wf(),
                targets.wf(),
                outputs.nrows() == targets.nrows(),
                outputs.ncols() == targets.ncols(),
                rr == outputs.nrows(),
                rc == outputs.ncols(),
                i <= rr,
            decreases rr - i,
        {
            let mut j: usize = 0;
            while j < rc
                invariant
                    outputs.wf(),
                    targets.wf(),
                    outputs.nrows() == targets.nrows(),
                    outputs.ncols() == targets.ncols(),
                    rr == outputs.nrows(),
                    rc == outputs.ncols(),
                    i < rr,
                    j <= rc,
                decreases rc - j,
            {
                let o = outputs.get(i, j);
                let t = targets.get(i, j);
                let term = t.times(o.ln()).plus(
                    T::one().minus(t).times(T::one().minus(o).ln()),
                );
                acc = acc.plus(term);
                j += 1;
            }
            i += 1;
        }
        acc.neg().divide(T::from_count(rr))
    }

    /// `(o - t) / (o * (1 - o))`, entry by entry: the per-example
    /// derivative of the cross-entropy cost.
    fn cost_grad(&self, outputs: &Matrix<T>, targets: &Matrix<T>) -> (r: Matrix<T>) {
        let diff = outputs.ele_sub(targets);
        let ones: Matrix<T> = Matrix::ones(outputs.rows(), outputs.cols());
        let den = outputs.ele_mul(&ones.ele_sub(outputs));
        diff.ele_div(&den)
    }
}

/// The mean-squared-error criterion: the identity activation with the
/// squared-error cost.
pub struct MSECriterion;

impl<T: Scalar> Criterion<T> for MSECriterion {
    /// The identity: the entries pass through unchanged.
    fn activate(&self, m: &Matrix<T>) -> (r: Matrix<T>)
        ensures
            r.flat() == m.flat(),
    {
        m.dup()
    }

    /// The derivative of the identity: every entry one.
    fn grad_activ(&self, m: &Matrix<T>) -> (r: Matrix<T>) {
        map_cells(m, 2)
    }

    /// `(sum of (o - t)^2) / (2 * rows)`.
    fn cost(&self, outputs: &Matrix<T>, targets: &Matrix<T>) -> (r: T) {
        let diff = outputs.ele_sub(targets);
        let sq = diff.ele_mul(&diff);
        let two = T::one().plus(T::one());
        sq.sum_all().divide(two).divide(T::from_count(outputs.rows()))
    }

    /// `o - t`, entry by entry: the per-example derivative of the
    /// squared-error cost.
    fn cost_grad(&self, outputs: &Matrix<T>, targets: &Matrix<T>) -> (r: Matrix<T>) {
        outputs.ele_sub(targets)
    }
}

} // verus!
