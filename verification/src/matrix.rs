//! Dense row-major matrices over an abstract element type.
//!
//! Every operation the training engine needs — product, transpose, bias
//! augmentation, element-wise combination, row selection — is implemented
//! here with explicit, bounds-checked indexing and a contract on the shape
//! of its result. Operations that only move entries also state exactly
//! where every entry goes.

use vstd::prelude::*;
use crate::scalar::Scalar;

verus! {

/// `i * c + j` respects the row-major order: a lexicographically earlier
/// cell has a strictly smaller flat index.
pub proof fn lemma_cell_order(i1: int, j1: int, i2: int, j2: int, c: int)
    requires
        0 <= i1,
        0 <= j1 < c,
        0 <= j2,
        i1 < i2 || (i1 == i2 && j1 < j2),
    ensures
        i1 * c + j1 < i2 * c + j2,
{
    assert(i1 * c + j1 < i2 * c + j2) by (nonlinear_arith)
        requires
            0 <= i1,
            0 <= j1 < c,
            0 <= j2,
            i1 < i2 || (i1 == i2 && j1 < j2),
    ;
}

/// A cell of an `r` by `c` matrix has its flat index inside the data.
pub proof fn lemma_cell_in(i: int, j: int, r: int, c: int)
    requires
        0 <= i < r,
        0 <= j < c,
    ensures
        0 <= i * c + j,
        i * c + j < r * c,
{
    assert(0 <= i * c + j && i * c + j < r * c) by (nonlinear_arith)
        requires
            0 <= i < r,
            0 <= j < c,
    ;
}

/// Closing a row advances the flat position by one row length.
proof fn lemma_row_step(i: int, c: int)
    ensures
        (i + 1) * c == i * c + c,
{
    assert((i + 1) * c == i * c + c) by (nonlinear_arith);
}

/// A dense row-major matrix: `rows * cols` entries in one flat vector.
pub struct Matrix<T> {
    rows: usize,
    cols: usize,
    data: Vec<T>,
}

impl<T> Matrix<T> {
    /// Row count.
    pub closed spec fn nrows(self) -> int {
        self.rows as int
    }

    /// Column count.
    pub closed spec fn ncols(self) -> int {
        self.cols as int
    }

    /// The entries in row-major order.
    pub closed spec fn flat(self) -> Seq<T> {
        self.data@
    }

    /// The storage holds exactly one entry per cell.
    pub closed spec fn wf(self) -> bool {
        self.data@.len() == self.nrows() * self.ncols()
    }

    /// The entry in row `i`, column `j`.
    pub closed spec fn at(self, i: int, j: int) -> T {
        self.data@[i * self.ncols() + j]
    }

    /// The flat storage of a well-formed matrix has one entry per cell.
    pub proof fn lemma_flat_len(self)
        requires
            self.wf(),
        ensures
            self.flat().len() == self.nrows() * self.ncols(),
    {
    }

    /// Wraps `rows * cols` entries, already in row-major order, as a matrix.
    pub fn new(rows: usize, cols: usize, data: Vec<T>) -> (r: Matrix<T>)
        requires
            data@.len() == rows * cols,
        ensures
            r.wf(),
            r.nrows() == rows,
            r.ncols() == cols,
            r.flat() == data@,
            forall|i: int, j: int|
                0 <= i < rows && 0 <= j < cols ==> r.at(i, j) == data@[i * cols + j],
    {
        let r = Matrix { rows, cols, data };
        proof {
            assert forall|i: int, j: int|
                0 <= i < rows && 0 <= j < cols implies r.at(i, j) == r.data@[i * cols + j] by {
                lemma_cell_in(i, j, rows as int, cols as int);
            }
        }
        r
    }

    /// Row count.
    pub fn rows(&self) -> (r: usize)
        ensures
            r == self.nrows(),
    {
        self.rows
    }

    /// Column count.
    pub fn cols(&self) -> (r: usize)
        ensures
            r == self.ncols(),
    {
        self.cols
    }

    /// Gives the entries up, in row-major order.
    pub fn into_vec(self) -> (r: Vec<T>)
        ensures
            r@ == self.flat(),
    {
        self.data
    }
}

impl<T: Copy> Matrix<T> {
    /// The entry in row `i`, column `j`.
    pub fn get(&self, i: usize, j: usize) -> (r: T)
        requires
            self.wf(),
            i < self.nrows(),
            j < self.ncols(),
        ensures
            r == self.at(i as int, j as int),
    {
        let n = self.data.len();
        proof {
            lemma_cell_in(i as int, j as int, self.nrows(), self.ncols());
            assert(i * self.ncols() + j < n);
        }
        self.data[i * self.cols + j]
    }

    /// An entry-for-entry copy.
    pub fn dup(&self) -> (r: Matrix<T>)
        requires
            self.wf(),
        ensures
            r.wf(),
            r.nrows() == self.nrows(),
            r.ncols() == self.ncols(),
            r.flat() == self.flat(),
    {
        let data = crate::scalar::dup_vec(&self.data);
        Matrix { rows: self.rows, cols: self.cols, data }
    }

    /// The transpose: entry `(i, j)` of the result is entry `(j, i)` of the
    /// argument.
    pub fn transpose(&self) -> (r: Matrix<T>)
        requires
            self.wf(),
        ensures
            r.wf(),
            r.nrows() == self.ncols(),
            r.ncols() == self.nrows(),
            forall|i: int, j: int|
                0 <= i < r.nrows() && 0 <= j < r.ncols() ==> r.at(i, j) == self.at(j, i),
    {
        let rr: usize = self.cols;
        let rc: usize = self.rows;
        let mut data: Vec<T> = Vec::new();
        let mut i: usize = 0;
        while i < rr
            invariant
                self.wf(),
                rr == self.ncols(),
                rc == self.nrows(),
                i <= rr,
                data@.len() == i * rc,
                forall|a: int, b: int|
                    0 <= a < i && 0 <= b < rc ==> data@[a * rc + b] == self.at(b, a),
            decreases rr - i,
        {
            let mut j: usize = 0;
            while j < rc
                invariant
                    self.wf(),
                    rr == self.ncols(),
                    rc == self.nrows(),
                    i < rr,
                    j <= rc,
                    data@.len() == i * rc + j,
                    forall|a: int, b: int|
                        0 <= a < i && 0 <= b < rc ==> data@[a * rc + b] == self.at(b, a),
                    forall|b: int| 0 <= b < j ==> data@[i * rc + b] == self.at(b, i as int),
                decreases rc - j,
            {
                data.push(self.get(j, i));
                proof {
                    assert forall|a: int, b: int|
                        0 <= a < i && 0 <= b < rc implies data@[a * rc + b] == self.at(b, a) by {
                        lemma_cell_order(a, b, i as int, j as int, rc as int);
                    }
                    assert forall|b: int|
                        0 <= b < j + 1 implies data@[i * rc + b] == self.at(b, i as int) by {
                        if b < j {
                            lemma_cell_order(i as int, b, i as int, j as int, rc as int);
                        }
                    }
                }
                j += 1;
            }
            proof {
                lemma_row_step(i as int, rc as int);
            }
            i += 1;
        }
        let r = Matrix::new(rr, rc, data);
        r
    }

    /// Keeps the listed rows, in the listed order.
    pub fn select_rows(&self, picks: &Vec<usize>) -> (r: Matrix<T>)
        requires
            self.wf(),
            forall|k: int| 0 <= k < picks@.len() ==> picks@[k] < self.nrows(),
        ensures
            r.wf(),
            r.nrows() == picks@.len(),
            r.ncols() == self.ncols(),
            forall|k: int, j: int|
                0 <= k < r.nrows() && 0 <= j < r.ncols() ==> r.at(k, j) == self.at(
                    picks@[k] as int,
                    j,
                ),
    {
        let rc: usize = self.cols;
        let n: usize = picks.len();
        let mut data: Vec<T> = Vec::new();
        let mut k: usize = 0;
        while k < n
            invariant
                self.wf(),
                rc == self.ncols(),
                n == picks@.len(),
                forall|t: int| 0 <= t < picks@.len() ==> picks@[t] < self.nrows(),
                k <= n,
                data@.len() == k * rc,
                forall|a: int, b: int|
                    0 <= a < k && 0 <= b < rc ==> data@[a * rc + b] == self.at(
                        picks@[a] as int,
                        b,
                    ),
            decreases n - k,
        {
            let row: usize = picks[k];
            let mut j: usize = 0;
            while j < rc
                invariant
                    self.wf(),
                    rc == self.ncols(),
                    n == picks@.len(),
                    forall|t: int| 0 <= t < picks@.len() ==> picks@[t] < self.nrows(),
                    k < n,
                    row == picks@[k as int],
                    row < self.nrows(),
                    j <= rc,
                    data@.len() == k * rc + j,
                    forall|a: int, b: int|
                        0 <= a < k && 0 <= b < rc ==> data@[a * rc + b] == self.at(
                            picks@[a] as int,
                            b,
                        ),
                    forall|b: int| 0 <= b < j ==> data@[k * rc + b] == self.at(row as int, b),
                decreases rc - j,
            {
                data.push(self.get(row, j));
                proof {
                    assert forall|a: int, b: int|
                        0 <= a < k && 0 <= b < rc implies data@[a * rc + b] == self.at(
                        picks@[a] as int,
                        b,
                    ) by {
                        lemma_cell_order(a, b, k as int, j as int, rc as int);
                    }
                    assert forall|b: int|
                        0 <= b < j + 1 implies data@[k * rc + b] == self.at(row as int, b) by {
                        if b < j {
                            lemma_cell_order(k as int, b, k as int, j as int, rc as int);
                        }
                    }
                }
                j += 1;
            }
            proof {
                lemma_row_step(k as int, rc as int);
            }
            k += 1;
        }
        Matrix::new(n, rc, data)
    }

    /// Removes the first column; the remaining entries keep their order.
    pub fn drop_first_col(&self) -> (r: Matrix<T>)
        requires
            self.wf(),
            1 <= self.ncols(),
        ensures
            r.wf(),
            r.nrows() == self.nrows(),
            r.ncols() == self.ncols() - 1,
            forall|i: int, j: int|
                0 <= i < r.nrows() && 0 <= j < r.ncols() ==> r.at(i, j) == self.at(i, j + 1),
    {
        let rr: usize = self.rows;
        let rc: usize = self.cols - 1;
        let mut data: Vec<T> = Vec::new();
        let mut i: usize = 0;
        while i < rr
            invariant
                self.wf(),
                rr == self.nrows(),
                rc == self.ncols() - 1,
                i <= rr,
                data@.len() == i * rc,
                forall|a: int, b: int|
                    #![trigger data@[a * rc + b]]
                    0 <= a < i && 0 <= b < rc ==> data@[a * rc + b] == self.at(a, b + 1),
            decreases rr - i,
        {
            let mut j: usize = 0;
            while j < rc
                invariant
                    self.wf(),
                    rr == self.nrows(),
                    rc == self.ncols() - 1,
                    i < rr,
                    j <= rc,
                    data@.len() == i * rc + j,
                    forall|a: int, b: int|
                        #![trigger data@[a * rc + b]]
                        0 <= a < i && 0 <= b < rc ==> data@[a * rc + b] == self.at(a, b + 1),
                    forall|b: int|
                        #![trigger data@[i * rc + b]]
                        0 <= b < j ==> data@[i * rc + b] == self.at(i as int, b + 1),
                decreases rc - j,
            {
                data.push(self.get(i, j + 1));
                proof {
                    assert forall|a: int, b: int|
                        #![trigger data@[a * rc + b]]
                        0 <= a < i && 0 <= b < rc implies data@[a * rc + b] == self.at(a, b + 1) by {
                        lemma_cell_order(a, b, i as int, j as int, rc as int);
                    }
                    assert forall|b: int|
                        #![trigger data@[i * rc + b]]
                        0 <= b < j + 1 implies data@[i * rc + b] == self.at(i as int, b + 1) by {
                        if b < j {
                            lemma_cell_order(i as int, b, i as int, j as int, rc as int);
                        }
                    }
                }
                j += 1;
            }
            proof {
                lemma_row_step(i as int, rc as int);
            }
            i += 1;
        }
        Matrix::new(rr, rc, data)
    }
}

impl<T: Scalar> Matrix<T> {
    /// A matrix filled with the multiplicative identity.
    pub fn ones(rows: usize, cols: usize) -> (r: Matrix<T>)
        ensures
            r.wf(),
            r.nrows() == rows,
            r.ncols() == cols,
    {
        let mut data: Vec<T> = Vec::new();
        let mut i: usize = 0;
        while i < rows
            invariant
                i <= rows,
                data@.len() == i * cols,
            decreases rows - i,
        {
            let mut j: usize = 0;
            while j < cols
                invariant
                    i < rows,
                    j <= cols,
                    data@.len() == i * cols + j,
                decreases cols - j,
            {
                data.push(T::one());
                j += 1;
            }
            proof {
                lemma_row_step(i as int, cols as int);
            }
            i += 1;
        }
        Matrix::new(rows, cols, data)
    }

    /// Prepends a column of ones: the bias augmentation of a batch. Entry
    /// `(i, 0)` of the result is one; entry `(i, j + 1)` is entry `(i, j)`
    /// of the argument.
    pub fn augment_ones(&self) -> (r: Matrix<T>)
        requires
            self.wf(),
            self.ncols() + 1 <= usize::MAX,
        ensures
            r.wf(),
            r.nrows() == self.nrows(),
            r.ncols() == self.ncols() + 1,
            forall|i: int, j: int|
                0 <= i < r.nrows() && 1 <= j < r.ncols() ==> r.at(i, j) == self.at(i, j - 1),
    {
        let rr: usize = self.rows;
        let rc: usize = self.cols + 1;
        let mut data: Vec<T> = Vec::new();
        let mut i: usize = 0;
        while i < rr
            invariant
                self.wf(),
                rr == self.nrows(),
                rc == self.ncols() + 1,
                i <= rr,
                data@.len() == i * rc,
                forall|a: int, b: int|
                    #![trigger data@[a * rc + b]]
                    0 <= a < i && 1 <= b < rc ==> data@[a * rc + b] == self.at(a, b - 1),
            decreases rr - i,
        {
            let mut j: usize = 0;
            while j < rc
                invariant
                    self.wf(),
                    rr == self.nrows(),
                    rc == self.ncols() + 1,
                    i < rr,
                    j <= rc,
                    data@.len() == i * rc + j,
                    forall|a: int, b: int|
                        #![trigger data@[a * rc + b]]
                        0 <= a < i && 1 <= b < rc ==> data@[a * rc + b] == self.at(a, b - 1),
                    forall|b: int|
                        #![trigger data@[i * rc + b]]
                        1 <= b < j ==> data@[i * rc + b] == self.at(i as int, b - 1),
                decreases rc - j,
            {
                if j == 0 {
                    data.push(T::one());
                } else {
                    data.push(self.get(i, j - 1));
                }
                proof {
                    assert forall|a: int, b: int|
                        #![trigger data@[a * rc + b]]
                        0 <= a < i && 1 <= b < rc implies data@[a * rc + b] == self.at(a, b - 1) by {
                        lemma_cell_order(a, b, i as int, j as int, rc as int);
                    }
                    assert forall|b: int|
                        #![trigger data@[i * rc + b]]
                        1 <= b < j + 1 implies data@[i * rc + b] == self.at(i as int, b - 1) by {
                        if b < j {
                            lemma_cell_order(i as int, b, i as int, j as int, rc as int);
                        }
                    }
                }
                j += 1;
            }
            proof {
                lemma_row_step(i as int, rc as int);
            }
            i += 1;
        }
        Matrix::new(rr, rc, data)
    }

    /// The matrix product.
    pub fn matmul(&self, other: &Matrix<T>) -> (r: Matrix<T>)
        requires
            self.wf(),
            other.wf(),
            self.ncols() == other.nrows(),
        ensures
            r.wf(),
            r.nrows() == self.nrows(),
            r.ncols() == other.ncols(),
    {
        let rr: usize = self.rows;
        let rc: usize = other.cols;
        let inner: usize = self.cols;
        let mut data: Vec<T> = Vec::new();
        let mut i: usize = 0;
        while i < rr
            invariant
                self.wf(),
                other.wf(),
                self.ncols() == other.nrows(),
                rr == self.nrows(),
                rc == other.ncols(),
                inner == self.ncols(),
                i <= rr,
                data@.len() == i * rc,
            decreases rr - i,
        {
            let mut j: usize = 0;
            while j < rc
                invariant
                    self.wf(),
                    other.wf(),
                    self.ncols() == other.nrows(),
                    rr == self.nrows(),
                    rc == other.ncols(),
                    inner == self.ncols(),
                    i < rr,
                    j <= rc,
                    data@.len() == i * rc + j,
                decreases rc - j,
            {
                let mut acc: T = T::zero();
                let mut k: usize = 0;
                while k < inner
                    invariant
                        self.wf(),
                        other.wf(),
                        self.ncols() == other.nrows(),
                        rr == self.nrows(),
                        rc == other.ncols(),
                        inner == self.ncols(),
                        i < rr,
                        j < rc,
                        k <= inner,
                    decreases inner - k,
                {
                    acc = acc.plus(self.get(i, k).times(other.get(k, j)));
                    k += 1;
                }
                data.push(acc);
                j += 1;
            }
            proof {
                lemma_row_step(i as int, rc as int);
            }
            i += 1;
        }
        Matrix::new(rr, rc, data)
    }

    /// The element-wise (Hadamard) product.
    pub fn ele_mul(&self, other: &Matrix<T>) -> (r: Matrix<T>)
        requires
            self.wf(),
            other.wf(),
            self.nrows() == other.nrows(),
            self.ncols() == other.ncols(),
        ensures
            r.wf(),
            r.nrows() == self.nrows(),
            r.ncols() == self.ncols(),
    {
        self.zip_cells(other, 0u8)
    }

    /// The element-wise difference.
    pub fn ele_sub(&self, other: &Matrix<T>) -> (r: Matrix<T>)
        requires
            self.wf(),
            other.wf(),
            self.nrows() == other.nrows(),
            self.ncols() == other.ncols(),
        ensures
            r.wf(),
            r.nrows() == self.nrows(),
            r.ncols() == self.ncols(),
    {
        self.zip_cells(other, 1u8)
    }

    /// The element-wise quotient.
    pub fn ele_div(&self, other: &Matrix<T>) -> (r: Matrix<T>)
        requires
            self.wf(),
            other.wf(),
            self.nrows() == other.nrows(),
            self.ncols() == other.ncols(),
        ensures
            r.wf(),
            r.nrows() == self.nrows(),
            r.ncols() == self.ncols(),
    {
        self.zip_cells(other, 2u8)
    }

    /// Combines two matrices of one shape cell by cell; `op` selects the
    /// product, the difference or the quotient.
    fn zip_cells(&self, other: &Matrix<T>, op: u8) -> (r: Matrix<T>)
        requires
            self.wf(),
            other.wf(),
            self.nrows() == other.nrows(),
            self.ncols() == other.ncols(),
        ensures
            r.wf(),
            r.nrows() == self.nrows(),
            r.ncols() == self.ncols(),
    {
        let rr: usize = self.rows;
        let rc: usize = self.cols;
        let mut data: Vec<T> = Vec::new();
        let mut i: usize = 0;
        while i < rr
            invariant
                self.wf(),
                other.wf(),
                self.nrows() == other.nrows(),
                self.ncols() == other.ncols(),
                rr == self.nrows(),
                rc == self.ncols(),
                i <= rr,
                data@.len() == i * rc,
            decreases rr - i,
        {
            let mut j: usize = 0;
            while j < rc
                invariant
                    self.wf(),
                    other.wf(),
                    self.nrows() == other.nrows(),
                    self.ncols() == other.ncols(),
                    rr == self.nrows(),
                    rc == self.ncols(),
                    i < rr,
                    j <= rc,
                    data@.len() == i * rc + j,
                decreases rc - j,
            {
                let a = self.get(i, j);
                let b = other.get(i, j);
                let v = if op == 0 {
                    a.times(b)
                } else if op == 1 {
                    a.minus(b)
                } else {
                    a.divide(b)
                };
                data.push(v);
                j += 1;
            }
            proof {
                lemma_row_step(i as int, rc as int);
            }
            i += 1;
        }
        Matrix::new(rr, rc, data)
    }

    /// Divides every entry by `d`; used to average a gradient over a batch.
    pub fn scale_div(&self, d: T) -> (r: Matrix<T>)
        requires
            self.wf(),
        ensures
            r.wf(),
            r.nrows() == self.nrows(),
            r.ncols() == self.ncols(),
    {
        let rr: usize = self.rows;
        let rc: usize = self.cols;
        let mut data: Vec<T> = Vec::new();
        let mut i: usize = 0;
        while i < rr
            invariant
                self.wf(),
                rr == self.nrows(),
                rc == self.ncols(),
                i <= rr,
                data@.len() == i * rc,
            decreases rr - i,
        {
            let mut j: usize = 0;
            while j < rc
                invariant
                    self.wf(),
                    rr == self.nrows(),
                    rc == self.ncols(),
                    i < rr,
                    j <= rc,
                    data@.len() == i * rc + j,
                decreases rc - j,
            {
                data.push(self.get(i, j).divide(d));
                j += 1;
            }
            proof {
                lemma_row_step(i as int, rc as int);
            }
            i += 1;
        }
        Matrix::new(rr, rc, data)
    }

    /// The sum of all entries, in row-major order.
    pub fn sum_all(&self) -> T
        requires
            self.wf(),
    {
        let mut acc: T = T::zero();
        let mut i: usize = 0;
        while i < self.rows
            invariant
                self.wf(),
                i <= self.nrows(),
            decreases self.nrows() - i,
        {
            let mut j: usize = 0;
            while j < self.cols
                invariant
                    self.wf(),
                    i < self.nrows(),
                    j <= self.ncols(),
                decreases self.ncols() - j,
            {
                acc = acc.plus(self.get(i, j));
                j += 1;
            }
            i += 1;
        }
        acc
    }
}

} // verus!
