//! A dense rectangular grid of scalars with multiplication.
//!
//! The grid is stored row-major: element (row, col) sits at index
//! `row * width + col`.  Construction demands that the data length be
//! exactly `height * width`, and multiplication demands that the left
//! width equal the right height; both violations are programmer errors
//! and are reported, never coerced.

use vstd::prelude::*;

use vstd::string::StringExecFns;

use crate::float::{scalar_eq, Float};
use crate::fp::{add_bits, mul_bits, ZERO_BITS};

verus! {

/// The mathematical shape of a matrix: its dimensions and its row-major
/// grid of scalar patterns.
pub struct MatrixShape {
    pub height: nat,
    pub width: nat,
    pub data: Seq<u64>,
}

/// The left-to-right partial dot product of row `i` of `a` and column
/// `j` of `b`, over the first `k` terms, accumulated from a zero
/// scalar exactly as the multiplication loop does.
pub open spec fn cell_partial_bits(a: MatrixShape, b: MatrixShape, i: int, j: int, k: int) -> u64
    decreases k,
{
    if k <= 0 {
        ZERO_BITS
    } else {
        add_bits(
            cell_partial_bits(a, b, i, j, k - 1),
            mul_bits(a.data[i * a.width + (k - 1)], b.data[(k - 1) * b.width + j]),
        )
    }
}

/// Cell (i, j) of the product of `a` and `b`: the full dot product over
/// the shared dimension.
pub open spec fn cell_bits(a: MatrixShape, b: MatrixShape, i: int, j: int) -> u64 {
    cell_partial_bits(a, b, i, j, a.width as int)
}

/// Equality of two matrices: identical shape and pairwise equality of
/// the stored scalars under the epsilon rule.
pub open spec fn matrix_eq(a: MatrixShape, b: MatrixShape) -> bool {
    &&& a.height == b.height
    &&& a.width == b.width
    &&& forall|i: int| 0 <= i < a.data.len() ==> scalar_eq(#[trigger] a.data[i], b.data[i])
}

/// A dense matrix of scalars with explicit height and width.
#[derive(Debug)]
pub struct Matrix {
    height: usize,
    width: usize,
    data: Vec<Float>,
}

impl View for Matrix {
    type V = MatrixShape;

    closed spec fn view(&self) -> MatrixShape {
        MatrixShape {
            height: self.height as nat,
            width: self.width as nat,
            data: Seq::new(self.data@.len(), |i: int| self.data@[i]@),
        }
    }
}

impl Matrix {
    /// The stored data always covers the grid exactly.
    #[verifier::type_invariant]
    spec fn well_shaped(self) -> bool {
        self.data@.len() == self.height * self.width
    }

    /// Builds a matrix from its dimensions and row-major data; a data
    /// length different from `height * width` is a programmer error and
    /// is reported as such.
    pub fn from_vec(height: usize, width: usize, data: Vec<Float>) -> (r: Result<Matrix, String>)
        ensures
            r is Ok <==> height * width == data@.len(),
            r matches Ok(m) ==> m@.height == height && m@.width == width && m@.data == Seq::new(
                data@.len(),
                |i: int| data@[i]@,
            ),
            r matches Err(e) ==> e@ == "dimension mismatched"@,
    {
        let data_len = data.len();
        let fits = match height.checked_mul(width) {
            Some(total) => total == data_len,
            None => false,
        };
        if !fits {
            return Err(String::from_str("dimension mismatched"));
        }
        Ok(Matrix { height, width, data })
    }

    /// The scalar at (row, col).  An index outside the grid is a
    /// programmer error: the caller must stay inside the dimensions.
    pub fn value_at(&self, row: usize, col: usize) -> (r: Float)
        requires
            row < self@.height,
            col < self@.width,
        ensures
            r@ == self@.data[row * self@.width + col],
    {
        proof {
            use_type_invariant(self);
            lemma_index_in_grid(
                self@.height as int,
                self@.width as int,
                row as int,
                col as int,
            );
        }
        let _len = self.data.len();
        self.data[row * self.width + col]
    }

    /// The matrix product.  A left width different from the right
    /// height is a programmer error and is reported; otherwise the
    /// result has the left height and the right width, and cell (i, j)
    /// is the dot product of row i of the left matrix and column j of
    /// the right one, accumulated left to right from a zero scalar.
    pub fn mul(&self, other: &Matrix) -> (r: Result<Matrix, String>)
        ensures
            r is Ok <==> self@.width == other@.height,
            r matches Ok(m) ==> m@.height == self@.height && m@.width == other@.width
                && m@.data.len() == self@.height * other@.width && forall|i: int, j: int|
                0 <= i < self@.height && 0 <= j < other@.width ==> #[trigger] m@.data[i
                * other@.width + j] == cell_bits(self@, other@, i, j),
            r matches Err(e) ==> e@ == "Dimension mismatched"@,
    {
        proof {
            use_type_invariant(self);
            use_type_invariant(other);
        }
        if self.width != other.height {
            return Err(String::from_str("Dimension mismatched"));
        }
        let _self_len = self.data.len();
        let _other_len = other.data.len();
        let new_height = self.height;
        let new_width = other.width;
        let mut new_data: Vec<Float> = Vec::new();
        let mut i: usize = 0;
        while i < new_height
            invariant
                self@.width == other@.height,
                new_height == self@.height,
                new_width == other@.width,
                self.well_shaped(),
                other.well_shaped(),
                i <= new_height,
                new_data@.len() == i * new_width,
                forall|a: int, b: int|
                    0 <= a < i && 0 <= b < new_width ==> #[trigger] new_data@[a * new_width + b]@
                        == cell_bits(self@, other@, a, b),
            decreases new_height - i,
        {
            let mut j: usize = 0;
            while j < new_width
                invariant
                    self@.width == other@.height,
                    new_height == self@.height,
                    new_width == other@.width,
                    self.well_shaped(),
                    other.well_shaped(),
                    i < new_height,
                    j <= new_width,
                    new_data@.len() == i * new_width + j,
                    forall|a: int, b: int|
                        0 <= a < i && 0 <= b < new_width ==> #[trigger] new_data@[a * new_width
                            + b]@ == cell_bits(self@, other@, a, b),
                    forall|b: int|
                        0 <= b < j ==> #[trigger] new_data@[i * new_width + b]@ == cell_bits(
                            self@,
                            other@,
                            i as int,
                            b,
                        ),
                decreases new_width - j,
            {
                let mut sum = Float::new(ZERO_BITS);
                let mut m: usize = 0;
                while m < self.width
                    invariant
                        self@.width == other@.height,
                        self.well_shaped(),
                        other.well_shaped(),
                        i < self@.height,
                        j < other@.width,
                        m <= self@.width,
                        sum@ == cell_partial_bits(self@, other@, i as int, j as int, m as int),
                    decreases self.width - m,
                {
                    proof {
                        lemma_index_in_grid(
                            self@.height as int,
                            self@.width as int,
                            i as int,
                            m as int,
                        );
                        lemma_index_in_grid(
                            other@.height as int,
                            other@.width as int,
                            m as int,
                            j as int,
                        );
                    }
                    let _left_len = self.data.len();
                    let _right_len = other.data.len();
                    let left = self.data[i * self.width + m];
                    let right = other.data[m * other.width + j];
                    sum = sum.add(left.mul(right));
                    m = m + 1;
                }
                proof {
                    lemma_index_in_grid(
                        new_height as int,
                        new_width as int,
                        i as int,
                        j as int,
                    );
                }
                new_data.push(sum);
                proof {
                    assert forall|a: int, b: int|
                        0 <= a < i && 0 <= b < new_width implies #[trigger] new_data@[a
                        * (new_width as int) + b]@ == cell_bits(self@, other@, a, b) by {
                        lemma_index_in_grid(i as int, new_width as int, a, b);
                    };
                }
                j = j + 1;
            }
            proof {
                assert((i + 1) * (new_width as int) == i * (new_width as int) + new_width)
                    by (nonlinear_arith);
            }
            i = i + 1;
        }
        let ghost nd = new_data@;
        let result = Matrix::from_vec(new_height, new_width, new_data);
        proof {
            match &result {
                Ok(mm) => {
                    assert forall|a: int, b: int|
                        0 <= a < self@.height && 0 <= b < other@.width implies #[trigger] mm@.data[a
                        * other@.width + b] == cell_bits(self@, other@, a, b) by {
                        lemma_index_in_grid(self@.height as int, other@.width as int, a, b);
                        assert(nd[a * (new_width as int) + b]@ == cell_bits(self@, other@, a, b));
                    };
                },
                Err(_) => {},
            }
        }
        result
    }
}

impl PartialEq for Matrix {
    /// Identical shape and pairwise scalar equality of the grids.
    fn eq(&self, other: &Self) -> (r: bool)
        ensures
            r == matrix_eq(self@, other@),
    {
        proof {
            use_type_invariant(self);
            use_type_invariant(other);
        }
        if self.width != other.width || self.height != other.height {
            return false;
        }
        let _self_len = self.data.len();
        let _other_len = other.data.len();
        proof {
            vstd::arithmetic::mul::lemma_mul_is_commutative(
                self@.width as int,
                self@.height as int,
            );
        }
        let total = self.width * self.height;
        let mut i: usize = 0;
        while i < total
            invariant
                self.well_shaped(),
                other.well_shaped(),
                self@.width == other@.width,
                self@.height == other@.height,
                total == self@.width * self@.height,
                i <= total,
                forall|k: int| 0 <= k < i ==> scalar_eq(#[trigger] self@.data[k], other@.data[k]),
            decreases total - i,
        {
            proof {
                vstd::arithmetic::mul::lemma_mul_is_commutative(
                    self@.width as int,
                    self@.height as int,
                );
            }
            if self.data[i] != other.data[i] {
                proof {
                    assert(0 <= i < self@.data.len());
                    assert(!scalar_eq(self@.data[i as int], other@.data[i as int]));
                }
                return false;
            }
            i = i + 1;
        }
        proof {
            vstd::arithmetic::mul::lemma_mul_is_commutative(
                self@.width as int,
                self@.height as int,
            );
        }
        true
    }
}

impl vstd::std_specs::cmp::PartialEqSpecImpl for Matrix {
    open spec fn obeys_eq_spec() -> bool {
        true
    }

    open spec fn eq_spec(&self, other: &Matrix) -> bool {
        matrix_eq(self@, other@)
    }
}

/// Row-major indexing stays inside the grid: with row < height and
/// col < width, the index row * width + col lies below height * width.
proof fn lemma_index_in_grid(height: int, width: int, row: int, col: int)
    requires
        0 <= row < height,
        0 <= col < width,
    ensures
        0 <= row * width + col < height * width,
        row * width + col < height * width,
{
    assert(row * width + col < height * width) by (nonlinear_arith)
        requires
            0 <= row < height,
            0 <= col < width,
    ;
    assert(0 <= row * width) by (nonlinear_arith)
        requires
            0 <= row,
            0 <= width,
    ;
}

} // verus!
