//! A two-dimensional table of elements kept row by row in one contiguous buffer.

use vstd::prelude::*;
use vstd::slice::slice_subrange;

verus! {

/// The rows of a buffer laid out row by row, `width` elements to a row.
pub open spec fn row_chunks<T>(data: Seq<T>, width: nat) -> Seq<Seq<T>>
    recommends
        width > 0,
{
    Seq::new(
        data.len() / width,
        |i: int| data.subrange(i * width, i * width + width),
    )
}

proof fn lemma_row_in_bounds(i: int, width: int, rows: int)
    requires
        0 <= i < rows,
        0 <= width,
    ensures
        0 <= i * width,
        i * width + width <= rows * width,
{
    assert(0 <= i * width) by (nonlinear_arith)
        requires
            0 <= i,
            0 <= width,
    ;
    assert(i * width + width <= rows * width) by (nonlinear_arith)
        requires
            i + 1 <= rows,
            0 <= width,
    ;
}

/// A matrix of elements stored in row-major order.
pub struct RowMatrix<T> {
    data: Vec<T>,
    row_width: usize,
    num_rows: usize,
}

impl<T> View for RowMatrix<T> {
    type V = Seq<Seq<T>>;

    /// The rows of the matrix, in order.
    closed spec fn view(&self) -> Seq<Seq<T>> {
        Seq::new(
            self.num_rows as nat,
            |i: int|
                self.data@.subrange(
                    i * self.row_width,
                    i * self.row_width + self.row_width,
                ),
        )
    }
}

impl<T> RowMatrix<T> {
    #[verifier::type_invariant]
    spec fn inv(self) -> bool {
        self.data@.len() == self.row_width * self.num_rows
    }

    /// The number of columns of the matrix.
    pub closed spec fn width(&self) -> nat {
        self.row_width as nat
    }

    /// Builds a matrix from a row-major buffer whose rows hold `row_width` elements
    /// each. Fails when `row_width` is zero or the buffer does not split into whole
    /// rows.
    pub fn new(data: Vec<T>, row_width: usize) -> (r: Option<Self>)
        ensures
            r is Some <==> row_width > 0 && data@.len() % (row_width as nat) == 0,
            r matches Some(m) ==> m@ == row_chunks(data@, row_width as nat) && m.width()
                == row_width,
    {
        if row_width == 0 || data.len() % row_width != 0 {
            return None;
        }
        let num_rows: usize = data.len() / row_width;
        let ghost d = data@;
        proof {
            vstd::arithmetic::div_mod::lemma_fundamental_div_mod(d.len() as int, row_width as int);
            assert(d.len() == row_width * num_rows) by (nonlinear_arith)
                requires
                    d.len() == (row_width as int) * (d.len() as int / row_width as int)
                        + d.len() as int % row_width as int,
                    d.len() as int % row_width as int == 0,
                    num_rows == d.len() as int / row_width as int,
            ;
        }
        let m = RowMatrix { data, row_width, num_rows };
        assert(m@ =~= row_chunks(d, row_width as nat));
        Some(m)
    }

    /// Returns the number of rows of the matrix.
    pub fn num_rows(&self) -> (r: usize)
        ensures
            r == self@.len(),
    {
        self.num_rows
    }

    /// Returns the number of columns of the matrix.
    pub fn num_cols(&self) -> (r: usize)
        ensures
            r == self.width(),
    {
        self.row_width
    }

    /// Returns the row at `row_idx`.
    pub fn row(&self, row_idx: usize) -> (r: &[T])
        requires
            row_idx < self@.len(),
        ensures
            r@ == self@[row_idx as int],
            r@.len() == self.width(),
    {
        proof {
            use_type_invariant(self);
            lemma_row_in_bounds(row_idx as int, self.row_width as int, self.num_rows as int);
            assert(self.data@.len() == self.data.len());
        }
        let start: usize = row_idx * self.row_width;
        slice_subrange(self.data.as_slice(), start, start + self.row_width)
    }
}

} // verus!
