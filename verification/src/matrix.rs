use vstd::prelude::*;
use crate::field::{gf_mul, multiply};

verus! {

/// A matrix as a sequence of rows: eight rows of `cols` bytes each.
pub open spec fn well_shaped(m: Seq<Seq<u8>>, cols: nat) -> bool {
    m.len() == 8 && forall|i: int| 0 <= i < 8 ==> (#[trigger] m[i]).len() == cols
}

/// The sum over `k < n` of `a[row][k] * m[k][col]` in GF(2^8).
pub open spec fn dot(a: [[u8; 8]; 8], m: Seq<Seq<u8>>, row: int, col: int, n: nat) -> u8
    decreases n,
{
    if n == 0 {
        0u8
    } else {
        dot(a, m, row, col, (n - 1) as nat) ^ gf_mul(m[n - 1][col], a[row][n - 1])
    }
}

/// The product `a * m` over GF(2^8) of an 8x8 matrix and an 8-row matrix.
pub open spec fn mat_mul(a: [[u8; 8]; 8], m: Seq<Seq<u8>>) -> Seq<Seq<u8>> {
    Seq::new(8, |i: int| Seq::new(m[0].len(), |j: int| dot(a, m, i, j, 8)))
}

/// An 8-row byte matrix. Its view is the sequence of its rows.
pub struct Matrix {
    cols: usize,
    cells: Vec<u8>,
}

impl View for Matrix {
    type V = Seq<Seq<u8>>;

    closed spec fn view(&self) -> Seq<Seq<u8>> {
        Seq::new(8, |i: int| Seq::new(self.cols as nat, |j: int| self.cells@[j * 8 + i]))
    }
}

impl Matrix {
    /// The number of columns.
    pub closed spec fn spec_cols(&self) -> nat {
        self.cols as nat
    }

    /// The storage holds exactly the cells of the matrix.
    pub closed spec fn inv(&self) -> bool {
        self.cells@.len() == 8 * self.cols
    }

    /// The matrix has at least one column and its view has eight rows of
    /// `spec_cols()` bytes.
    pub open spec fn wf(&self) -> bool {
        &&& self.inv()
        &&& self.spec_cols() > 0
        &&& self.spec_cols() <= usize::MAX / 8
        &&& well_shaped(self@, self.spec_cols())
    }

    /// The zero matrix with `cols` columns.
    pub fn new(cols: usize) -> (m: Matrix)
        requires
            0 < cols <= usize::MAX / 8,
        ensures
            m.wf(),
            m.spec_cols() == cols,
            forall|i: int, j: int| 0 <= i < 8 && 0 <= j < cols ==> #[trigger] m@[i][j] == 0,
    {
        let n: usize = cols * 8;
        let mut cells: Vec<u8> = Vec::new();
        let mut k: usize = 0;
        while k < n
            invariant
                k <= n,
                cells@.len() == k,
                forall|t: int| 0 <= t < k ==> cells@[t] == 0,
            decreases n - k,
        {
            cells.push(0u8);
            k += 1;
        }
        Matrix { cols, cells }
    }

    /// The number of rows, which is always eight.
    pub fn rows(&self) -> (r: usize)
        ensures
            r == 8,
    {
        8
    }

    /// The number of columns.
    pub fn cols(&self) -> (c: usize)
        ensures
            c == self.spec_cols(),
    {
        self.cols
    }

    /// The byte at (row, col).
    pub fn get(&self, row: usize, col: usize) -> (v: u8)
        requires
            self.wf(),
            row < 8,
            col < self.spec_cols(),
        ensures
            v == self@[row as int][col as int],
    {
        self.cells[col * 8 + row]
    }

    /// Stores `v` at (row, col) and leaves every other cell as it was.
    pub fn set(&mut self, row: usize, col: usize, v: u8)
        requires
            old(self).wf(),
            row < 8,
            col < old(self).spec_cols(),
        ensures
            final(self).wf(),
            final(self).spec_cols() == old(self).spec_cols(),
            final(self)@ == old(self)@.update(
                row as int,
                old(self)@[row as int].update(col as int, v),
            ),
    {
        self.cells.set(col * 8 + row, v);
        proof {
            let after = self@;
            let want = old(self)@.update(row as int, old(self)@[row as int].update(col as int, v));
            assert forall|i: int| 0 <= i < 8 implies #[trigger] after[i] == want[i] by {
                assert(after[i] =~= want[i]);
            }
            assert(after =~= want);
        }
    }

    /// The product of the 8x8 matrix `a` and this matrix over GF(2^8).
    pub fn mul_array(&self, a: &[[u8; 8]; 8]) -> (out: Matrix)
        requires
            self.wf(),
        ensures
            out.wf(),
            out.spec_cols() == self.spec_cols(),
            out@ == mat_mul(*a, self@),
    {
        let cols = self.cols;
        let mut out = Matrix::new(cols);
        let mut j: usize = 0;
        while j < cols
            invariant
                j <= cols,
                cols == self.spec_cols(),
                self.wf(),
                out.wf(),
                out.spec_cols() == cols,
                forall|r: int, c: int|
                    0 <= r < 8 && 0 <= c < j ==> #[trigger] out@[r][c] == dot(*a, self@, r, c, 8),
            decreases cols - j,
        {
            let mut i: usize = 0;
            while i < 8
                invariant
                    i <= 8,
                    j < cols,
                    cols == self.spec_cols(),
                    self.wf(),
                    out.wf(),
                    out.spec_cols() == cols,
                    forall|r: int, c: int|
                        0 <= r < 8 && 0 <= c < j ==> #[trigger] out@[r][c] == dot(
                            *a,
                            self@,
                            r,
                            c,
                            8,
                        ),
                    forall|r: int| 0 <= r < i ==> #[trigger] out@[r][j as int] == dot(*a, self@, r, j as int, 8),
                decreases 8 - i,
            {
                let mut acc: u8 = 0;
                let mut k: usize = 0;
                while k < 8
                    invariant
                        k <= 8,
                        i < 8,
                        j < cols,
                        cols == self.spec_cols(),
                        self.wf(),
                        acc == dot(*a, self@, i as int, j as int, k as nat),
                    decreases 8 - k,
                {
                    acc = acc ^ multiply(self.get(k, j), a[i][k]);
                    k += 1;
                }
                out.set(i, j, acc);
                i += 1;
            }
            j += 1;
        }
        proof {
            let want = mat_mul(*a, self@);
            assert forall|r: int| 0 <= r < 8 implies #[trigger] out@[r] == want[r] by {
                assert(out@[r] =~= want[r]);
            }
            assert(out@ =~= want);
        }
        out
    }
}

} // verus!
