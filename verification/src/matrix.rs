//! Dense, row-major matrices of doubles carried as 64-bit patterns, with
//! shape-checked arithmetic. Every operation returns a fresh matrix and
//! leaves its operands unchanged; combining operations demand matching (or
//! multiplication-compatible) shapes and report a shape mismatch otherwise.

use vstd::prelude::*;

use crate::error::AIError;
use crate::scalar::{
    add_bits, mul_bits, scalar_add, scalar_mul, scalar_rand_unit, scalar_sub, sub_bits,
    unit_interval_bits, ONE_BITS, TWO_BITS,
};

verus! {

/// Dense 2D container: `rows * cols` doubles as bit patterns, row-major.
#[derive(Clone, Debug)]
pub struct Matrix {
    pub rows: usize,
    pub cols: usize,
    pub data: Vec<Vec<u64>>,
}

impl View for Matrix {
    type V = Seq<Seq<u64>>;

    open spec fn view(&self) -> Seq<Seq<u64>> {
        Seq::new(self.data@.len(), |i: int| self.data@[i]@)
    }
}

/// An entry of a randomly initialized matrix: some draw from [0, 1),
/// scaled by two and shifted down by one.
pub open spec fn symmetric_unit_entry(e: u64) -> bool {
    exists|u: u64|
        unit_interval_bits(u) && e == sub_bits(#[trigger] mul_bits(u, TWO_BITS), ONE_BITS)
}

/// Element-wise sum of two equally shaped matrix views.
pub open spec fn madd(a: Seq<Seq<u64>>, b: Seq<Seq<u64>>) -> Seq<Seq<u64>> {
    Seq::new(a.len(), |i: int| Seq::new(a[i].len(), |j: int| add_bits(a[i][j], b[i][j])))
}

/// Element-wise difference of two equally shaped matrix views.
pub open spec fn msub(a: Seq<Seq<u64>>, b: Seq<Seq<u64>>) -> Seq<Seq<u64>> {
    Seq::new(a.len(), |i: int| Seq::new(a[i].len(), |j: int| sub_bits(a[i][j], b[i][j])))
}

/// Element-wise product of two equally shaped matrix views.
pub open spec fn mdot(a: Seq<Seq<u64>>, b: Seq<Seq<u64>>) -> Seq<Seq<u64>> {
    Seq::new(a.len(), |i: int| Seq::new(a[i].len(), |j: int| mul_bits(a[i][j], b[i][j])))
}

/// The `j`-th column of a matrix view.
pub open spec fn column(b: Seq<Seq<u64>>, j: int) -> Seq<u64> {
    Seq::new(b.len(), |k: int| b[k][j])
}

/// Running sum of products over the first `k` positions, accumulated left to
/// right starting from zero, exactly as the multiplication loop computes it.
pub open spec fn dot_fold(a: Seq<u64>, b: Seq<u64>, k: int) -> u64
    decreases k,
{
    if k <= 0 {
        0u64
    } else {
        add_bits(dot_fold(a, b, k - 1), mul_bits(a[k - 1], b[k - 1]))
    }
}

/// Matrix product of `a` (shape r x n) and `b` (shape n x p); `p` is the
/// column count of `b`.
pub open spec fn mmul(a: Seq<Seq<u64>>, b: Seq<Seq<u64>>, p: nat) -> Seq<Seq<u64>> {
    Seq::new(a.len(), |i: int| Seq::new(p, |j: int| dot_fold(a[i], column(b, j), a[i].len() as int)))
}

/// Transpose of an r x c matrix view.
pub open spec fn mtrans(a: Seq<Seq<u64>>, r: nat, c: nat) -> Seq<Seq<u64>> {
    Seq::new(c, |j: int| Seq::new(r, |i: int| a[i][j]))
}

/// A matrix view with `f` applied to every entry.
pub open spec fn mmap(a: Seq<Seq<u64>>, f: spec_fn(u64) -> u64) -> Seq<Seq<u64>> {
    Seq::new(a.len(), |i: int| Seq::new(a[i].len(), |j: int| f(a[i][j])))
}

impl Matrix {
    /// Shape fields match the actual storage dimensions.
    pub open spec fn wf(&self) -> bool {
        &&& self@.len() == self.rows
        &&& forall|i: int| 0 <= i < self.rows ==> (#[trigger] self@[i]).len() == self.cols
    }

    /// All-zero matrix of the given shape (the bit pattern of 0.0 is zero).
    pub fn zero(rows: usize, cols: usize) -> (res: Matrix)
        ensures
            res.wf(),
            res.rows == rows,
            res.cols == cols,
            forall|i: int, j: int| 0 <= i < rows && 0 <= j < cols ==> res@[i][j] == 0u64,
    {
        let mut data: Vec<Vec<u64>> = Vec::new();
        let mut i: usize = 0;
        while i < rows
            invariant
                i <= rows,
                data@.len() == i,
                forall|k: int| 0 <= k < i ==> (#[trigger] data@[k])@.len() == cols,
                forall|k: int, j: int| 0 <= k < i && 0 <= j < cols ==> data@[k]@[j] == 0u64,
            decreases rows - i,
        {
            let mut row: Vec<u64> = Vec::new();
            let mut j: usize = 0;
            while j < cols
                invariant
                    j <= cols,
                    row@.len() == j,
                    forall|t: int| 0 <= t < j ==> row@[t] == 0u64,
                decreases cols - j,
            {
                row.push(0u64);
                j += 1;
            }
            data.push(row);
            i += 1;
        }
        Matrix { rows, cols, data }
    }

    /// Matrix of the given shape whose entries are independent uniform draws
    /// from [-1.0, 1.0): each entry is a unit-interval draw scaled by two and
    /// shifted down by one.
    pub fn random(rows: usize, cols: usize) -> (res: Matrix)
        ensures
            res.wf(),
            res.rows == rows,
            res.cols == cols,
            forall|i: int, j: int|
                0 <= i < rows && 0 <= j < cols ==> symmetric_unit_entry(#[trigger] res@[i][j]),
    {
        let mut data: Vec<Vec<u64>> = Vec::new();
        let mut i: usize = 0;
        while i < rows
            invariant
                i <= rows,
                data@.len() == i,
                forall|k: int| 0 <= k < i ==> (#[trigger] data@[k])@.len() == cols,
                forall|k: int, j: int|
                    0 <= k < i && 0 <= j < cols ==> symmetric_unit_entry(
                        #[trigger] data@[k]@[j],
                    ),
            decreases rows - i,
        {
            let mut row: Vec<u64> = Vec::new();
            let mut j: usize = 0;
            while j < cols
                invariant
                    j <= cols,
                    row@.len() == j,
                    forall|t: int| 0 <= t < j ==> symmetric_unit_entry(#[trigger] row@[t]),
                decreases cols - j,
            {
                let u = scalar_rand_unit();
                let e = scalar_sub(scalar_mul(u, TWO_BITS), ONE_BITS);
                row.push(e);
                j += 1;
            }
            data.push(row);
            i += 1;
        }
        Matrix { rows, cols, data }
    }

    /// Wrap existing row-major data: rows is the outer length, cols the
    /// common length of the rows, which must all agree and be at least one.
    pub fn from(data: Vec<Vec<u64>>) -> (res: Matrix)
        requires
            data@.len() >= 1,
            forall|i: int|
                0 <= i < data@.len() ==> (#[trigger] data@[i])@.len() == data@[0]@.len(),
        ensures
            res.wf(),
            res.rows == data@.len(),
            res.cols == data@[0]@.len(),
            res@ == data@.map_values(|r: Vec<u64>| r@),
    {
        let rows = data.len();
        let cols = data[0].len();
        Matrix { rows, cols, data }
    }

    /// Standard matrix product; the inner dimensions must agree, and the
    /// result entry at (i, j) is the left-to-right running sum of the
    /// products along row i of `self` and column j of `target`.
    pub fn multiply(&self, target: &Matrix) -> (res: Result<Matrix, AIError>)
        requires
            self.wf(),
            target.wf(),
        ensures
            (res is Ok) <==> self.cols == target.rows,
            res is Ok ==> res->Ok_0.wf(),
            res is Ok ==> res->Ok_0.rows == self.rows && res->Ok_0.cols == target.cols,
            res is Ok ==> res->Ok_0@ == mmul(self@, target@, target.cols as nat),
    {
        if self.cols != target.rows {
            return Err(AIError::new("Can't multiply a matrix of incorrect dimension"));
        }
        let mut data: Vec<Vec<u64>> = Vec::new();
        let mut i: usize = 0;
        while i < self.rows
            invariant
                self.wf(),
                target.wf(),
                self.cols == target.rows,
                i <= self.rows,
                data@.len() == i,
                forall|k: int|
                    0 <= k < i ==> (#[trigger] data@[k])@ == mmul(
                        self@,
                        target@,
                        target.cols as nat,
                    )[k],
            decreases self.rows - i,
        {
            let mut row: Vec<u64> = Vec::new();
            let mut j: usize = 0;
            while j < target.cols
                invariant
                    self.wf(),
                    target.wf(),
                    self.cols == target.rows,
                    i < self.rows,
                    j <= target.cols,
                    row@.len() == j,
                    forall|t: int|
                        0 <= t < j ==> #[trigger] row@[t] == dot_fold(
                            self@[i as int],
                            column(target@, t),
                            self.cols as int,
                        ),
                decreases target.cols - j,
            {
                let mut sum: u64 = 0;
                let mut k: usize = 0;
                while k < self.cols
                    invariant
                        self.wf(),
                        target.wf(),
                        self.cols == target.rows,
                        i < self.rows,
                        j < target.cols,
                        k <= self.cols,
                        sum == dot_fold(self@[i as int], column(target@, j as int), k as int),
                    decreases self.cols - k,
                {
                    proof {
                        assert(self@[i as int] == self.data@[i as int]@);
                        assert(target@[k as int] == target.data@[k as int]@);
                    }
                    sum = scalar_add(sum, scalar_mul(self.data[i][k], target.data[k][j]));
                    k += 1;
                }
                row.push(sum);
                j += 1;
            }
            proof {
                assert(row@ =~= mmul(self@, target@, target.cols as nat)[i as int]);
            }
            data.push(row);
            i += 1;
        }
        let res = Matrix { rows: self.rows, cols: target.cols, data };
        proof {
            assert(res@ =~~= mmul(self@, target@, target.cols as nat));
        }
        Ok(res)
    }

    /// Element-wise sum; the shapes must match exactly.
    pub fn add(&self, target: &Matrix) -> (res: Result<Matrix, AIError>)
        requires
            self.wf(),
            target.wf(),
        ensures
            (res is Ok) <==> (self.rows == target.rows && self.cols == target.cols),
            res is Ok ==> res->Ok_0.wf(),
            res is Ok ==> res->Ok_0.rows == self.rows && res->Ok_0.cols == self.cols,
            res is Ok ==> res->Ok_0@ == madd(self@, target@),
    {
        if self.rows != target.rows || self.cols != target.cols {
            return Err(AIError::new("Can't add a matrix of incorrect dimension"));
        }
        let mut data: Vec<Vec<u64>> = Vec::new();
        let mut i: usize = 0;
        while i < self.rows
            invariant
                self.wf(),
                target.wf(),
                self.rows == target.rows,
                self.cols == target.cols,
                i <= self.rows,
                data@.len() == i,
                forall|k: int| 0 <= k < i ==> (#[trigger] data@[k])@ == madd(self@, target@)[k],
            decreases self.rows - i,
        {
            let mut row: Vec<u64> = Vec::new();
            let mut j: usize = 0;
            while j < self.cols
                invariant
                    self.wf(),
                    target.wf(),
                    self.rows == target.rows,
                    self.cols == target.cols,
                    i < self.rows,
                    j <= self.cols,
                    row@.len() == j,
                    forall|t: int|
                        0 <= t < j ==> #[trigger] row@[t] == add_bits(
                            self@[i as int][t],
                            target@[i as int][t],
                        ),
                decreases self.cols - j,
            {
                proof {
                    assert(self@[i as int] == self.data@[i as int]@);
                    assert(target@[i as int] == target.data@[i as int]@);
                }
                row.push(scalar_add(self.data[i][j], target.data[i][j]));
                j += 1;
            }
            proof {
                assert(row@ =~= madd(self@, target@)[i as int]);
            }
            data.push(row);
            i += 1;
        }
        let res = Matrix { rows: self.rows, cols: self.cols, data };
        proof {
            assert(res@ =~~= madd(self@, target@));
        }
        Ok(res)
    }

    /// Element-wise difference; the shapes must match exactly.
    pub fn subtract(&self, target: &Matrix) -> (res: Result<Matrix, AIError>)
        requires
            self.wf(),
            target.wf(),
        ensures
            (res is Ok) <==> (self.rows == target.rows && self.cols == target.cols),
            res is Ok ==> res->Ok_0.wf(),
            res is Ok ==> res->Ok_0.rows == self.rows && res->Ok_0.cols == self.cols,
            res is Ok ==> res->Ok_0@ == msub(self@, target@),
    {
        if self.rows != target.rows || self.cols != target.cols {
            return Err(AIError::new("Can't subtract a matrix of incorrect dimension"));
        }
        let mut data: Vec<Vec<u64>> = Vec::new();
        let mut i: usize = 0;
        while i < self.rows
            invariant
                self.wf(),
                target.wf(),
                self.rows == target.rows,
                self.cols == target.cols,
                i <= self.rows,
                data@.len() == i,
                forall|k: int| 0 <= k < i ==> (#[trigger] data@[k])@ == msub(self@, target@)[k],
            decreases self.rows - i,
        {
            let mut row: Vec<u64> = Vec::new();
            let mut j: usize = 0;
            while j < self.cols
                invariant
                    self.wf(),
                    target.wf(),
                    self.rows == target.rows,
                    self.cols == target.cols,
                    i < self.rows,
                    j <= self.cols,
                    row@.len() == j,
                    forall|t: int|
                        0 <= t < j ==> #[trigger] row@[t] == sub_bits(
                            self@[i as int][t],
                            target@[i as int][t],
                        ),
                decreases self.cols - j,
            {
                proof {
                    assert(self@[i as int] == self.data@[i as int]@);
                    assert(target@[i as int] == target.data@[i as int]@);
                }
                row.push(scalar_sub(self.data[i][j], target.data[i][j]));
                j += 1;
            }
            proof {
                assert(row@ =~= msub(self@, target@)[i as int]);
            }
            data.push(row);
            i += 1;
        }
        let res = Matrix { rows: self.rows, cols: self.cols, data };
        proof {
            assert(res@ =~~= msub(self@, target@));
        }
        Ok(res)
    }

    /// Element-wise product; the shapes must match exactly.
    pub fn dot_multiply(&self, target: &Matrix) -> (res: Result<Matrix, AIError>)
        requires
            self.wf(),
            target.wf(),
        ensures
            (res is Ok) <==> (self.rows == target.rows && self.cols == target.cols),
            res is Ok ==> res->Ok_0.wf(),
            res is Ok ==> res->Ok_0.rows == self.rows && res->Ok_0.cols == self.cols,
            res is Ok ==> res->Ok_0@ == mdot(self@, target@),
    {
        if self.rows != target.rows || self.cols != target.cols {
            return Err(AIError::new("Can't dot_multiply a matrix of incorrect dimension"));
        }
        let mut data: Vec<Vec<u64>> = Vec::new();
        let mut i: usize = 0;
        while i < self.rows
            invariant
                self.wf(),
                target.wf(),
                self.rows == target.rows,
                self.cols == target.cols,
                i <= self.rows,
                data@.len() == i,
                forall|k: int| 0 <= k < i ==> (#[trigger] data@[k])@ == mdot(self@, target@)[k],
            decreases self.rows - i,
        {
            let mut row: Vec<u64> = Vec::new();
            let mut j: usize = 0;
            while j < self.cols
                invariant
                    self.wf(),
                    target.wf(),
                    self.rows == target.rows,
                    self.cols == target.cols,
                    i < self.rows,
                    j <= self.cols,
                    row@.len() == j,
                    forall|t: int|
                        0 <= t < j ==> #[trigger] row@[t] == mul_bits(
                            self@[i as int][t],
                            target@[i as int][t],
                        ),
                decreases self.cols - j,
            {
                proof {
                    assert(self@[i as int] == self.data@[i as int]@);
                    assert(target@[i as int] == target.data@[i as int]@);
                }
                row.push(scalar_mul(self.data[i][j], target.data[i][j]));
                j += 1;
            }
            proof {
                assert(row@ =~= mdot(self@, target@)[i as int]);
            }
            data.push(row);
            i += 1;
        }
        let res = Matrix { rows: self.rows, cols: self.cols, data };
        proof {
            assert(res@ =~~= mdot(self@, target@));
        }
        Ok(res)
    }

    /// A new matrix with `f` applied to every entry; always succeeds.
    pub fn map<F: Fn(u64) -> u64>(&self, f: F) -> (res: Matrix)
        requires
            self.wf(),
            forall|x: u64| #[trigger] f.requires((x,)),
        ensures
            res.wf(),
            res.rows == self.rows,
            res.cols == self.cols,
            forall|i: int, j: int|
                0 <= i < self.rows && 0 <= j < self.cols ==> call_ensures(
                    f,
                    (self@[i][j],),
                    #[trigger] res@[i][j],
                ),
    {
        let mut data: Vec<Vec<u64>> = Vec::new();
        let mut i: usize = 0;
        while i < self.rows
            invariant
                self.wf(),
                forall|x: u64| #[trigger] f.requires((x,)),
                i <= self.rows,
                data@.len() == i,
                forall|k: int| 0 <= k < i ==> (#[trigger] data@[k])@.len() == self.cols,
                forall|k: int, j: int|
                    0 <= k < i && 0 <= j < self.cols ==> call_ensures(
                        f,
                        (self@[k][j],),
                        #[trigger] data@[k]@[j],
                    ),
            decreases self.rows - i,
        {
            let mut row: Vec<u64> = Vec::new();
            let mut j: usize = 0;
            while j < self.cols
                invariant
                    self.wf(),
                    forall|x: u64| #[trigger] f.requires((x,)),
                    i < self.rows,
                    j <= self.cols,
                    row@.len() == j,
                    forall|t: int|
                        0 <= t < j ==> call_ensures(
                            f,
                            (self@[i as int][t],),
                            #[trigger] row@[t],
                        ),
                decreases self.cols - j,
            {
                proof {
                    assert(self@[i as int] == self.data@[i as int]@);
                }
                row.push(f(self.data[i][j]));
                j += 1;
            }
            data.push(row);
            i += 1;
        }
        Matrix { rows: self.rows, cols: self.cols, data }
    }

    /// Check executably that the shape fields match the actual storage.
    pub fn check_shape(&self) -> (r: bool)
        ensures
            r == self.wf(),
    {
        if self.data.len() != self.rows {
            return false;
        }
        let mut i: usize = 0;
        while i < self.rows
            invariant
                i <= self.rows,
                self.data@.len() == self.rows,
                forall|k: int| 0 <= k < i ==> (#[trigger] self@[k]).len() == self.cols,
            decreases self.rows - i,
        {
            proof {
                assert(self@[i as int] == self.data@[i as int]@);
            }
            if self.data[i].len() != self.cols {
                return false;
            }
            i += 1;
        }
        true
    }

    /// Transpose: shape (cols, rows), entries swapped accordingly.
    pub fn transpose(&self) -> (res: Matrix)
        requires
            self.wf(),
        ensures
            res.wf(),
            res.rows == self.cols,
            res.cols == self.rows,
            res@ == mtrans(self@, self.rows as nat, self.cols as nat),
            forall|i: int, j: int|
                0 <= i < self.rows && 0 <= j < self.cols ==> res@[j][i] == self@[i][j],
    {
        let mut data: Vec<Vec<u64>> = Vec::new();
        let mut j: usize = 0;
        while j < self.cols
            invariant
                self.wf(),
                j <= self.cols,
                data@.len() == j,
                forall|t: int|
                    0 <= t < j ==> (#[trigger] data@[t])@ == mtrans(
                        self@,
                        self.rows as nat,
                        self.cols as nat,
                    )[t],
            decreases self.cols - j,
        {
            let mut row: Vec<u64> = Vec::new();
            let mut i: usize = 0;
            while i < self.rows
                invariant
                    self.wf(),
                    j < self.cols,
                    i <= self.rows,
                    row@.len() == i,
                    forall|t: int| 0 <= t < i ==> #[trigger] row@[t] == self@[t][j as int],
                decreases self.rows - i,
            {
                proof {
                    assert(self@[i as int] == self.data@[i as int]@);
                }
                row.push(self.data[i][j]);
                i += 1;
            }
            proof {
                assert(row@ =~= mtrans(self@, self.rows as nat, self.cols as nat)[j as int]);
            }
            data.push(row);
            j += 1;
        }
        let res = Matrix { rows: self.cols, cols: self.rows, data };
        proof {
            assert(res@ =~~= mtrans(self@, self.rows as nat, self.cols as nat));
        }
        res
    }
}

/// Transposing twice gives back the original matrix view: for any
/// well-formed r x c view, the transpose of the transpose equals it.
pub proof fn lemma_transpose_involution(a: Seq<Seq<u64>>, r: nat, c: nat)
    requires
        a.len() == r,
        forall|i: int| 0 <= i < r ==> (#[trigger] a[i]).len() == c,
    ensures
        mtrans(mtrans(a, r, c), c, r) == a,
{
    assert(mtrans(mtrans(a, r, c), c, r) =~~= a);
}

} // verus!
