//! Vectors and matrices whose dimension is chosen when they are made, and
//! the statistics of a set of observations.
//!
//! A matrix of observations holds one observation in each row. Its mean is
//! the vector of the means of its columns, each the sum of the column
//! divided by the number of rows, rounding toward zero; the mean of no
//! observation is zero. Its covariance is the sample covariance from exact
//! sums: for two columns, the number of rows times the sum of their
//! products, less the product of their sums, divided by the number of rows
//! times the number of rows less one, rounding toward zero. It does not
//! change when a constant is added to a column. The covariance of fewer
//! than two observations is zero.
use crate::scalar::{
    Algebraic, fits, floor_sqrt, lemma_floor_sqrt, lemma_trunc_div_bounds, Scalar, trunc_div,
};
use crate::traits::{Cov, Dot, Mean, Norm, Transpose};
use vstd::prelude::*;

verus! {

/// A vector of any number of components.
#[derive(Clone, Debug, PartialEq, Eq)]
pub struct DVec<N> {
    pub at: Vec<N>,
}

impl<N: Scalar> View for DVec<N> {
    type V = Seq<int>;

    open spec fn view(&self) -> Seq<int> {
        Seq::new(self.at@.len(), |i: int| self.at@[i].val())
    }
}

impl<N: Scalar> DVec<N> {
    /// The vector with the given components.
    pub fn new(at: Vec<N>) -> (r: Self)
        ensures
            r.at == at,
    {
        DVec { at }
    }

    /// The vector of `n` components that are zero.
    pub fn new_zeros(n: usize) -> (r: Self)
        ensures
            r@ == Seq::new(n as nat, |i: int| 0int),
    {
        let z = N::zero();
        proof {
            z.lemma_val();
        }
        let mut at: Vec<N> = Vec::new();
        let mut i: usize = 0;
        while i < n
            invariant
                i <= n,
                at@.len() == i,
                z.val() == 0,
                forall|k: int| 0 <= k < i ==> (#[trigger] at@[k]).val() == 0,
            decreases n - i,
        {
            at.push(z);
            i = i + 1;
        }
        let r = DVec { at };
        assert(r@ =~= Seq::new(n as nat, |i: int| 0int));
        r
    }

    /// The number of components.
    pub fn len(&self) -> (n: usize)
        ensures
            n == self@.len(),
    {
        self.at.len()
    }
}

/// The mathematical model of a matrix of any shape: its rows, each of
/// `ncols` integers.
pub struct DMatModel {
    pub ncols: nat,
    pub rows: Seq<Seq<int>>,
}

impl DMatModel {
    /// Whether every row has `ncols` components.
    pub open spec fn wf(self) -> bool {
        forall|i: int| 0 <= i < self.rows.len() ==> (#[trigger] self.rows[i]).len() == self.ncols
    }

    /// The number of rows.
    pub open spec fn nrows(self) -> nat {
        self.rows.len()
    }

    /// The matrix of `nrows` rows and `ncols` columns that is zero.
    pub open spec fn zeros(nrows: nat, ncols: nat) -> Self {
        DMatModel { ncols, rows: Seq::new(nrows, |i: int| Seq::new(ncols, |j: int| 0int)) }
    }

    /// The sum of the first `n` components of column `j`.
    pub open spec fn col_sum(self, j: int, n: int) -> int
        decreases n,
    {
        if n <= 0 {
            0
        } else {
            self.col_sum(j, n - 1) + self.rows[n - 1][j]
        }
    }

    /// The sum of the products of the first `n` components of column `j` and
    /// of column `k`.
    pub open spec fn cross_sum(self, j: int, k: int, n: int) -> int
        decreases n,
    {
        if n <= 0 {
            0
        } else {
            self.cross_sum(j, k, n - 1) + self.entry_product(n - 1, j, k)
        }
    }

    /// The mean of column `j`.
    pub open spec fn col_mean(self, j: int) -> int {
        if self.nrows() == 0 {
            0
        } else {
            trunc_div(self.col_sum(j, self.nrows() as int), self.nrows() as int)
        }
    }

    /// The mean of the rows.
    pub open spec fn mean(self) -> Seq<int> {
        Seq::new(self.ncols, |j: int| self.col_mean(j))
    }

    /// Whether every step of the computation of the mean is representable
    /// in `N`: the number of rows, and the sum of every column up to
    /// every row.
    pub open spec fn mean_fits<N: Scalar>(self) -> bool {
        &&& fits::<N>(self.nrows() as int)
        &&& forall|j: int, n: int|
            0 <= j < self.ncols && 0 <= n <= self.nrows() ==> fits::<N>(
                #[trigger] self.col_sum(j, n),
            )
    }

    /// The product of the components of row `i` in columns `j` and `k`.
    pub open spec fn entry_product(self, i: int, j: int, k: int) -> int {
        self.rows[i][j] * self.rows[i][k]
    }

    /// The number of rows times the sum of the products of columns `j` and
    /// `k`.
    pub open spec fn scaled_cross(self, j: int, k: int) -> int {
        self.nrows() * self.cross_sum(j, k, self.nrows() as int)
    }

    /// The product of the sums of columns `j` and `k`.
    pub open spec fn sum_product(self, j: int, k: int) -> int {
        self.col_sum(j, self.nrows() as int) * self.col_sum(k, self.nrows() as int)
    }

    /// The number of rows times the number of rows less one.
    pub open spec fn cov_divisor(self) -> int {
        self.nrows() * (self.nrows() - 1)
    }

    /// The covariance of columns `j` and `k`: the sample covariance from
    /// exact sums, rounded toward zero.
    pub open spec fn col_cov(self, j: int, k: int) -> int {
        if self.nrows() <= 1 {
            0
        } else {
            trunc_div(self.scaled_cross(j, k) - self.sum_product(j, k), self.cov_divisor())
        }
    }

    /// The covariance matrix of the rows.
    pub open spec fn cov(self) -> Self {
        DMatModel {
            ncols: self.ncols,
            rows: Seq::new(
                self.ncols,
                |j: int| Seq::new(self.ncols, |k: int| self.col_cov(j, k)),
            ),
        }
    }

    /// Whether every step of the computation of the covariance is
    /// representable in `N`: the sums of the columns, the products and sums
    /// that the covariance of two columns adds up, their difference and the
    /// divisor.
    pub open spec fn cov_fits<N: Scalar>(self) -> bool {
        &&& self.mean_fits::<N>()
        &&& self.nrows() > 1 ==> {
            &&& fits::<N>(self.cov_divisor())
            &&& forall|i: int, j: int, k: int|
                0 <= i < self.nrows() && 0 <= j < self.ncols && 0 <= k < self.ncols ==> fits::<N>(
                    #[trigger] self.entry_product(i, j, k),
                )
            &&& forall|j: int, k: int, n: int|
                0 <= j < self.ncols && 0 <= k < self.ncols && 0 <= n <= self.nrows() ==> fits::<N>(
                    #[trigger] self.cross_sum(j, k, n),
                )
            &&& forall|j: int, k: int|
                0 <= j < self.ncols && 0 <= k < self.ncols ==> fits::<N>(
                    #[trigger] self.scaled_cross(j, k),
                ) && fits::<N>(self.sum_product(j, k)) && fits::<N>(
                    self.scaled_cross(j, k) - self.sum_product(j, k),
                )
        }
    }

    /// The matrix with `c[j]` added to every component of column `j`.
    pub open spec fn shifted(self, c: Seq<int>) -> Self {
        DMatModel {
            ncols: self.ncols,
            rows: Seq::new(
                self.nrows(),
                |i: int| Seq::new(self.ncols, |j: int| self.rows[i][j] + c[j]),
            ),
        }
    }
}

/// A matrix of any number of rows and columns.
#[derive(Debug, PartialEq, Eq)]
pub struct DMat<N: Scalar> {
    ncols: usize,
    rows: Vec<Vec<N>>,
}

impl<N: Scalar> View for DMat<N> {
    type V = DMatModel;

    closed spec fn view(&self) -> DMatModel {
        DMatModel {
            ncols: self.ncols as nat,
            rows: Seq::new(
                self.rows@.len(),
                |i: int| Seq::new(self.ncols as nat, |j: int| self.rows@[i]@[j].val()),
            ),
        }
    }
}

impl<N: Scalar> DMat<N> {
    #[verifier::type_invariant]
    spec fn rectangular(self) -> bool {
        forall|i: int| 0 <= i < self.rows@.len() ==> (#[trigger] self.rows@[i])@.len() == self.ncols
    }

    /// The model of the matrix of the given rows, each of `ncols` scalars.
    pub open spec fn model_of(rows: Seq<Vec<N>>, ncols: nat) -> DMatModel {
        DMatModel {
            ncols,
            rows: Seq::new(rows.len(), |i: int| Seq::new(ncols, |j: int| rows[i]@[j].val())),
        }
    }

    /// The matrix with the given rows, where every row has `ncols`
    /// components.
    pub fn from_rows(ncols: usize, rows: Vec<Vec<N>>) -> (r: Option<Self>)
        ensures
            r.is_some() == (forall|i: int|
                0 <= i < rows@.len() ==> (#[trigger] rows@[i])@.len() == ncols),
            r matches Some(m) ==> m@ == Self::model_of(rows@, ncols as nat),
    {
        let mut i: usize = 0;
        while i < rows.len()
            invariant
                i <= rows@.len(),
                forall|k: int| 0 <= k < i ==> (#[trigger] rows@[k])@.len() == ncols,
            decreases rows@.len() - i,
        {
            if rows[i].len() != ncols {
                return None;
            }
            i = i + 1;
        }
        Some(DMat { ncols, rows })
    }

    /// The matrix of `nrows` rows and `ncols` columns that is zero.
    pub fn new_zeros(nrows: usize, ncols: usize) -> (r: Self)
        ensures
            r@ == DMatModel::zeros(nrows as nat, ncols as nat),
    {
        let mut rows: Vec<Vec<N>> = Vec::new();
        let mut i: usize = 0;
        while i < nrows
            invariant
                i <= nrows,
                rows@.len() == i,
                forall|k: int|
                    0 <= k < i ==> (#[trigger] rows@[k])@.len() == ncols && forall|j: int|
                        0 <= j < ncols ==> (#[trigger] rows@[k]@[j]).val() == 0,
            decreases nrows - i,
        {
            let row: DVec<N> = DVec::new_zeros(ncols);
            assert(row@.len() == ncols);
            assert forall|j: int| 0 <= j < ncols implies (#[trigger] row.at@[j]).val() == 0 by {
                assert(row@[j] == 0);
            }
            rows.push(row.at);
            i = i + 1;
        }
        let r = DMat { ncols, rows };
        assert(r@.rows =~~= DMatModel::zeros(nrows as nat, ncols as nat).rows);
        r
    }

    /// The number of rows.
    pub fn nrows(&self) -> (n: usize)
        ensures
            n == self@.nrows(),
    {
        self.rows.len()
    }

    /// The number of columns.
    pub fn ncols(&self) -> (n: usize)
        ensures
            n == self@.ncols,
            self@.wf(),
    {
        self.ncols
    }

    /// The component of row `i` and column `j`.
    pub fn at(&self, i: usize, j: usize) -> (r: N)
        requires
            i < self@.nrows(),
            j < self@.ncols,
        ensures
            r.val() == self@.rows[i as int][j as int],
    {
        proof {
            use_type_invariant(self);
        }
        self.rows[i][j]
    }

    /// The scalar that stands for `n`.
    fn count(n: usize) -> (r: N)
        requires
            fits::<N>(n as int),
        ensures
            r.val() == n,
    {
        let u = N::one();
        let mut r = N::zero();
        proof {
            u.lemma_val();
            r.lemma_val();
            N::lemma_range();
        }
        let mut i: usize = 0;
        while i < n
            invariant
                i <= n,
                r.val() == i,
                u.val() == 1,
                fits::<N>(0),
                fits::<N>(n as int),
            decreases n - i,
        {
            r = r.plus(u);
            i = i + 1;
        }
        r
    }

    /// The sum of column `j`.
    fn col_total(&self, j: usize) -> (r: N)
        requires
            j < self@.ncols,
            self@.mean_fits::<N>(),
        ensures
            r.val() == self@.col_sum(j as int, self@.nrows() as int),
    {
        let ghost m = self@;
        let n = self.rows.len();
        let mut acc = N::zero();
        proof {
            acc.lemma_val();
        }
        let mut i: usize = 0;
        while i < n
            invariant
                i <= n,
                n == m.nrows(),
                m == self@,
                j < m.ncols,
                m.mean_fits::<N>(),
                acc.val() == m.col_sum(j as int, i as int),
            decreases n - i,
        {
            let x = self.at(i, j);
            assert(fits::<N>(m.col_sum(j as int, i + 1)));
            acc = acc.plus(x);
            i = i + 1;
        }
        acc
    }

    /// The mean of column `j`.
    fn col_mean(&self, j: usize, count: N) -> (r: N)
        requires
            j < self@.ncols,
            self@.nrows() > 0,
            count.val() == self@.nrows(),
            self@.mean_fits::<N>(),
        ensures
            r.val() == self@.col_mean(j as int),
    {
        let total = self.col_total(j);
        proof {
            total.lemma_val();
            N::lemma_range();
            lemma_trunc_div_bounds(total.val(), count.val());
        }
        total.quot(count)
    }

    /// The sum of the products of the components of columns `j` and `k`.
    fn col_cross(&self, j: usize, k: usize) -> (r: N)
        requires
            j < self@.ncols,
            k < self@.ncols,
            self@.nrows() > 1,
            self@.cov_fits::<N>(),
        ensures
            r.val() == self@.cross_sum(j as int, k as int, self@.nrows() as int),
    {
        let ghost m = self@;
        let n = self.rows.len();
        let mut acc = N::zero();
        proof {
            acc.lemma_val();
        }
        let mut i: usize = 0;
        while i < n
            invariant
                i <= n,
                n == m.nrows(),
                m == self@,
                j < m.ncols,
                k < m.ncols,
                m.nrows() > 1,
                m.cov_fits::<N>(),
                acc.val() == m.cross_sum(j as int, k as int, i as int),
            decreases n - i,
        {
            let x = self.at(i, j);
            let y = self.at(i, k);
            assert(fits::<N>(m.entry_product(i as int, j as int, k as int)));
            assert(fits::<N>(m.cross_sum(j as int, k as int, i + 1)));
            acc = acc.plus(x.times(y));
            i = i + 1;
        }
        acc
    }
}

impl<N: Scalar> Mean<DVec<N>> for DMat<N> {
    open spec fn mean_fits(m: DMatModel) -> bool {
        m.mean_fits::<N>()
    }

    open spec fn mean_model(m: DMatModel) -> Seq<int> {
        m.mean()
    }

    fn mean(&self) -> (r: DVec<N>) {
        let ghost m = self@;
        let n = self.nrows();
        let ncols = self.ncols();
        if n == 0 {
            let r: DVec<N> = DVec::new_zeros(ncols);
            assert(r@ =~= m.mean());
            return r;
        }
        let count = Self::count(n);
        let mut at: Vec<N> = Vec::new();
        let mut j: usize = 0;
        while j < ncols
            invariant
                j <= ncols,
                ncols == m.ncols,
                m == self@,
                m.nrows() > 0,
                count.val() == m.nrows(),
                m.mean_fits::<N>(),
                at@.len() == j,
                forall|k: int| 0 <= k < j ==> (#[trigger] at@[k]).val() == m.col_mean(k),
            decreases ncols - j,
        {
            let x = self.col_mean(j, count);
            at.push(x);
            j = j + 1;
        }
        let r = DVec { at };
        assert(r@ =~= m.mean());
        r
    }
}

impl<N: Scalar> Cov<DMat<N>> for DMat<N> {
    open spec fn cov_fits(m: DMatModel) -> bool {
        m.cov_fits::<N>()
    }

    open spec fn cov_model(m: DMatModel) -> DMatModel {
        m.cov()
    }

    fn cov(&self) -> (r: DMat<N>) {
        let ghost m = self@;
        let n = self.nrows();
        let ncols = self.ncols();
        if n <= 1 {
            let r: DMat<N> = DMat::new_zeros(ncols, ncols);
            assert(r@.rows =~~= m.cov().rows);
            return r;
        }
        proof {
            N::lemma_range();
        }
        let count = Self::count(n);
        let less = Self::count(n - 1);
        let divisor = count.times(less);
        let mut rows: Vec<Vec<N>> = Vec::new();
        let mut j: usize = 0;
        while j < ncols
            invariant
                j <= ncols,
                n == m.nrows(),
                ncols == m.ncols,
                m == self@,
                m.nrows() > 1,
                count.val() == m.nrows(),
                divisor.val() == m.cov_divisor(),
                m.cov_fits::<N>(),
                rows@.len() == j,
                forall|a: int|
                    0 <= a < j ==> (#[trigger] rows@[a])@.len() == ncols && forall|b: int|
                        0 <= b < ncols ==> (#[trigger] rows@[a]@[b]).val() == m.col_cov(a, b),
            decreases ncols - j,
        {
            let sum_j = self.col_total(j);
            let mut row: Vec<N> = Vec::new();
            let mut k: usize = 0;
            while k < ncols
                invariant
                    k <= ncols,
                    j < ncols,
                    n == m.nrows(),
                    ncols == m.ncols,
                    m == self@,
                    m.nrows() > 1,
                    count.val() == m.nrows(),
                    divisor.val() == m.cov_divisor(),
                    sum_j.val() == m.col_sum(j as int, m.nrows() as int),
                    m.cov_fits::<N>(),
                    row@.len() == k,
                    forall|b: int|
                        0 <= b < k ==> (#[trigger] row@[b]).val() == m.col_cov(j as int, b),
                decreases ncols - k,
            {
                let sum_k = self.col_total(k);
                let cross = self.col_cross(j, k);
                proof {
                    assert(fits::<N>(m.scaled_cross(j as int, k as int)));
                    assert(fits::<N>(m.sum_product(j as int, k as int)));
                }
                let top = count.times(cross).minus(sum_j.times(sum_k));
                proof {
                    top.lemma_val();
                    N::lemma_range();
                    lemma_cov_divisor(m.nrows() as int);
                    lemma_trunc_div_bounds(top.val(), divisor.val());
                }
                row.push(top.quot(divisor));
                k = k + 1;
            }
            rows.push(row);
            j = j + 1;
        }
        let r = DMat { ncols, rows };
        assert(r@.rows =~~= m.cov().rows);
        r
    }
}

/// The product of an integer that is at least two and the integer before
/// it is positive.
proof fn lemma_cov_divisor(n: int) by (nonlinear_arith)
    requires
        n >= 2,
    ensures
        n * (n - 1) >= 1,
{
}

/// The mean of a single observation is the observation, and its covariance
/// is zero.
pub proof fn lemma_single_observation<N: Scalar>(m: DMatModel)
    requires
        m.wf(),
        m.nrows() == 1,
    ensures
        <DMat<N> as Mean<DVec<N>>>::mean_model(m) == m.rows[0],
        <DMat<N> as Cov<DMat<N>>>::cov_model(m) == DMatModel::zeros(m.ncols, m.ncols),
{
    assert forall|j: int| 0 <= j < m.ncols implies m.col_mean(j) == m.rows[0][j] by {
        assert(m.col_sum(j, 1) == m.col_sum(j, 0) + m.rows[0][j]);
        assert(m.col_sum(j, 0) == 0);
    }
    assert(m.mean() =~= m.rows[0]);
    assert(m.cov().rows =~~= DMatModel::zeros(m.ncols, m.ncols).rows);
}

/// The covariance matrix is symmetric.
pub proof fn lemma_cov_symmetric(m: DMatModel, j: int, k: int)
    ensures
        m.col_cov(j, k) == m.col_cov(k, j),
{
    let n = m.nrows() as int;
    lemma_cross_sum_symmetric(m, j, k, n);
    assert(m.col_sum(j, n) * m.col_sum(k, n) == m.col_sum(k, n) * m.col_sum(j, n))
        by (nonlinear_arith);
}

/// The sum of a column to which `c` was added at every row is the sum of
/// the column and the number of rows times `c`.
pub proof fn lemma_col_sum_shifted(m: DMatModel, c: Seq<int>, j: int, n: int)
    requires
        0 <= j < m.ncols,
        0 <= n <= m.nrows(),
    ensures
        m.shifted(c).col_sum(j, n) == m.col_sum(j, n) + n * c[j],
    decreases n,
{
    if n > 0 {
        lemma_col_sum_shifted(m, c, j, n - 1);
        assert(m.shifted(c).rows[n - 1][j] == m.rows[n - 1][j] + c[j]);
        assert((n - 1) * c[j] + c[j] == n * c[j]) by (nonlinear_arith);
    } else {
        assert(n * c[j] == 0) by (nonlinear_arith)
            requires
                n == 0,
        ;
    }
}

/// The sum of the products of two columns to which constants were added.
pub proof fn lemma_cross_sum_shifted(m: DMatModel, c: Seq<int>, j: int, k: int, n: int)
    requires
        0 <= j < m.ncols,
        0 <= k < m.ncols,
        0 <= n <= m.nrows(),
    ensures
        m.shifted(c).cross_sum(j, k, n) == m.cross_sum(j, k, n) + c[k] * m.col_sum(j, n) + c[j]
            * m.col_sum(k, n) + n * (c[j] * c[k]),
    decreases n,
{
    if n > 0 {
        lemma_cross_sum_shifted(m, c, j, k, n - 1);
        let x = m.rows[n - 1][j];
        let y = m.rows[n - 1][k];
        let a = c[j];
        let b = c[k];
        let sx = m.col_sum(j, n - 1);
        let sy = m.col_sum(k, n - 1);
        assert(m.shifted(c).rows[n - 1][j] == x + a);
        assert(m.shifted(c).rows[n - 1][k] == y + b);
        assert(m.shifted(c).entry_product(n - 1, j, k) == (x + a) * (y + b));
        assert((x + a) * (y + b) == x * y + b * x + a * y + a * b) by (nonlinear_arith);
        assert(b * (sx + x) == b * sx + b * x) by (nonlinear_arith);
        assert(a * (sy + y) == a * sy + a * y) by (nonlinear_arith);
        assert(n * (a * b) == (n - 1) * (a * b) + a * b) by (nonlinear_arith);
    } else {
        lemma_zero_terms(c[k], c[j], n, c[j] * c[k]);
    }
}

/// The sample covariance from sums that were shifted is that from the
/// sums.
proof fn lemma_shift_terms(n: int, sxy: int, sx: int, sy: int, a: int, b: int)
    ensures
        n * (sxy + b * sx + a * sy + n * (a * b)) - (sx + n * a) * (sy + n * b) == n * sxy - sx
            * sy,
{
    assert(n * (sxy + b * sx + a * sy + n * (a * b)) == n * sxy + n * (b * sx) + n * (a * sy) + n
        * (n * (a * b))) by (nonlinear_arith);
    assert((sx + n * a) * (sy + n * b) == sx * sy + sx * (n * b) + (n * a) * sy + (n * a) * (n
        * b)) by (nonlinear_arith);
    assert(n * (b * sx) == sx * (n * b)) by (nonlinear_arith);
    assert(n * (a * sy) == (n * a) * sy) by (nonlinear_arith);
    assert(n * (n * (a * b)) == (n * a) * (n * b)) by (nonlinear_arith);
}

/// Products with a factor that is zero.
proof fn lemma_zero_terms(a: int, b: int, n: int, d: int) by (nonlinear_arith)
    requires
        n == 0,
    ensures
        a * 0 == 0,
        b * 0 == 0,
        n * d == 0,
{
}

/// The covariance does not change when a constant is added to every
/// component of a column.
pub proof fn lemma_cov_shift(m: DMatModel, c: Seq<int>, j: int, k: int)
    requires
        0 <= j < m.ncols,
        0 <= k < m.ncols,
    ensures
        m.shifted(c).col_cov(j, k) == m.col_cov(j, k),
{
    let n = m.nrows() as int;
    let s = m.shifted(c);
    lemma_col_sum_shifted(m, c, j, n);
    lemma_col_sum_shifted(m, c, k, n);
    lemma_cross_sum_shifted(m, c, j, k, n);
    let sx = m.col_sum(j, n);
    let sy = m.col_sum(k, n);
    let sxy = m.cross_sum(j, k, n);
    let a = c[j];
    let b = c[k];
    lemma_shift_terms(n, sxy, sx, sy, a, b);
    assert(s.scaled_cross(j, k) - s.sum_product(j, k) == m.scaled_cross(j, k) - m.sum_product(
        j,
        k,
    ));
}

/// The sum of the products of two columns does not depend on their order.
pub proof fn lemma_cross_sum_symmetric(m: DMatModel, j: int, k: int, n: int)
    ensures
        m.cross_sum(j, k, n) == m.cross_sum(k, j, n),
    decreases n,
{
    if n > 0 {
        lemma_cross_sum_symmetric(m, j, k, n - 1);
        assert(m.rows[n - 1][j] * m.rows[n - 1][k] == m.rows[n - 1][k] * m.rows[n - 1][j])
            by (nonlinear_arith);
        assert(m.entry_product(n - 1, j, k) == m.entry_product(n - 1, k, j));
    }
}

/// The product of the components `i` of `a` and of `b`.
pub open spec fn product_at(a: Seq<int>, b: Seq<int>, i: int) -> int {
    a[i] * b[i]
}

/// The sum of the products of the first `n` components of `a` and of `b`.
pub open spec fn dot_sum(a: Seq<int>, b: Seq<int>, n: int) -> int
    decreases n,
{
    if n <= 0 {
        0
    } else {
        dot_sum(a, b, n - 1) + product_at(a, b, n - 1)
    }
}

/// The difference of the components `i` of `a` and of `b`.
pub open spec fn difference_at(a: Seq<int>, b: Seq<int>, i: int) -> int {
    a[i] - b[i]
}

/// The product of the difference of the components `i` of `a` and of `b`,
/// and the component `i` of `c`.
pub open spec fn sub_product_at(a: Seq<int>, b: Seq<int>, c: Seq<int>, i: int) -> int {
    difference_at(a, b, i) * c[i]
}

/// The sum of the products of the first `n` components of `a - b` and of `c`.
pub open spec fn sub_dot_sum(a: Seq<int>, b: Seq<int>, c: Seq<int>, n: int) -> int
    decreases n,
{
    if n <= 0 {
        0
    } else {
        sub_dot_sum(a, b, c, n - 1) + sub_product_at(a, b, c, n - 1)
    }
}

/// The number of components that `a` and `b` both have.
pub open spec fn common_len(a: Seq<int>, b: Seq<int>) -> int {
    if a.len() <= b.len() {
        a.len() as int
    } else {
        b.len() as int
    }
}

/// The quotient of the component `i` of `v` by `n`, rounded toward zero.
pub open spec fn quotient_at(v: Seq<int>, n: int, i: int) -> int {
    trunc_div(v[i], n)
}

/// The sum of the products of two vectors does not depend on their order.
pub proof fn lemma_dot_sum_symmetric(a: Seq<int>, b: Seq<int>, n: int)
    ensures
        dot_sum(a, b, n) == dot_sum(b, a, n),
    decreases n,
{
    if n > 0 {
        lemma_dot_sum_symmetric(a, b, n - 1);
        assert(a[n - 1] * b[n - 1] == b[n - 1] * a[n - 1]) by (nonlinear_arith);
    }
}

/// The sum of the squares of the components of a vector is not negative.
pub proof fn lemma_dot_sum_nonneg(a: Seq<int>, n: int)
    ensures
        dot_sum(a, a, n) >= 0,
    decreases n,
{
    if n > 0 {
        lemma_dot_sum_nonneg(a, n - 1);
        assert(a[n - 1] * a[n - 1] >= 0) by (nonlinear_arith);
    }
}

impl<N: Scalar> Dot<N> for DVec<N> {
    open spec fn dot_fits(a: Seq<int>, b: Seq<int>) -> bool {
        &&& a.len() == b.len()
        &&& forall|i: int| 0 <= i < a.len() ==> fits::<N>(#[trigger] product_at(a, b, i))
        &&& forall|n: int| 0 <= n <= a.len() ==> fits::<N>(#[trigger] dot_sum(a, b, n))
    }

    open spec fn dot_model(a: Seq<int>, b: Seq<int>) -> int {
        dot_sum(a, b, common_len(a, b))
    }

    open spec fn sub_dot_fits(a: Seq<int>, b: Seq<int>, c: Seq<int>) -> bool {
        &&& a.len() == b.len()
        &&& a.len() == c.len()
        &&& forall|i: int| 0 <= i < a.len() ==> fits::<N>(#[trigger] difference_at(a, b, i))
        &&& forall|i: int| 0 <= i < a.len() ==> fits::<N>(#[trigger] sub_product_at(a, b, c, i))
        &&& forall|n: int| 0 <= n <= a.len() ==> fits::<N>(#[trigger] sub_dot_sum(a, b, c, n))
    }

    open spec fn sub_dot_model(a: Seq<int>, b: Seq<int>, c: Seq<int>) -> int {
        sub_dot_sum(a, b, c, common_len(a, c))
    }

    proof fn lemma_dot_symmetric(a: Seq<int>, b: Seq<int>) {
        lemma_dot_sum_symmetric(a, b, common_len(a, b));
    }

    fn dot(&self, o: &Self) -> (r: N) {
        let ghost a = self@;
        let ghost b = o@;
        let n = self.at.len();
        let mut acc = N::zero();
        proof {
            acc.lemma_val();
        }
        let mut i: usize = 0;
        while i < n
            invariant
                i <= n,
                n == a.len(),
                a == self@,
                b == o@,
                Self::dot_fits(a, b),
                acc.val() == dot_sum(a, b, i as int),
            decreases n - i,
        {
            assert(o@.len() == o.at@.len());
            let x = self.at[i];
            let y = o.at[i];
            proof {
                assert(x.val() == a[i as int]);
                assert(y.val() == b[i as int]);
                assert(fits::<N>(product_at(a, b, i as int)));
                assert(fits::<N>(dot_sum(a, b, i + 1)));
            }
            acc = acc.plus(x.times(y));
            i = i + 1;
        }
        acc
    }

    fn sub_dot(&self, b: &Self, c: &Self) -> (r: N) {
        let ghost x = self@;
        let ghost y = b@;
        let ghost z = c@;
        let n = self.at.len();
        let mut acc = N::zero();
        proof {
            acc.lemma_val();
        }
        let mut i: usize = 0;
        while i < n
            invariant
                i <= n,
                n == x.len(),
                x == self@,
                y == b@,
                z == c@,
                Self::sub_dot_fits(x, y, z),
                acc.val() == sub_dot_sum(x, y, z, i as int),
            decreases n - i,
        {
            assert(b@.len() == b.at@.len());
            assert(c@.len() == c.at@.len());
            let p = self.at[i];
            let q = b.at[i];
            let w = c.at[i];
            proof {
                assert(p.val() == x[i as int]);
                assert(q.val() == y[i as int]);
                assert(w.val() == z[i as int]);
                assert(fits::<N>(difference_at(x, y, i as int)));
                assert(fits::<N>(sub_product_at(x, y, z, i as int)));
                assert(fits::<N>(sub_dot_sum(x, y, z, i + 1)));
            }
            acc = acc.plus(p.minus(q).times(w));
            i = i + 1;
        }
        acc
    }
}

impl<N: Scalar> DVec<N> {
    /// A copy of `self`.
    pub fn duplicate(&self) -> (r: Self)
        ensures
            r@ == self@,
            r.at@ == self.at@,
    {
        let n = self.at.len();
        let mut at: Vec<N> = Vec::new();
        let mut i: usize = 0;
        while i < n
            invariant
                i <= n,
                n == self.at@.len(),
                at@.len() == i,
                forall|k: int| 0 <= k < i ==> at@[k] == self.at@[k],
            decreases n - i,
        {
            at.push(self.at[i]);
            i = i + 1;
        }
        assert(at@ =~= self.at@);
        DVec { at }
    }

    /// Every component of `self` divided by `n`, rounding toward zero.
    pub fn shrunk(&self, n: N) -> (r: Self)
        requires
            n.val() >= 1,
        ensures
            r@ == Seq::new(self@.len(), |i: int| quotient_at(self@, n.val(), i)),
    {
        let ghost v = self@;
        let len = self.at.len();
        let mut at: Vec<N> = Vec::new();
        let mut i: usize = 0;
        while i < len
            invariant
                i <= len,
                len == self.at@.len(),
                v == self@,
                n.val() >= 1,
                at@.len() == i,
                forall|k: int| 0 <= k < i ==> (#[trigger] at@[k]).val() == quotient_at(v, n.val(),
                    k),
            decreases len - i,
        {
            let x = self.at[i];
            proof {
                x.lemma_val();
                N::lemma_range();
                lemma_trunc_div_bounds(x.val(), n.val());
                assert(x.val() == v[i as int]);
            }
            at.push(x.quot(n));
            i = i + 1;
        }
        let r = DVec { at };
        assert(r@ =~= Seq::new(v.len(), |i: int| quotient_at(v, n.val(), i)));
        r
    }
}

/// Whether a vector has a normalized form with integer components: its
/// norm is an integer that divides every component.
pub open spec fn normalizable(v: Seq<int>) -> bool {
    let n = floor_sqrt(dot_sum(v, v, v.len() as int));
    &&& n * n == dot_sum(v, v, v.len() as int)
    &&& n != 0 ==> forall|i: int| 0 <= i < v.len() ==> #[trigger] v[i] % n == 0
}

impl<N: Algebraic> Norm<N> for DVec<N> {
    open spec fn norm_fits(v: Seq<int>) -> bool {
        <DVec<N> as Dot<N>>::dot_fits(v, v)
    }

    open spec fn is_sqnorm(v: Seq<int>, r: N) -> bool {
        r.val() == dot_sum(v, v, v.len() as int)
    }

    open spec fn is_norm(v: Seq<int>, r: N) -> bool {
        r.val() == floor_sqrt(dot_sum(v, v, v.len() as int))
    }

    open spec fn normalized_fits(v: Seq<int>) -> bool {
        &&& <DVec<N> as Dot<N>>::dot_fits(v, v)
        &&& normalizable(v)
    }

    open spec fn normalized_model(v: Seq<int>) -> Seq<int> {
        let n = floor_sqrt(dot_sum(v, v, v.len() as int));
        if n == 0 {
            v
        } else {
            Seq::new(v.len(), |i: int| quotient_at(v, n, i))
        }
    }

    fn sqnorm(&self) -> (r: N) {
        self.dot(self)
    }

    fn norm(&self) -> (r: N) {
        proof {
            lemma_dot_sum_nonneg(self@, self@.len() as int);
        }
        self.dot(self).sqrt()
    }

    fn normalized(&self) -> (r: Self) {
        let n = self.norm();
        let z = N::zero();
        proof {
            z.lemma_val();
            lemma_dot_sum_nonneg(self@, self@.len() as int);
            lemma_floor_sqrt(dot_sum(self@, self@, self@.len() as int));
        }
        if n.same(z) {
            self.duplicate()
        } else {
            self.shrunk(n)
        }
    }

    fn normalize(&mut self) -> (r: N) {
        let n = self.norm();
        let z = N::zero();
        proof {
            z.lemma_val();
            lemma_dot_sum_nonneg(self@, self@.len() as int);
            lemma_floor_sqrt(dot_sum(self@, self@, self@.len() as int));
        }
        if !n.same(z) {
            let shrunk = self.shrunk(n);
            self.at = shrunk.at;
        }
        n
    }
}

impl DMatModel {
    /// The transpose of a matrix whose rows have `ncols` components each;
    /// any other model is left as it is.
    pub open spec fn transposed(self) -> Self {
        if self.wf() {
            DMatModel {
                ncols: self.nrows(),
                rows: Seq::new(
                    self.ncols,
                    |j: int| Seq::new(self.nrows(), |i: int| self.rows[i][j]),
                ),
            }
        } else {
            self
        }
    }
}

impl<N: Scalar> Transpose for DMat<N> {
    open spec fn transposed_model(m: DMatModel) -> DMatModel {
        m.transposed()
    }

    proof fn lemma_transpose_involution(m: DMatModel) {
        if m.wf() {
            let t = m.transposed();
            assert(t.wf());
            let u = t.transposed();
            assert(u.rows.len() == m.rows.len());
            assert forall|i: int| 0 <= i < m.rows.len() implies #[trigger] u.rows[i]
                == m.rows[i] by {
                assert(m.rows[i].len() == m.ncols);
                assert(u.rows[i] =~= m.rows[i]);
            }
            assert(u.rows =~= m.rows);
        }
    }

    fn transposed(&self) -> (r: Self) {
        let ghost m = self@;
        let n = self.nrows();
        let ncols = self.ncols();
        let mut rows: Vec<Vec<N>> = Vec::new();
        let mut j: usize = 0;
        while j < ncols
            invariant
                j <= ncols,
                n == m.nrows(),
                ncols == m.ncols,
                m == self@,
                m.wf(),
                rows@.len() == j,
                forall|a: int|
                    0 <= a < j ==> (#[trigger] rows@[a])@.len() == n && forall|b: int|
                        0 <= b < n ==> (#[trigger] rows@[a]@[b]).val() == m.rows[b][a],
            decreases ncols - j,
        {
            let mut row: Vec<N> = Vec::new();
            let mut i: usize = 0;
            while i < n
                invariant
                    i <= n,
                    j < ncols,
                    n == m.nrows(),
                    ncols == m.ncols,
                    m == self@,
                    row@.len() == i,
                    forall|b: int| 0 <= b < i ==> (#[trigger] row@[b]).val() == m.rows[b][j as int],
                decreases n - i,
            {
                row.push(self.at(i, j));
                i = i + 1;
            }
            rows.push(row);
            j = j + 1;
        }
        let r = DMat { ncols: n, rows };
        assert(r@.rows =~~= m.transposed().rows);
        r
    }

    fn transpose(&mut self) {
        *self = self.transposed();
    }
}

} // verus!
