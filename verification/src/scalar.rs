//! Scalars: the numeric element types of vectors and matrices.
//!
//! Every scalar stands for a mathematical integer, its value. The arithmetic
//! of a scalar type is exact: an operation is defined where its exact result
//! is representable, and returns that result.
use vstd::prelude::*;

verus! {

/// Types with an additive identity.
pub trait Zero: Sized {
    /// Whether `self` is the additive identity.
    spec fn is_zero(&self) -> bool;

    /// The additive identity.
    fn zero() -> (r: Self)
        ensures
            r.is_zero(),
    ;
}

/// Types with a multiplicative identity.
pub trait One: Sized {
    /// Whether `self` is the multiplicative identity.
    spec fn is_one(&self) -> bool;

    /// The multiplicative identity.
    fn one() -> (r: Self)
        ensures
            r.is_one(),
    ;
}

/// Quotient of `a` by `b`, rounded toward zero.
pub open spec fn trunc_div(a: int, b: int) -> int {
    if a >= 0 {
        a / b
    } else {
        -((-a) / b)
    }
}

/// A quotient by a positive integer lies between zero and the dividend.
pub proof fn lemma_trunc_div_bounds(a: int, n: int)
    requires
        n >= 1,
    ensures
        a >= 0 ==> 0 <= trunc_div(a, n) <= a,
        a < 0 ==> a <= trunc_div(a, n) <= 0,
{
    if a >= 0 {
        assert(0 <= a / n <= a) by (nonlinear_arith)
            requires
                a >= 0,
                n >= 1,
        ;
    } else {
        assert(0 <= (-a) / n <= -a) by (nonlinear_arith)
            requires
                -a >= 0,
                n >= 1,
        ;
    }
}

/// Absolute value of `a`.
pub open spec fn abs_int(a: int) -> int {
    if a >= 0 {
        a
    } else {
        -a
    }
}

/// The largest `r >= 0` with `r * r <= n`; zero for negative `n`.
pub open spec fn floor_sqrt(n: int) -> int
    decreases n,
{
    if n <= 0 {
        0
    } else {
        let r = floor_sqrt(n - 1);
        if (r + 1) * (r + 1) <= n {
            r + 1
        } else {
            r
        }
    }
}

/// `floor_sqrt(n)` is a root of `n` from below: its square is at most `n`,
/// and the square of its successor exceeds `n`.
pub proof fn lemma_floor_sqrt(n: int)
    requires
        n >= 0,
    ensures
        0 <= floor_sqrt(n),
        floor_sqrt(n) * floor_sqrt(n) <= n,
        n < (floor_sqrt(n) + 1) * (floor_sqrt(n) + 1),
    decreases n,
{
    if n > 0 {
        lemma_floor_sqrt(n - 1);
        let r = floor_sqrt(n - 1);
        assert((r + 2) * (r + 2) == (r + 1) * (r + 1) + 2 * r + 3) by (nonlinear_arith);
        assert((r + 1) * (r + 1) == r * r + 2 * r + 1) by (nonlinear_arith);
    }
}

/// The root of a positive integer is positive.
pub proof fn lemma_floor_sqrt_positive(n: int)
    requires
        n >= 1,
    ensures
        floor_sqrt(n) >= 1,
{
    lemma_floor_sqrt(n);
    let r = floor_sqrt(n);
    assert(r == 0 ==> (r + 1) * (r + 1) == 1) by (nonlinear_arith);
}

/// Squaring is strictly monotone on the naturals.
pub proof fn lemma_square_monotone(r: int, s: int) by (nonlinear_arith)
    requires
        0 <= r < s,
    ensures
        (r + 1) * (r + 1) <= s * s,
{
}

/// The root of an integer between two squares lies between their roots.
pub proof fn lemma_floor_sqrt_between(x: int, a: int, b: int)
    requires
        0 <= a,
        a * a <= x,
        x < b * b,
        0 <= b,
    ensures
        a <= floor_sqrt(x) < b,
{
    assert(a * a >= 0) by (nonlinear_arith);
    lemma_floor_sqrt(x);
    let r = floor_sqrt(x);
    if r < a {
        lemma_square_monotone(r, a);
    }
    if b <= r {
        assert(b * b <= r * r) by (nonlinear_arith)
            requires
                0 <= b <= r,
        ;
    }
}

/// The root from below is unique.
pub proof fn lemma_floor_sqrt_unique(n: int, r: int)
    requires
        0 <= r,
        r * r <= n,
        n < (r + 1) * (r + 1),
    ensures
        r == floor_sqrt(n),
{
    assert(r * r >= 0) by (nonlinear_arith);
    lemma_floor_sqrt(n);
    let s = floor_sqrt(n);
    if r < s {
        lemma_square_monotone(r, s);
    }
    if s < r {
        lemma_square_monotone(s, r);
    }
}

/// Whether the integer `v` is representable in the scalar type `N`.
pub open spec fn fits<N: Scalar>(v: int) -> bool {
    N::lo() <= v <= N::hi()
}

/// A numeric element type: a bounded range of integers with exact arithmetic.
///
/// `val` gives the integer a scalar stands for, and `of` the scalar that
/// stands for an integer of the range `lo() ..= hi()`. Each operation
/// requires that its exact result lies in the range.
pub trait Scalar: Copy + Zero + One {
    /// The integer that `self` stands for.
    spec fn val(self) -> int;

    /// The scalar that stands for `v`, where `v` is representable.
    spec fn of(v: int) -> Self;

    /// The least representable integer.
    spec fn lo() -> int;

    /// The greatest representable integer.
    spec fn hi() -> int;

    /// The range holds every integer from `-127` to `127`.
    proof fn lemma_range()
        ensures
            Self::lo() <= -127,
            127 <= Self::hi(),
    ;

    /// A scalar is determined by its value, which is representable.
    proof fn lemma_val(self)
        ensures
            Self::lo() <= self.val() <= Self::hi(),
            Self::of(self.val()) == self,
            self.is_zero() <==> self.val() == 0,
            self.is_one() <==> self.val() == 1,
    ;

    /// The scalar that stands for a representable integer has that integer
    /// as its value.
    proof fn lemma_of(v: int)
        requires
            Self::lo() <= v <= Self::hi(),
        ensures
            Self::of(v).val() == v,
    ;

    /// Sum.
    fn plus(self, o: Self) -> (r: Self)
        requires
            Self::lo() <= self.val() + o.val() <= Self::hi(),
        ensures
            r.val() == self.val() + o.val(),
    ;

    /// Difference.
    fn minus(self, o: Self) -> (r: Self)
        requires
            Self::lo() <= self.val() - o.val() <= Self::hi(),
        ensures
            r.val() == self.val() - o.val(),
    ;

    /// Product.
    fn times(self, o: Self) -> (r: Self)
        requires
            Self::lo() <= self.val() * o.val() <= Self::hi(),
        ensures
            r.val() == self.val() * o.val(),
    ;

    /// Additive inverse.
    fn neg(self) -> (r: Self)
        requires
            Self::lo() <= -self.val() <= Self::hi(),
        ensures
            r.val() == -self.val(),
    ;

    /// Quotient, rounded toward zero.
    fn quot(self, o: Self) -> (r: Self)
        requires
            o.val() != 0,
            Self::lo() <= trunc_div(self.val(), o.val()) <= Self::hi(),
        ensures
            r.val() == trunc_div(self.val(), o.val()),
    ;

    /// Absolute value.
    fn abs(self) -> (r: Self)
        requires
            Self::lo() <= abs_int(self.val()) <= Self::hi(),
        ensures
            r.val() == abs_int(self.val()),
    ;

    /// Whether `self` and `o` stand for the same integer.
    fn same(self, o: Self) -> (r: bool)
        ensures
            r == (self.val() == o.val()),
    ;

    /// Whether `self` is less than `o`.
    fn lt(self, o: Self) -> (r: bool)
        ensures
            r == (self.val() < o.val()),
    ;
}

/// Scalars with a square root, rounded down to the nearest scalar, and with
/// a precision: the factor by which a fraction of such scalars is enlarged
/// before a root is taken of it, so that the root is off by less than one
/// part in the precision.
pub trait Algebraic: Scalar {
    /// The precision of roots of fractions.
    spec fn precision() -> int;

    /// The precision is positive and representable.
    proof fn lemma_precision()
        ensures
            Self::precision() >= 1,
            Self::lo() <= Self::precision() <= Self::hi(),
    ;

    /// The precision, as a scalar.
    fn precision_unit() -> (r: Self)
        ensures
            r.val() == Self::precision(),
    ;


    /// Square root of a non-negative scalar, rounded down.
    fn sqrt(self) -> (r: Self)
        requires
            self.val() >= 0,
        ensures
            r.val() == floor_sqrt(self.val()),
    ;
}

/// Conversion of a scalar to another scalar type, keeping its value.
pub trait Cast<T: Scalar>: Scalar {
    /// The scalar of type `T` with the value of `self`.
    fn cast(self) -> (r: T)
        requires
            fits::<T>(self.val()),
        ensures
            r.val() == self.val(),
    ;
}

impl Zero for i8 {
    open spec fn is_zero(&self) -> bool {
        *self == 0
    }

    fn zero() -> (r: Self) {
        0
    }
}

impl One for i8 {
    open spec fn is_one(&self) -> bool {
        *self == 1
    }

    fn one() -> (r: Self) {
        1
    }
}

impl Scalar for i8 {
    open spec fn val(self) -> int {
        self as int
    }

    open spec fn of(v: int) -> Self {
        v as i8
    }

    open spec fn lo() -> int {
        i8::MIN as int
    }

    open spec fn hi() -> int {
        i8::MAX as int
    }

    proof fn lemma_range() {
    }

    proof fn lemma_val(self) {
    }

    proof fn lemma_of(v: int) {
    }

    fn plus(self, o: Self) -> (r: Self) {
        self + o
    }

    fn minus(self, o: Self) -> (r: Self) {
        self - o
    }

    fn times(self, o: Self) -> (r: Self) {
        self * o
    }

    fn neg(self) -> (r: Self) {
        -self
    }

    fn quot(self, o: Self) -> (r: Self) {
        proof {
            if o == -1 {
                assert(trunc_div(self as int, -1) == -(self as int));
            }
        }
        self / o
    }

    fn abs(self) -> (r: Self) {
        if self >= 0 {
            self
        } else {
            -self
        }
    }

    fn same(self, o: Self) -> (r: bool) {
        self == o
    }

    fn lt(self, o: Self) -> (r: bool) {
        self < o
    }
}

impl Algebraic for i8 {
    open spec fn precision() -> int {
        2
    }

    proof fn lemma_precision() {
    }

    fn precision_unit() -> (r: Self) {
        2
    }

    fn sqrt(self) -> (r: Self) {
        let mut low: i8 = 0;
        let mut high: i8 = 12;
        while high - low > 1
            invariant
                0 <= low < high <= 12,
                low * low <= self,
                self < high * high,
            decreases high - low,
        {
            let mid: i8 = low + (high - low) / 2;
            assert(mid * mid <= 11 * 11) by (nonlinear_arith)
                requires
                    0 <= mid <= 11,
            ;
            if mid * mid <= self {
                low = mid;
            } else {
                high = mid;
            }
        }
        proof {
            lemma_floor_sqrt_unique(self as int, low as int);
        }
        low
    }
}

impl Zero for i16 {
    open spec fn is_zero(&self) -> bool {
        *self == 0
    }

    fn zero() -> (r: Self) {
        0
    }
}

impl One for i16 {
    open spec fn is_one(&self) -> bool {
        *self == 1
    }

    fn one() -> (r: Self) {
        1
    }
}

impl Scalar for i16 {
    open spec fn val(self) -> int {
        self as int
    }

    open spec fn of(v: int) -> Self {
        v as i16
    }

    open spec fn lo() -> int {
        i16::MIN as int
    }

    open spec fn hi() -> int {
        i16::MAX as int
    }

    proof fn lemma_range() {
    }

    proof fn lemma_val(self) {
    }

    proof fn lemma_of(v: int) {
    }

    fn plus(self, o: Self) -> (r: Self) {
        self + o
    }

    fn minus(self, o: Self) -> (r: Self) {
        self - o
    }

    fn times(self, o: Self) -> (r: Self) {
        self * o
    }

    fn neg(self) -> (r: Self) {
        -self
    }

    fn quot(self, o: Self) -> (r: Self) {
        proof {
            if o == -1 {
                assert(trunc_div(self as int, -1) == -(self as int));
            }
        }
        self / o
    }

    fn abs(self) -> (r: Self) {
        if self >= 0 {
            self
        } else {
            -self
        }
    }

    fn same(self, o: Self) -> (r: bool) {
        self == o
    }

    fn lt(self, o: Self) -> (r: bool) {
        self < o
    }
}

impl Algebraic for i16 {
    open spec fn precision() -> int {
        8
    }

    proof fn lemma_precision() {
    }

    fn precision_unit() -> (r: Self) {
        8
    }

    fn sqrt(self) -> (r: Self) {
        let mut low: i16 = 0;
        let mut high: i16 = 182;
        while high - low > 1
            invariant
                0 <= low < high <= 182,
                low * low <= self,
                self < high * high,
            decreases high - low,
        {
            let mid: i16 = low + (high - low) / 2;
            assert(mid * mid <= 181 * 181) by (nonlinear_arith)
                requires
                    0 <= mid <= 181,
            ;
            if mid * mid <= self {
                low = mid;
            } else {
                high = mid;
            }
        }
        proof {
            lemma_floor_sqrt_unique(self as int, low as int);
        }
        low
    }
}

impl Zero for i32 {
    open spec fn is_zero(&self) -> bool {
        *self == 0
    }

    fn zero() -> (r: Self) {
        0
    }
}

impl One for i32 {
    open spec fn is_one(&self) -> bool {
        *self == 1
    }

    fn one() -> (r: Self) {
        1
    }
}

impl Scalar for i32 {
    open spec fn val(self) -> int {
        self as int
    }

    open spec fn of(v: int) -> Self {
        v as i32
    }

    open spec fn lo() -> int {
        i32::MIN as int
    }

    open spec fn hi() -> int {
        i32::MAX as int
    }

    proof fn lemma_range() {
    }

    proof fn lemma_val(self) {
    }

    proof fn lemma_of(v: int) {
    }

    fn plus(self, o: Self) -> (r: Self) {
        self + o
    }

    fn minus(self, o: Self) -> (r: Self) {
        self - o
    }

    fn times(self, o: Self) -> (r: Self) {
        self * o
    }

    fn neg(self) -> (r: Self) {
        -self
    }

    fn quot(self, o: Self) -> (r: Self) {
        proof {
            if o == -1 {
                assert(trunc_div(self as int, -1) == -(self as int));
            }
        }
        self / o
    }

    fn abs(self) -> (r: Self) {
        if self >= 0 {
            self
        } else {
            -self
        }
    }

    fn same(self, o: Self) -> (r: bool) {
        self == o
    }

    fn lt(self, o: Self) -> (r: bool) {
        self < o
    }
}

impl Algebraic for i32 {
    open spec fn precision() -> int {
        32
    }

    proof fn lemma_precision() {
    }

    fn precision_unit() -> (r: Self) {
        32
    }

    fn sqrt(self) -> (r: Self) {
        let mut low: i32 = 0;
        let mut high: i32 = 46341;
        while high - low > 1
            invariant
                0 <= low < high <= 46341,
                low * low <= self,
                self < high * high,
            decreases high - low,
        {
            let mid: i32 = low + (high - low) / 2;
            assert(mid * mid <= 46340 * 46340) by (nonlinear_arith)
                requires
                    0 <= mid <= 46340,
            ;
            if mid * mid <= self {
                low = mid;
            } else {
                high = mid;
            }
        }
        proof {
            lemma_floor_sqrt_unique(self as int, low as int);
        }
        low
    }
}

impl Zero for i64 {
    open spec fn is_zero(&self) -> bool {
        *self == 0
    }

    fn zero() -> (r: Self) {
        0
    }
}

impl One for i64 {
    open spec fn is_one(&self) -> bool {
        *self == 1
    }

    fn one() -> (r: Self) {
        1
    }
}

impl Scalar for i64 {
    open spec fn val(self) -> int {
        self as int
    }

    open spec fn of(v: int) -> Self {
        v as i64
    }

    open spec fn lo() -> int {
        i64::MIN as int
    }

    open spec fn hi() -> int {
        i64::MAX as int
    }

    proof fn lemma_range() {
    }

    proof fn lemma_val(self) {
    }

    proof fn lemma_of(v: int) {
    }

    fn plus(self, o: Self) -> (r: Self) {
        self + o
    }

    fn minus(self, o: Self) -> (r: Self) {
        self - o
    }

    fn times(self, o: Self) -> (r: Self) {
        self * o
    }

    fn neg(self) -> (r: Self) {
        -self
    }

    fn quot(self, o: Self) -> (r: Self) {
        proof {
            if o == -1 {
                assert(trunc_div(self as int, -1) == -(self as int));
            }
        }
        self / o
    }

    fn abs(self) -> (r: Self) {
        if self >= 0 {
            self
        } else {
            -self
        }
    }

    fn same(self, o: Self) -> (r: bool) {
        self == o
    }

    fn lt(self, o: Self) -> (r: bool) {
        self < o
    }
}

impl Algebraic for i64 {
    open spec fn precision() -> int {
        1024
    }

    proof fn lemma_precision() {
    }

    fn precision_unit() -> (r: Self) {
        1024
    }

    fn sqrt(self) -> (r: Self) {
        let mut low: i64 = 0;
        let mut high: i64 = 3037000500;
        while high - low > 1
            invariant
                0 <= low < high <= 3037000500,
                low * low <= self,
                self < high * high,
            decreases high - low,
        {
            let mid: i64 = low + (high - low) / 2;
            assert(mid * mid <= 3037000499 * 3037000499) by (nonlinear_arith)
                requires
                    0 <= mid <= 3037000499,
            ;
            if mid * mid <= self {
                low = mid;
            } else {
                high = mid;
            }
        }
        proof {
            lemma_floor_sqrt_unique(self as int, low as int);
        }
        low
    }
}

impl Zero for i128 {
    open spec fn is_zero(&self) -> bool {
        *self == 0
    }

    fn zero() -> (r: Self) {
        0
    }
}

impl One for i128 {
    open spec fn is_one(&self) -> bool {
        *self == 1
    }

    fn one() -> (r: Self) {
        1
    }
}

impl Scalar for i128 {
    open spec fn val(self) -> int {
        self as int
    }

    open spec fn of(v: int) -> Self {
        v as i128
    }

    open spec fn lo() -> int {
        i128::MIN as int
    }

    open spec fn hi() -> int {
        i128::MAX as int
    }

    proof fn lemma_range() {
    }

    proof fn lemma_val(self) {
    }

    proof fn lemma_of(v: int) {
    }

    fn plus(self, o: Self) -> (r: Self) {
        self + o
    }

    fn minus(self, o: Self) -> (r: Self) {
        self - o
    }

    fn times(self, o: Self) -> (r: Self) {
        self * o
    }

    fn neg(self) -> (r: Self) {
        -self
    }

    fn quot(self, o: Self) -> (r: Self) {
        proof {
            if o == -1 {
                assert(trunc_div(self as int, -1) == -(self as int));
            }
        }
        self / o
    }

    fn abs(self) -> (r: Self) {
        if self >= 0 {
            self
        } else {
            -self
        }
    }

    fn same(self, o: Self) -> (r: bool) {
        self == o
    }

    fn lt(self, o: Self) -> (r: bool) {
        self < o
    }
}

impl Algebraic for i128 {
    open spec fn precision() -> int {
        1048576
    }

    proof fn lemma_precision() {
    }

    fn precision_unit() -> (r: Self) {
        1048576
    }

    fn sqrt(self) -> (r: Self) {
        let mut low: i128 = 0;
        let mut high: i128 = 13043817825332782213;
        while high - low > 1
            invariant
                0 <= low < high <= 13043817825332782213,
                low * low <= self,
                self < high * high,
            decreases high - low,
        {
            let mid: i128 = low + (high - low) / 2;
            assert(mid * mid <= 13043817825332782212 * 13043817825332782212) by (nonlinear_arith)
                requires
                    0 <= mid <= 13043817825332782212,
            ;
            if mid * mid <= self {
                low = mid;
            } else {
                high = mid;
            }
        }
        proof {
            lemma_floor_sqrt_unique(self as int, low as int);
        }
        low
    }
}

impl Cast<i8> for i8 {
    fn cast(self) -> (r: i8) {
        self
    }
}

impl Cast<i16> for i8 {
    fn cast(self) -> (r: i16) {
        self as i16
    }
}

impl Cast<i32> for i8 {
    fn cast(self) -> (r: i32) {
        self as i32
    }
}

impl Cast<i64> for i8 {
    fn cast(self) -> (r: i64) {
        self as i64
    }
}

impl Cast<i128> for i8 {
    fn cast(self) -> (r: i128) {
        self as i128
    }
}

impl Cast<i8> for i16 {
    fn cast(self) -> (r: i8) {
        self as i8
    }
}

impl Cast<i16> for i16 {
    fn cast(self) -> (r: i16) {
        self
    }
}

impl Cast<i32> for i16 {
    fn cast(self) -> (r: i32) {
        self as i32
    }
}

impl Cast<i64> for i16 {
    fn cast(self) -> (r: i64) {
        self as i64
    }
}

impl Cast<i128> for i16 {
    fn cast(self) -> (r: i128) {
        self as i128
    }
}

impl Cast<i8> for i32 {
    fn cast(self) -> (r: i8) {
        self as i8
    }
}

impl Cast<i16> for i32 {
    fn cast(self) -> (r: i16) {
        self as i16
    }
}

impl Cast<i32> for i32 {
    fn cast(self) -> (r: i32) {
        self
    }
}

impl Cast<i64> for i32 {
    fn cast(self) -> (r: i64) {
        self as i64
    }
}

impl Cast<i128> for i32 {
    fn cast(self) -> (r: i128) {
        self as i128
    }
}

impl Cast<i8> for i64 {
    fn cast(self) -> (r: i8) {
        self as i8
    }
}

impl Cast<i16> for i64 {
    fn cast(self) -> (r: i16) {
        self as i16
    }
}

impl Cast<i32> for i64 {
    fn cast(self) -> (r: i32) {
        self as i32
    }
}

impl Cast<i64> for i64 {
    fn cast(self) -> (r: i64) {
        self
    }
}

impl Cast<i128> for i64 {
    fn cast(self) -> (r: i128) {
        self as i128
    }
}

impl Cast<i8> for i128 {
    fn cast(self) -> (r: i8) {
        self as i8
    }
}

impl Cast<i16> for i128 {
    fn cast(self) -> (r: i16) {
        self as i16
    }
}

impl Cast<i32> for i128 {
    fn cast(self) -> (r: i32) {
        self as i32
    }
}

impl Cast<i64> for i128 {
    fn cast(self) -> (r: i64) {
        self as i64
    }
}

impl Cast<i128> for i128 {
    fn cast(self) -> (r: i128) {
        self
    }
}

} // verus!
