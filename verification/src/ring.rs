//! Identities of the ring of integers on which the proofs about vectors and
//! matrices rest.
use vstd::prelude::*;

verus! {

/// Multiplication is commutative.
pub proof fn lemma_comm(a: int, b: int) by (nonlinear_arith)
    ensures
        a * b == b * a,
{
}

/// Multiplication is associative.
pub proof fn lemma_assoc(a: int, b: int, c: int) by (nonlinear_arith)
    ensures
        (a * b) * c == a * (b * c),
{
}

/// A square is not negative.
pub proof fn lemma_square_nonneg(a: int) by (nonlinear_arith)
    ensures
        a * a >= 0,
{
}

/// Multiplication distributes over a difference.
pub proof fn lemma_dist_diff(a: int, b: int, c: int) by (nonlinear_arith)
    ensures
        (a - b) * c == a * c - b * c,
        c * (a - b) == c * a - c * b,
{
}

/// The products of two integers and of their inverses.
pub proof fn lemma_pairs(a: int, b: int) by (nonlinear_arith)
    ensures
        a * b == b * a,
        (-a) * b == -(a * b),
        a * (-b) == -(a * b),
        (-b) * a == -(a * b),
        b * (-a) == -(a * b),
        (-a) * (-b) == a * b,
        (-b) * (-a) == a * b,
{
}

/// A product of three factors does not depend on their order or grouping.
pub proof fn lemma_mono3(a: int, b: int, c: int) by (nonlinear_arith)
    ensures
        a * (b * c) == (a * b) * c,
        a * (c * b) == (a * b) * c,
        b * (a * c) == (a * b) * c,
        b * (c * a) == (a * b) * c,
        c * (a * b) == (a * b) * c,
        c * (b * a) == (a * b) * c,
        (b * a) * c == (a * b) * c,
        (a * c) * b == (a * b) * c,
        (c * a) * b == (a * b) * c,
        (b * c) * a == (a * b) * c,
        (c * b) * a == (a * b) * c,
{
}

/// A product with a zero factor is zero.
pub proof fn lemma_mul_zero(a: int, b: int) by (nonlinear_arith)
    requires
        a == 0 || b == 0,
    ensures
        a * b == 0,
{
}

/// The square of `-1`, `0` or `1` is its absolute value.
pub proof fn lemma_unit_square(a: int) by (nonlinear_arith)
    requires
        -1 <= a <= 1,
    ensures
        a * a == if a == 0 { 0int } else { 1int },
{
}

/// A product of two integers among `-1`, `0` and `1` is among them.
pub proof fn lemma_unit_product(a: int, b: int) by (nonlinear_arith)
    requires
        -1 <= a <= 1,
        -1 <= b <= 1,
    ensures
        -1 <= a * b <= 1,
{
}

/// The absolute value of a product is the product of the absolute values.
pub proof fn lemma_abs_product(a: int, b: int) by (nonlinear_arith)
    ensures
        (if a * b >= 0 { a * b } else { -(a * b) }) == (if a >= 0 { a } else { -a })
            * (if b >= 0 { b } else { -b }),
{
}

/// A square is zero for zero only.
pub proof fn lemma_square_zero(a: int) by (nonlinear_arith)
    ensures
        a * a == 0 <==> a == 0,
{
}

/// An integer whose square is at most one is `-1`, `0` or `1`.
pub proof fn lemma_square_le_one(a: int) by (nonlinear_arith)
    requires
        a * a <= 1,
    ensures
        -1 <= a <= 1,
{
}

/// Multiplication from the right distributes over a sum of 2 terms.
pub proof fn lemma_dist_left2(x1: int, x2: int, c: int) by (nonlinear_arith)
    ensures
        (x1 + x2) * c == x1 * c + x2 * c,
{
}

/// Multiplication from the left distributes over a sum of 2 terms.
pub proof fn lemma_dist_right2(a: int, x1: int, x2: int) by (nonlinear_arith)
    ensures
        a * (x1 + x2) == a * x1 + a * x2,
{
}

/// A row `a` times a matrix `b` times a column `c`, of dimension 2, is the
/// same whichever product is taken first.
pub proof fn lemma_row_mat_col2(
    a1: int, a2: int,
    b11: int, b12: int,
    b21: int, b22: int,
    c1: int, c2: int,
)
    ensures
        (a1 * b11 + a2 * b21) * c1
            + (a1 * b12 + a2 * b22) * c2 == a1 * (b11 * c1 + b12 * c2)
            + a2 * (b21 * c1 + b22 * c2),
{
    lemma_dist_left2(a1 * b11, a2 * b21, c1);
    lemma_dist_left2(a1 * b12, a2 * b22, c2);
    lemma_dist_right2(a1, b11 * c1, b12 * c2);
    lemma_dist_right2(a2, b21 * c1, b22 * c2);
    lemma_assoc(a1, b11, c1);
    lemma_assoc(a1, b12, c2);
    lemma_assoc(a2, b21, c1);
    lemma_assoc(a2, b22, c2);
}

/// Multiplication from the right distributes over a sum of 3 terms.
pub proof fn lemma_dist_left3(x1: int, x2: int, x3: int, c: int) by (nonlinear_arith)
    ensures
        (x1 + x2 + x3) * c == x1 * c + x2 * c + x3 * c,
{
}

/// Multiplication from the left distributes over a sum of 3 terms.
pub proof fn lemma_dist_right3(a: int, x1: int, x2: int, x3: int) by (nonlinear_arith)
    ensures
        a * (x1 + x2 + x3) == a * x1 + a * x2 + a * x3,
{
}

/// A row `a` times a matrix `b` times a column `c`, of dimension 3, is the
/// same whichever product is taken first.
pub proof fn lemma_row_mat_col3(
    a1: int, a2: int, a3: int,
    b11: int, b12: int, b13: int,
    b21: int, b22: int, b23: int,
    b31: int, b32: int, b33: int,
    c1: int, c2: int, c3: int,
)
    ensures
        (a1 * b11 + a2 * b21 + a3 * b31) * c1
            + (a1 * b12 + a2 * b22 + a3 * b32) * c2
            + (a1 * b13 + a2 * b23 + a3 * b33) * c3 == a1 * (b11 * c1 + b12 * c2 + b13 * c3)
            + a2 * (b21 * c1 + b22 * c2 + b23 * c3)
            + a3 * (b31 * c1 + b32 * c2 + b33 * c3),
{
    lemma_dist_left3(a1 * b11, a2 * b21, a3 * b31, c1);
    lemma_dist_left3(a1 * b12, a2 * b22, a3 * b32, c2);
    lemma_dist_left3(a1 * b13, a2 * b23, a3 * b33, c3);
    lemma_dist_right3(a1, b11 * c1, b12 * c2, b13 * c3);
    lemma_dist_right3(a2, b21 * c1, b22 * c2, b23 * c3);
    lemma_dist_right3(a3, b31 * c1, b32 * c2, b33 * c3);
    lemma_assoc(a1, b11, c1);
    lemma_assoc(a1, b12, c2);
    lemma_assoc(a1, b13, c3);
    lemma_assoc(a2, b21, c1);
    lemma_assoc(a2, b22, c2);
    lemma_assoc(a2, b23, c3);
    lemma_assoc(a3, b31, c1);
    lemma_assoc(a3, b32, c2);
    lemma_assoc(a3, b33, c3);
}

/// Multiplication from the right distributes over a sum of 4 terms.
pub proof fn lemma_dist_left4(x1: int, x2: int, x3: int, x4: int, c: int) by (nonlinear_arith)
    ensures
        (x1 + x2 + x3 + x4) * c == x1 * c + x2 * c + x3 * c + x4 * c,
{
}

/// Multiplication from the left distributes over a sum of 4 terms.
pub proof fn lemma_dist_right4(a: int, x1: int, x2: int, x3: int, x4: int) by (nonlinear_arith)
    ensures
        a * (x1 + x2 + x3 + x4) == a * x1 + a * x2 + a * x3 + a * x4,
{
}

/// A row `a` times a matrix `b` times a column `c`, of dimension 4, is the
/// same whichever product is taken first.
pub proof fn lemma_row_mat_col4(
    a1: int, a2: int, a3: int, a4: int,
    b11: int, b12: int, b13: int, b14: int,
    b21: int, b22: int, b23: int, b24: int,
    b31: int, b32: int, b33: int, b34: int,
    b41: int, b42: int, b43: int, b44: int,
    c1: int, c2: int, c3: int, c4: int,
)
    ensures
        (a1 * b11 + a2 * b21 + a3 * b31 + a4 * b41) * c1
            + (a1 * b12 + a2 * b22 + a3 * b32 + a4 * b42) * c2
            + (a1 * b13 + a2 * b23 + a3 * b33 + a4 * b43) * c3
            + (a1 * b14 + a2 * b24 + a3 * b34 + a4 * b44) * c4 == a1 * (b11 * c1 + b12 * c2 + b13
                * c3 + b14 * c4)
            + a2 * (b21 * c1 + b22 * c2 + b23 * c3 + b24 * c4)
            + a3 * (b31 * c1 + b32 * c2 + b33 * c3 + b34 * c4)
            + a4 * (b41 * c1 + b42 * c2 + b43 * c3 + b44 * c4),
{
    lemma_dist_left4(a1 * b11, a2 * b21, a3 * b31, a4 * b41, c1);
    lemma_dist_left4(a1 * b12, a2 * b22, a3 * b32, a4 * b42, c2);
    lemma_dist_left4(a1 * b13, a2 * b23, a3 * b33, a4 * b43, c3);
    lemma_dist_left4(a1 * b14, a2 * b24, a3 * b34, a4 * b44, c4);
    lemma_dist_right4(a1, b11 * c1, b12 * c2, b13 * c3, b14 * c4);
    lemma_dist_right4(a2, b21 * c1, b22 * c2, b23 * c3, b24 * c4);
    lemma_dist_right4(a3, b31 * c1, b32 * c2, b33 * c3, b34 * c4);
    lemma_dist_right4(a4, b41 * c1, b42 * c2, b43 * c3, b44 * c4);
    lemma_assoc(a1, b11, c1);
    lemma_assoc(a1, b12, c2);
    lemma_assoc(a1, b13, c3);
    lemma_assoc(a1, b14, c4);
    lemma_assoc(a2, b21, c1);
    lemma_assoc(a2, b22, c2);
    lemma_assoc(a2, b23, c3);
    lemma_assoc(a2, b24, c4);
    lemma_assoc(a3, b31, c1);
    lemma_assoc(a3, b32, c2);
    lemma_assoc(a3, b33, c3);
    lemma_assoc(a3, b34, c4);
    lemma_assoc(a4, b41, c1);
    lemma_assoc(a4, b42, c2);
    lemma_assoc(a4, b43, c3);
    lemma_assoc(a4, b44, c4);
}

/// Multiplication from the right distributes over a sum of 5 terms.
pub proof fn lemma_dist_left5(x1: int, x2: int, x3: int, x4: int, x5: int,
    c: int) by (nonlinear_arith)
    ensures
        (x1 + x2 + x3 + x4 + x5) * c == x1 * c + x2 * c + x3 * c + x4 * c + x5 * c,
{
}

/// Multiplication from the left distributes over a sum of 5 terms.
pub proof fn lemma_dist_right5(a: int, x1: int, x2: int, x3: int, x4: int,
    x5: int) by (nonlinear_arith)
    ensures
        a * (x1 + x2 + x3 + x4 + x5) == a * x1 + a * x2 + a * x3 + a * x4 + a * x5,
{
}

/// A row `a` times a matrix `b` times a column `c`, of dimension 5, is the
/// same whichever product is taken first.
pub proof fn lemma_row_mat_col5(
    a1: int, a2: int, a3: int, a4: int, a5: int,
    b11: int, b12: int, b13: int, b14: int, b15: int,
    b21: int, b22: int, b23: int, b24: int, b25: int,
    b31: int, b32: int, b33: int, b34: int, b35: int,
    b41: int, b42: int, b43: int, b44: int, b45: int,
    b51: int, b52: int, b53: int, b54: int, b55: int,
    c1: int, c2: int, c3: int, c4: int, c5: int,
)
    ensures
        (a1 * b11 + a2 * b21 + a3 * b31 + a4 * b41 + a5 * b51) * c1
            + (a1 * b12 + a2 * b22 + a3 * b32 + a4 * b42 + a5 * b52) * c2
            + (a1 * b13 + a2 * b23 + a3 * b33 + a4 * b43 + a5 * b53) * c3
            + (a1 * b14 + a2 * b24 + a3 * b34 + a4 * b44 + a5 * b54) * c4
            + (a1 * b15 + a2 * b25 + a3 * b35 + a4 * b45 + a5 * b55) * c5 == a1 * (b11 * c1 + b12
                * c2 + b13 * c3 + b14 * c4 + b15 * c5)
            + a2 * (b21 * c1 + b22 * c2 + b23 * c3 + b24 * c4 + b25 * c5)
            + a3 * (b31 * c1 + b32 * c2 + b33 * c3 + b34 * c4 + b35 * c5)
            + a4 * (b41 * c1 + b42 * c2 + b43 * c3 + b44 * c4 + b45 * c5)
            + a5 * (b51 * c1 + b52 * c2 + b53 * c3 + b54 * c4 + b55 * c5),
{
    lemma_dist_left5(a1 * b11, a2 * b21, a3 * b31, a4 * b41, a5 * b51, c1);
    lemma_dist_left5(a1 * b12, a2 * b22, a3 * b32, a4 * b42, a5 * b52, c2);
    lemma_dist_left5(a1 * b13, a2 * b23, a3 * b33, a4 * b43, a5 * b53, c3);
    lemma_dist_left5(a1 * b14, a2 * b24, a3 * b34, a4 * b44, a5 * b54, c4);
    lemma_dist_left5(a1 * b15, a2 * b25, a3 * b35, a4 * b45, a5 * b55, c5);
    lemma_dist_right5(a1, b11 * c1, b12 * c2, b13 * c3, b14 * c4, b15 * c5);
    lemma_dist_right5(a2, b21 * c1, b22 * c2, b23 * c3, b24 * c4, b25 * c5);
    lemma_dist_right5(a3, b31 * c1, b32 * c2, b33 * c3, b34 * c4, b35 * c5);
    lemma_dist_right5(a4, b41 * c1, b42 * c2, b43 * c3, b44 * c4, b45 * c5);
    lemma_dist_right5(a5, b51 * c1, b52 * c2, b53 * c3, b54 * c4, b55 * c5);
    lemma_assoc(a1, b11, c1);
    lemma_assoc(a1, b12, c2);
    lemma_assoc(a1, b13, c3);
    lemma_assoc(a1, b14, c4);
    lemma_assoc(a1, b15, c5);
    lemma_assoc(a2, b21, c1);
    lemma_assoc(a2, b22, c2);
    lemma_assoc(a2, b23, c3);
    lemma_assoc(a2, b24, c4);
    lemma_assoc(a2, b25, c5);
    lemma_assoc(a3, b31, c1);
    lemma_assoc(a3, b32, c2);
    lemma_assoc(a3, b33, c3);
    lemma_assoc(a3, b34, c4);
    lemma_assoc(a3, b35, c5);
    lemma_assoc(a4, b41, c1);
    lemma_assoc(a4, b42, c2);
    lemma_assoc(a4, b43, c3);
    lemma_assoc(a4, b44, c4);
    lemma_assoc(a4, b45, c5);
    lemma_assoc(a5, b51, c1);
    lemma_assoc(a5, b52, c2);
    lemma_assoc(a5, b53, c3);
    lemma_assoc(a5, b54, c4);
    lemma_assoc(a5, b55, c5);
}

/// Multiplication from the right distributes over a sum of 6 terms.
pub proof fn lemma_dist_left6(x1: int, x2: int, x3: int, x4: int, x5: int, x6: int,
    c: int) by (nonlinear_arith)
    ensures
        (x1 + x2 + x3 + x4 + x5 + x6) * c == x1 * c + x2 * c + x3 * c + x4 * c + x5 * c + x6 * c,
{
}

/// Multiplication from the left distributes over a sum of 6 terms.
pub proof fn lemma_dist_right6(a: int, x1: int, x2: int, x3: int, x4: int, x5: int,
    x6: int) by (nonlinear_arith)
    ensures
        a * (x1 + x2 + x3 + x4 + x5 + x6) == a * x1 + a * x2 + a * x3 + a * x4 + a * x5 + a * x6,
{
}

/// A row `a` times a matrix `b` times a column `c`, of dimension 6, is the
/// same whichever product is taken first.
pub proof fn lemma_row_mat_col6(
    a1: int, a2: int, a3: int, a4: int, a5: int, a6: int,
    b11: int, b12: int, b13: int, b14: int, b15: int, b16: int,
    b21: int, b22: int, b23: int, b24: int, b25: int, b26: int,
    b31: int, b32: int, b33: int, b34: int, b35: int, b36: int,
    b41: int, b42: int, b43: int, b44: int, b45: int, b46: int,
    b51: int, b52: int, b53: int, b54: int, b55: int, b56: int,
    b61: int, b62: int, b63: int, b64: int, b65: int, b66: int,
    c1: int, c2: int, c3: int, c4: int, c5: int, c6: int,
)
    ensures
        (a1 * b11 + a2 * b21 + a3 * b31 + a4 * b41 + a5 * b51 + a6 * b61) * c1
            + (a1 * b12 + a2 * b22 + a3 * b32 + a4 * b42 + a5 * b52 + a6 * b62) * c2
            + (a1 * b13 + a2 * b23 + a3 * b33 + a4 * b43 + a5 * b53 + a6 * b63) * c3
            + (a1 * b14 + a2 * b24 + a3 * b34 + a4 * b44 + a5 * b54 + a6 * b64) * c4
            + (a1 * b15 + a2 * b25 + a3 * b35 + a4 * b45 + a5 * b55 + a6 * b65) * c5
            + (a1 * b16 + a2 * b26 + a3 * b36 + a4 * b46 + a5 * b56 + a6 * b66) * c6 == a1 * (b11
                * c1 + b12 * c2 + b13 * c3 + b14 * c4 + b15 * c5 + b16 * c6)
            + a2 * (b21 * c1 + b22 * c2 + b23 * c3 + b24 * c4 + b25 * c5 + b26 * c6)
            + a3 * (b31 * c1 + b32 * c2 + b33 * c3 + b34 * c4 + b35 * c5 + b36 * c6)
            + a4 * (b41 * c1 + b42 * c2 + b43 * c3 + b44 * c4 + b45 * c5 + b46 * c6)
            + a5 * (b51 * c1 + b52 * c2 + b53 * c3 + b54 * c4 + b55 * c5 + b56 * c6)
            + a6 * (b61 * c1 + b62 * c2 + b63 * c3 + b64 * c4 + b65 * c5 + b66 * c6),
{
    lemma_dist_left6(a1 * b11, a2 * b21, a3 * b31, a4 * b41, a5 * b51, a6 * b61, c1);
    lemma_dist_left6(a1 * b12, a2 * b22, a3 * b32, a4 * b42, a5 * b52, a6 * b62, c2);
    lemma_dist_left6(a1 * b13, a2 * b23, a3 * b33, a4 * b43, a5 * b53, a6 * b63, c3);
    lemma_dist_left6(a1 * b14, a2 * b24, a3 * b34, a4 * b44, a5 * b54, a6 * b64, c4);
    lemma_dist_left6(a1 * b15, a2 * b25, a3 * b35, a4 * b45, a5 * b55, a6 * b65, c5);
    lemma_dist_left6(a1 * b16, a2 * b26, a3 * b36, a4 * b46, a5 * b56, a6 * b66, c6);
    lemma_dist_right6(a1, b11 * c1, b12 * c2, b13 * c3, b14 * c4, b15 * c5, b16 * c6);
    lemma_dist_right6(a2, b21 * c1, b22 * c2, b23 * c3, b24 * c4, b25 * c5, b26 * c6);
    lemma_dist_right6(a3, b31 * c1, b32 * c2, b33 * c3, b34 * c4, b35 * c5, b36 * c6);
    lemma_dist_right6(a4, b41 * c1, b42 * c2, b43 * c3, b44 * c4, b45 * c5, b46 * c6);
    lemma_dist_right6(a5, b51 * c1, b52 * c2, b53 * c3, b54 * c4, b55 * c5, b56 * c6);
    lemma_dist_right6(a6, b61 * c1, b62 * c2, b63 * c3, b64 * c4, b65 * c5, b66 * c6);
    lemma_assoc(a1, b11, c1);
    lemma_assoc(a1, b12, c2);
    lemma_assoc(a1, b13, c3);
    lemma_assoc(a1, b14, c4);
    lemma_assoc(a1, b15, c5);
    lemma_assoc(a1, b16, c6);
    lemma_assoc(a2, b21, c1);
    lemma_assoc(a2, b22, c2);
    lemma_assoc(a2, b23, c3);
    lemma_assoc(a2, b24, c4);
    lemma_assoc(a2, b25, c5);
    lemma_assoc(a2, b26, c6);
    lemma_assoc(a3, b31, c1);
    lemma_assoc(a3, b32, c2);
    lemma_assoc(a3, b33, c3);
    lemma_assoc(a3, b34, c4);
    lemma_assoc(a3, b35, c5);
    lemma_assoc(a3, b36, c6);
    lemma_assoc(a4, b41, c1);
    lemma_assoc(a4, b42, c2);
    lemma_assoc(a4, b43, c3);
    lemma_assoc(a4, b44, c4);
    lemma_assoc(a4, b45, c5);
    lemma_assoc(a4, b46, c6);
    lemma_assoc(a5, b51, c1);
    lemma_assoc(a5, b52, c2);
    lemma_assoc(a5, b53, c3);
    lemma_assoc(a5, b54, c4);
    lemma_assoc(a5, b55, c5);
    lemma_assoc(a5, b56, c6);
    lemma_assoc(a6, b61, c1);
    lemma_assoc(a6, b62, c2);
    lemma_assoc(a6, b63, c3);
    lemma_assoc(a6, b64, c4);
    lemma_assoc(a6, b65, c5);
    lemma_assoc(a6, b66, c6);
}

} // verus!
