//! Shapes of dense matrices and the dimension rules of the operations on them.
use vstd::prelude::*;

verus! {

/// The dimensions of a matrix: `rows` by `cols`.
#[derive(Clone, Copy, Debug, PartialEq, Eq, Structural)]
pub struct Shape {
    pub rows: usize,
    pub cols: usize,
}

/// An operation met an operand of the wrong shape: `expected` is the shape it
/// needed, `actual` the shape it got.
#[derive(Clone, Copy, Debug, PartialEq, Eq, Structural)]
pub struct DimensionMismatch {
    pub expected: Shape,
    pub actual: Shape,
}

/// Shape of the transpose of a matrix of shape `s`.
pub open spec fn transposed(s: Shape) -> Shape {
    Shape { rows: s.cols, cols: s.rows }
}

/// Shape of the square identity matrix of size `n`.
pub open spec fn identity_of(n: usize) -> Shape {
    Shape { rows: n, cols: n }
}

/// Shape of `a · b`, defined only where the columns of `a` match the rows of `b`.
pub open spec fn product(a: Shape, b: Shape) -> Option<Shape> {
    if a.cols == b.rows {
        Some(Shape { rows: a.rows, cols: b.cols })
    } else {
        None
    }
}

/// The right operand that `a · _` would accept with `b`'s column count.
pub open spec fn product_partner(a: Shape, b: Shape) -> Shape {
    Shape { rows: a.cols, cols: b.cols }
}

impl Shape {
    pub fn new(rows: usize, cols: usize) -> (r: Shape)
        ensures
            r.rows == rows,
            r.cols == cols,
    {
        Shape { rows, cols }
    }

    /// Shape of the identity matrix that multiplies `n`-column matrices.
    pub fn identity(n: usize) -> (r: Shape)
        ensures
            r == identity_of(n),
    {
        Shape { rows: n, cols: n }
    }

    /// Shape of the transpose.
    pub fn transpose(&self) -> (r: Shape)
        ensures
            r == transposed(*self),
    {
        Shape { rows: self.cols, cols: self.rows }
    }

    /// Shape of `self · right`; a mismatch names the right operand that was needed.
    pub fn multiply(&self, right: &Shape) -> (r: Result<Shape, DimensionMismatch>)
        ensures
            r is Ok <==> self.cols == right.rows,
            r is Ok ==> Some(r->Ok_0) == product(*self, *right),
            r is Err ==> r->Err_0 == (DimensionMismatch {
                expected: product_partner(*self, *right),
                actual: *right,
            }),
    {
        if self.cols == right.rows {
            Ok(Shape { rows: self.rows, cols: right.cols })
        } else {
            Err(DimensionMismatch { expected: Shape { rows: self.cols, cols: right.cols }, actual: *right })
        }
    }

    /// Shape of an elementwise operation (add, subtract, multiply) of `self`
    /// with `other`: both must have the same shape.
    pub fn elementwise(&self, other: &Shape) -> (r: Result<Shape, DimensionMismatch>)
        ensures
            r is Ok <==> *self == *other,
            r is Ok ==> r->Ok_0 == *self,
            r is Err ==> r->Err_0 == (DimensionMismatch { expected: *self, actual: *other }),
    {
        if *self == *other {
            Ok(*self)
        } else {
            Err(DimensionMismatch { expected: *self, actual: *other })
        }
    }
}

/// Transposing twice gives back the original shape, and multiplying by the
/// identity of matching size keeps the shape.
pub proof fn lemma_transpose_and_identity(a: Shape)
    ensures
        transposed(transposed(a)) == a,
        product(a, identity_of(a.cols)) == Some(a),
{
}

/// A product of two matrices of one non-square shape always fails.
pub proof fn lemma_same_non_square_shapes_do_not_multiply(a: Shape)
    requires
        a.rows != a.cols,
    ensures
        product(a, a) is None,
{
}

} // verus!
