//! Exact plane and space arithmetic.
//!
//! Positions are vectors of rationals that share one positive denominator:
//! `Point2 { x, y, den }` stands for the point `(x / den, y / den)`. Linear
//! maps are integer matrices, stored by columns. All of it
//! is exact: no rounding error enters a conversion between coordinate spaces.
use vstd::prelude::*;

verus! {

/// Largest magnitude of a numerator or denominator of a position handed to a
/// coordinate conversion (keeps every intermediate product within `i128`).
pub const MAX_POSITION: i128 = 4294967296;

/// A pair of unsigned integers: a size in tiles or in pixels, or a cell.
#[derive(Debug, Clone, Copy, PartialEq, Eq, Structural)]
pub struct UVec2 {
    pub x: u32,
    pub y: u32,
}

/// A pair of signed integers: a grid direction or a cell that may lie
/// outside the grid.
#[derive(Debug, Clone, Copy, PartialEq, Eq, Structural)]
pub struct IVec2 {
    pub x: i64,
    pub y: i64,
}

/// An integer vector in three dimensions, one column of a `Mat3`.
#[derive(Debug, Clone, Copy, PartialEq, Eq, Structural)]
pub struct Int3 {
    pub x: i64,
    pub y: i64,
    pub z: i64,
}

/// An integer 3x3 matrix, given by its columns: `M * (x, y, z)` is
/// `x * x_axis + y * y_axis + z * z_axis`.
#[derive(Debug, Clone, Copy, PartialEq, Eq, Structural)]
pub struct Mat3 {
    pub x_axis: Int3,
    pub y_axis: Int3,
    pub z_axis: Int3,
}

/// An integer 2x2 matrix, given by its columns.
#[derive(Debug, Clone, Copy, PartialEq, Eq, Structural)]
pub struct Mat2 {
    pub x_axis_x: i64,
    pub x_axis_y: i64,
    pub y_axis_x: i64,
    pub y_axis_y: i64,
}

/// The point `(x / den, y / den)`.
#[derive(Debug, Clone, Copy, PartialEq, Eq, Structural)]
pub struct Point2 {
    pub x: i128,
    pub y: i128,
    pub den: i128,
}

/// The point `(x / den, y / den, z / den)`.
#[derive(Debug, Clone, Copy, PartialEq, Eq, Structural)]
pub struct Point3 {
    pub x: i128,
    pub y: i128,
    pub z: i128,
    pub den: i128,
}

/// Mathematical value of a `Point2`: unbounded numerators over a denominator.
pub ghost struct Q2 {
    pub x: int,
    pub y: int,
    pub den: int,
}

/// Mathematical value of a `Point3`.
pub ghost struct Q3 {
    pub x: int,
    pub y: int,
    pub z: int,
    pub den: int,
}

impl View for Point2 {
    type V = Q2;

    open spec fn view(&self) -> Q2 {
        Q2 { x: self.x as int, y: self.y as int, den: self.den as int }
    }
}

impl View for Point3 {
    type V = Q3;

    open spec fn view(&self) -> Q3 {
        Q3 { x: self.x as int, y: self.y as int, z: self.z as int, den: self.den as int }
    }
}

/// `n1 / d1 == n2 / d2`, for positive denominators.
pub open spec fn same_ratio(n1: int, d1: int, n2: int, d2: int) -> bool {
    n1 * d2 == n2 * d1
}

/// `n1 / d1 <= n2 / d2`, for positive denominators.
pub open spec fn ratio_le(n1: int, d1: int, n2: int, d2: int) -> bool {
    n1 * d2 <= n2 * d1
}

/// Every numerator and the denominator are bounded by `MAX_POSITION`, and the
/// denominator is positive.
pub open spec fn bounded_point2(p: Point2) -> bool {
    &&& 0 < p.den <= MAX_POSITION
    &&& -MAX_POSITION <= p.x <= MAX_POSITION
    &&& -MAX_POSITION <= p.y <= MAX_POSITION
}

/// As `bounded_point2`, for a point in space.
pub open spec fn bounded_point3(p: Point3) -> bool {
    &&& 0 < p.den <= MAX_POSITION
    &&& -MAX_POSITION <= p.x <= MAX_POSITION
    &&& -MAX_POSITION <= p.y <= MAX_POSITION
    &&& -MAX_POSITION <= p.z <= MAX_POSITION
}

/// `|a * b| <= ba * bb` whenever `|a| <= ba` and `|b| <= bb`.
pub proof fn lemma_mul_within(a: int, b: int, ba: int, bb: int) by (nonlinear_arith)
    requires
        -ba <= a <= ba,
        -bb <= b <= bb,
    ensures
        -(ba * bb) <= a * b <= ba * bb,
{
}

/// The product of two positive numbers is positive.
pub proof fn lemma_mul_positive(a: int, b: int) by (nonlinear_arith)
    requires
        0 < a,
        0 < b,
    ensures
        0 < a * b,
{
}

/// First row of `m` applied to `(x, y, z)`.
pub open spec fn row_x(m: Mat3, x: int, y: int, z: int) -> int {
    m.x_axis.x * x + m.y_axis.x * y + m.z_axis.x * z
}

/// Second row of `m` applied to `(x, y, z)`.
pub open spec fn row_y(m: Mat3, x: int, y: int, z: int) -> int {
    m.x_axis.y * x + m.y_axis.y * y + m.z_axis.y * z
}

/// Third row of `m` applied to `(x, y, z)`: the depth.
pub open spec fn row_z(m: Mat3, x: int, y: int, z: int) -> int {
    m.x_axis.z * x + m.y_axis.z * y + m.z_axis.z * z
}

/// Every entry of `m` lies in `[-bound, bound]`.
pub open spec fn mat3_within(m: Mat3, bound: int) -> bool {
    &&& -bound <= m.x_axis.x <= bound
    &&& -bound <= m.x_axis.y <= bound
    &&& -bound <= m.x_axis.z <= bound
    &&& -bound <= m.y_axis.x <= bound
    &&& -bound <= m.y_axis.y <= bound
    &&& -bound <= m.y_axis.z <= bound
    &&& -bound <= m.z_axis.x <= bound
    &&& -bound <= m.z_axis.y <= bound
    &&& -bound <= m.z_axis.z <= bound
}

/// Determinant of the upper-left 2x2 block of `m`.
pub open spec fn det2(m: Mat3) -> int {
    m.x_axis.x * m.y_axis.y - m.y_axis.x * m.x_axis.y
}

/// `a * x + b * y + c * z` for small coefficients and a bounded point.
pub fn apply_row(a: i64, b: i64, c: i64, p: Point3) -> (r: i128)
    requires
        -256 <= a <= 256,
        -256 <= b <= 256,
        -256 <= c <= 256,
        bounded_point3(p),
    ensures
        r == a * p.x + b * p.y + c * p.z,
        -3 * 1099511627776 <= r <= 3 * 1099511627776,
{
    proof {
        lemma_mul_within(a as int, p.x as int, 256, MAX_POSITION as int);
        lemma_mul_within(b as int, p.y as int, 256, MAX_POSITION as int);
        lemma_mul_within(c as int, p.z as int, 256, MAX_POSITION as int);
    }
    a as i128 * p.x + b as i128 * p.y + c as i128 * p.z
}

impl Point2 {
    /// The point `(x, y)` with integer coordinates.
    pub fn from_ints(x: i64, y: i64) -> (r: Point2)
        ensures
            r@ == (Q2 { x: x as int, y: y as int, den: 1 }),
    {
        Point2 { x: x as i128, y: y as i128, den: 1 }
    }

    /// The point `(x / den, y / den)`.
    pub fn new(x: i128, y: i128, den: i128) -> (r: Point2)
        ensures
            r@ == (Q2 { x: x as int, y: y as int, den: den as int }),
    {
        Point2 { x, y, den }
    }

    /// Extend to space with depth zero.
    pub fn extend(&self) -> (r: Point3)
        ensures
            r@ == (Q3 { x: self.x as int, y: self.y as int, z: 0, den: self.den as int }),
    {
        Point3 { x: self.x, y: self.y, z: 0, den: self.den }
    }
}

impl Point3 {
    /// The point `(x / den, y / den, z / den)`.
    pub fn new(x: i128, y: i128, z: i128, den: i128) -> (r: Point3)
        ensures
            r@ == (Q3 { x: x as int, y: y as int, z: z as int, den: den as int }),
    {
        Point3 { x, y, z, den }
    }

    /// Drop the depth.
    pub fn xy(&self) -> (r: Point2)
        ensures
            r@ == (Q2 { x: self.x as int, y: self.y as int, den: self.den as int }),
    {
        Point2 { x: self.x, y: self.y, den: self.den }
    }
}

} // verus!
