//! Points, extents and the change of axes between a room and the view.

use vstd::prelude::*;
use crate::scalar::Scalar;

verus! {

/// A point, or a displacement, by its three coordinates.
#[derive(Clone, Copy, Debug, PartialEq, Eq, Hash, Structural)]
pub struct Point3 {
    pub x: Scalar,
    pub y: Scalar,
    pub z: Scalar,
}

/// A rotation as a quaternion: scalar part `s`, vector part `(x, y, z)`.
/// The library stores it and hands it on; it never computes with it.
#[derive(Clone, Copy, Debug, PartialEq, Eq, Hash, Structural)]
pub struct Quaternion {
    pub s: Scalar,
    pub x: Scalar,
    pub y: Scalar,
    pub z: Scalar,
}

/// The extent of a room along its three axes. The room is the box from the
/// origin to `(width, depth, height)`; height runs along the third axis.
#[derive(Clone, Copy, Debug, PartialEq, Eq, Hash, Structural)]
pub struct RoomDims {
    pub width: Scalar,
    pub depth: Scalar,
    pub height: Scalar,
}

/// The extent of a portal's opening.
#[derive(Clone, Copy, Debug, PartialEq, Eq, Hash, Structural)]
pub struct PortalDims {
    pub width: Scalar,
    pub height: Scalar,
}

/// A rectangle of pixels of the draw target: its first pixel and its extent.
#[derive(Clone, Copy, Debug, PartialEq, Eq, Hash, Structural)]
pub struct Viewport {
    pub x: u32,
    pub y: u32,
    pub width: u32,
    pub height: u32,
}

/// The entry in row `row` and column `col` of the axis inversion: the matrix
/// that carries a room's coordinates, where the third axis points up, to the
/// coordinates of the view, where the second axis does.
pub open spec fn axis_inversion_entry(row: int, col: int) -> int {
    if row == 0 && col == 0 {
        1
    } else if row == 1 && col == 2 {
        1
    } else if row == 2 && col == 1 {
        -1
    } else {
        0
    }
}

/// The columns of the axis inversion, first column first.
pub open spec fn axis_inversion_columns() -> [[i8; 3]; 3] {
    [[1i8, 0i8, 0i8], [0i8, 0i8, -1i8], [0i8, 1i8, 0i8]]
}

/// The columns of the axis inversion, first column first, each entry being
/// `axis_inversion_entry` of its row and column.
pub fn axis_inversion() -> (columns: [[i8; 3]; 3])
    ensures
        columns == axis_inversion_columns(),
        forall|row: int, col: int|
            0 <= row < 3 && 0 <= col < 3 ==> #[trigger] columns[col][row] as int
                == axis_inversion_entry(row, col),
{
    let columns: [[i8; 3]; 3] = [[1, 0, 0], [0, 0, -1], [0, 1, 0]];
    assert(columns[0]@ =~= axis_inversion_columns()[0]@);
    assert(columns[1]@ =~= axis_inversion_columns()[1]@);
    assert(columns[2]@ =~= axis_inversion_columns()[2]@);
    assert(columns@ =~= axis_inversion_columns()@);
    columns
}

/// The displacement from `b` to `a`.
pub open spec fn minus(a: (int, int, int), b: (int, int, int)) -> (int, int, int) {
    (a.0 - b.0, a.1 - b.1, a.2 - b.2)
}

/// The cross product of two displacements.
pub open spec fn cross(a: (int, int, int), b: (int, int, int)) -> (int, int, int) {
    (a.1 * b.2 - a.2 * b.1, a.2 * b.0 - a.0 * b.2, a.0 * b.1 - a.1 * b.0)
}

/// The coordinate of `v` along `axis`.
pub open spec fn component(v: (int, int, int), axis: int) -> int {
    if axis == 0 {
        v.0
    } else if axis == 1 {
        v.1
    } else {
        v.2
    }
}

/// The direction towards which the triangle with corners `a`, `b`, `c`, in
/// that order, shows its clockwise side: seen from a point that this
/// direction points to, the corners run clockwise. Its length is twice the
/// triangle's area.
pub open spec fn clockwise_normal(a: (int, int, int), b: (int, int, int), c: (int, int, int)) -> (
    int,
    int,
    int,
) {
    cross(minus(c, a), minus(b, a))
}

/// On which side of the line from `a` to `b` the point `p` of the same plane
/// lies: positive on one side, negative on the other, zero on the line.
pub open spec fn side_of(a: (int, int), b: (int, int), p: (int, int)) -> int {
    (b.0 - a.0) * (p.1 - a.1) - (b.1 - a.1) * (p.0 - a.0)
}

/// Whether the point `p` lies in the triangle with the corners `a`, `b` and
/// `c`, its edges included: on the same side of all three edges, whichever
/// way the corners run.
pub open spec fn in_triangle(a: (int, int), b: (int, int), c: (int, int), p: (int, int)) -> bool {
    ||| side_of(a, b, p) >= 0 && side_of(b, c, p) >= 0 && side_of(c, a, p) >= 0
    ||| side_of(a, b, p) <= 0 && side_of(b, c, p) <= 0 && side_of(c, a, p) <= 0
}

/// Whether `x` lies between `a` and `b`, whichever of the two is larger.
pub open spec fn between(a: int, b: int, x: int) -> bool {
    (a <= x <= b) || (b <= x <= a)
}

/// Whether the point `p` lies in the rectangle with sides along the axes
/// and with `a` and `c` for opposite corners, its edges included.
pub open spec fn in_rectangle(a: (int, int), c: (int, int), p: (int, int)) -> bool {
    between(a.0, c.0, p.0) && between(a.1, c.1, p.1)
}

/// Whether `a`, `b`, `c`, `d`, in this order, run around a rectangle with
/// sides along the axes that is more than a line.
pub open spec fn runs_around_rectangle(
    a: (int, int),
    b: (int, int),
    c: (int, int),
    d: (int, int),
) -> bool {
    &&& a.0 != c.0 && a.1 != c.1
    &&& (b == (c.0, a.1) && d == (a.0, c.1)) || (b == (a.0, c.1) && d == (c.0, a.1))
}

/// A diagonal splits a rectangle into two triangles that cover it exactly
/// once: a point lies in one of the triangles `a`, `b`, `c` and `c`, `d`,
/// `a` exactly when it lies in the rectangle, and a point that lies in both
/// lies on the diagonal from `a` to `c`.
pub proof fn lemma_diagonal_splits_rectangle(
    a: (int, int),
    b: (int, int),
    c: (int, int),
    d: (int, int),
    p: (int, int),
)
    requires
        runs_around_rectangle(a, b, c, d),
    ensures
        (in_triangle(a, b, c, p) || in_triangle(c, d, a, p)) <==> in_rectangle(a, c, p),
        in_triangle(a, b, c, p) && in_triangle(c, d, a, p) ==> side_of(a, c, p) == 0,
{
    let u = c.0 - a.0;
    let v = c.1 - a.1;
    let x = p.0 - a.0;
    let y = p.1 - a.1;
    let across = v * x - u * y;
    if b == (c.0, a.1) {
        assert(side_of(a, b, p) == u * y && side_of(b, c, p) == v * (u - x) && side_of(c, a, p)
            == across && side_of(c, d, p) == u * (v - y) && side_of(d, a, p) == v * x && side_of(
            a,
            c,
            p,
        ) == -across) by (nonlinear_arith)
            requires
                u == c.0 - a.0 && v == c.1 - a.1 && x == p.0 - a.0 && y == p.1 - a.1,
                across == v * x - u * y,
                b == (c.0, a.1) && d == (a.0, c.1),
        ;
        lemma_half_rectangles(u, v, x, y);
    } else {
        assert(side_of(a, b, p) == -(v * x) && side_of(b, c, p) == -(u * (v - y)) && side_of(
            c,
            a,
            p,
        ) == across && side_of(c, d, p) == -(v * (u - x)) && side_of(d, a, p) == -(u * y)
            && side_of(a, c, p) == -across) by (nonlinear_arith)
            requires
                u == c.0 - a.0 && v == c.1 - a.1 && x == p.0 - a.0 && y == p.1 - a.1,
                across == v * x - u * y,
                b == (a.0, c.1) && d == (c.0, a.1),
        ;
        lemma_half_rectangles(v, u, y, x);
    }
}

/// The two halves of the rectangle from the origin to `(u, v)` on either
/// side of its diagonal, in terms of the products that tell the sides.
proof fn lemma_half_rectangles(u: int, v: int, x: int, y: int)
    requires
        u != 0,
        v != 0,
    ensures
        ({
            let across = v * x - u * y;
            let below = (u * y >= 0 && v * (u - x) >= 0 && across >= 0) || (u * y <= 0 && v * (u
                - x) <= 0 && across <= 0);
            let above = (u * (v - y) >= 0 && v * x >= 0 && -across >= 0) || (u * (v - y) <= 0 && v
                * x <= 0 && -across <= 0);
            &&& (below || above) <==> (between(0, u, x) && between(0, v, y))
            &&& below && above ==> across == 0
        }),
{
    let across = v * x - u * y;
    if u > 0 && v > 0 {
        lemma_half_rectangles_positive(u, v, x, y);
    } else if u < 0 && v < 0 {
        lemma_half_rectangles_positive(-u, -v, -x, -y);
        assert((-u) * (-y) == u * y && (-v) * ((-u) - (-x)) == v * (u - x) && (-v) * (-x) - (-u) * (
        -y) == across && (-u) * ((-v) - (-y)) == u * (v - y) && (-v) * (-x) == v * x)
            by (nonlinear_arith)
            requires
                across == v * x - u * y,
        ;
    } else if u > 0 && v < 0 {
        lemma_half_rectangles_positive(u, -v, x, -y);
        assert(u * (-y) == -(u * y) && (-v) * (u - x) == -(v * (u - x)) && (-v) * x - u * (-y)
            == -across && u * ((-v) - (-y)) == -(u * (v - y)) && (-v) * x == -(v * x))
            by (nonlinear_arith)
            requires
                across == v * x - u * y,
        ;
    } else {
        lemma_half_rectangles_positive(-u, v, -x, y);
        assert((-u) * y == -(u * y) && v * ((-u) - (-x)) == -(v * (u - x)) && v * (-x) - (-u) * y
            == -across && (-u) * (v - y) == -(u * (v - y)) && v * (-x) == -(v * x))
            by (nonlinear_arith)
            requires
                across == v * x - u * y,
        ;
    }
}

/// `lemma_half_rectangles` for a rectangle in the first quadrant.
proof fn lemma_half_rectangles_positive(u: int, v: int, x: int, y: int)
    requires
        u > 0,
        v > 0,
    ensures
        ({
            let across = v * x - u * y;
            let below = (u * y >= 0 && v * (u - x) >= 0 && across >= 0) || (u * y <= 0 && v * (u
                - x) <= 0 && across <= 0);
            let above = (u * (v - y) >= 0 && v * x >= 0 && -across >= 0) || (u * (v - y) <= 0 && v
                * x <= 0 && -across <= 0);
            &&& (below || above) <==> (0 <= x <= u && 0 <= y <= v)
            &&& below && above ==> across == 0
        }),
{
    let across = v * x - u * y;
    assert((u * y >= 0 <==> y >= 0) && (u * y <= 0 <==> y <= 0) && (v * x >= 0 <==> x >= 0) && (v
        * x <= 0 <==> x <= 0)) by (nonlinear_arith)
        requires
            u > 0,
            v > 0,
    ;
    assert((v * (u - x) >= 0 <==> x <= u) && (v * (u - x) <= 0 <==> x >= u) && (u * (v - y) >= 0
        <==> y <= v) && (u * (v - y) <= 0 <==> y >= v)) by (nonlinear_arith)
        requires
            u > 0,
            v > 0,
    ;
    assert(across >= 0 && x <= u ==> y <= v) by (nonlinear_arith)
        requires
            u > 0,
            v > 0,
            across == v * x - u * y,
    ;
    assert(across >= 0 && y >= 0 ==> x >= 0) by (nonlinear_arith)
        requires
            u > 0,
            v > 0,
            across == v * x - u * y,
    ;
    assert(across <= 0 && x >= 0 ==> y >= 0) by (nonlinear_arith)
        requires
            u > 0,
            v > 0,
            across == v * x - u * y,
    ;
    assert(across <= 0 && y <= v ==> x <= u) by (nonlinear_arith)
        requires
            u > 0,
            v > 0,
            across == v * x - u * y,
    ;
    assert(across <= 0 && x >= u && y <= 0 ==> false) by (nonlinear_arith)
        requires
            u > 0,
            v > 0,
            across == v * x - u * y,
    ;
    assert(-across <= 0 && y >= v && x <= 0 ==> false) by (nonlinear_arith)
        requires
            u > 0,
            v > 0,
            across == v * x - u * y,
    ;
}

impl Point3 {
    /// The three coordinates in units of 2^-149.
    pub open spec fn units(self) -> (int, int, int) {
        (self.x.units(), self.y.units(), self.z.units())
    }

    /// Whether all three coordinates are finite numbers.
    pub open spec fn is_finite(self) -> bool {
        self.x.is_finite() && self.y.is_finite() && self.z.is_finite()
    }

    /// The point with the given coordinates.
    pub fn new(x: Scalar, y: Scalar, z: Scalar) -> (p: Point3)
        ensures
            p == (Point3 { x, y, z }),
    {
        Point3 { x, y, z }
    }

    /// The point whose coordinates are all positive zero.
    pub fn origin() -> (p: Point3)
        ensures
            p.x.bits == 0 && p.y.bits == 0 && p.z.bits == 0,
            p.units() == (0int, 0int, 0int),
    {
        Point3 { x: Scalar::zero(), y: Scalar::zero(), z: Scalar::zero() }
    }

    /// The point with every coordinate negated.
    pub open spec fn mirrored(self) -> Point3 {
        Point3 { x: self.x.negated(), y: self.y.negated(), z: self.z.negated() }
    }

    /// The point with the second and third coordinates exchanged and the new
    /// third one negated.
    pub open spec fn axes_inverted(self) -> Point3 {
        Point3 { x: self.x, y: self.z, z: self.y.negated() }
    }

    /// The point mirrored through the origin. Exact.
    pub fn neg(self) -> (p: Point3)
        ensures
            p == self.mirrored(),
            p.units() == (-self.x.units(), -self.y.units(), -self.z.units()),
    {
        Point3 { x: self.x.neg(), y: self.y.neg(), z: self.z.neg() }
    }

    /// The point in the coordinates of the view: the product of the axis
    /// inversion with the point, which only reorders the coordinates and
    /// flips one sign, and is therefore exact.
    pub fn invert_axes(self) -> (p: Point3)
        ensures
            p == self.axes_inverted(),
            p.x.units() == axis_inversion_entry(0, 0) * self.x.units() + axis_inversion_entry(0, 1)
                * self.y.units() + axis_inversion_entry(0, 2) * self.z.units(),
            p.y.units() == axis_inversion_entry(1, 0) * self.x.units() + axis_inversion_entry(1, 1)
                * self.y.units() + axis_inversion_entry(1, 2) * self.z.units(),
            p.z.units() == axis_inversion_entry(2, 0) * self.x.units() + axis_inversion_entry(2, 1)
                * self.y.units() + axis_inversion_entry(2, 2) * self.z.units(),
    {
        Point3 { x: self.x, y: self.z, z: self.y.neg() }
    }
}

impl Quaternion {
    /// The quaternion whose four parts are all positive zero.
    pub fn zero() -> (q: Quaternion)
        ensures
            q.s.bits == 0 && q.x.bits == 0 && q.y.bits == 0 && q.z.bits == 0,
    {
        Quaternion { s: Scalar::zero(), x: Scalar::zero(), y: Scalar::zero(), z: Scalar::zero() }
    }
}

impl RoomDims {
    /// Whether the room has a finite extent above zero along every axis.
    pub open spec fn is_valid(self) -> bool {
        self.width.is_positive() && self.depth.is_positive() && self.height.is_positive()
    }

    /// The three extents in units of 2^-149.
    pub open spec fn units(self) -> (int, int, int) {
        (self.width.units(), self.depth.units(), self.height.units())
    }

    /// Tells whether the extents are valid.
    pub fn check_valid(&self) -> (r: bool)
        ensures
            r == self.is_valid(),
            r ==> self.width.units() > 0 && self.depth.units() > 0 && self.height.units() > 0,
    {
        self.width.check_positive() && self.depth.check_positive() && self.height.check_positive()
    }
}

impl PortalDims {
    /// Whether the opening has a finite extent above zero both ways.
    pub open spec fn is_valid(self) -> bool {
        self.width.is_positive() && self.height.is_positive()
    }

    /// Whether half the width and half the height are numbers that a scalar
    /// can hold without rounding. Only extents below 2^-125 can fail this.
    pub open spec fn halves_exactly(self) -> bool {
        self.width.units() % 2 == 0 && self.height.units() % 2 == 0
    }

    /// Tells whether the extents are valid.
    pub fn check_valid(&self) -> (r: bool)
        ensures
            r == self.is_valid(),
            r ==> self.width.units() > 0 && self.height.units() > 0,
    {
        self.width.check_positive() && self.height.check_positive()
    }
}

impl Viewport {
    /// Whether the rectangle holds at least one pixel each way, so that the
    /// ratio of its width to its height exists.
    pub open spec fn is_valid(self) -> bool {
        self.width >= 1 && self.height >= 1
    }

    /// Tells whether the rectangle is valid.
    pub fn check_valid(&self) -> (r: bool)
        ensures
            r == self.is_valid(),
    {
        self.width >= 1 && self.height >= 1
    }
}

} // verus!
