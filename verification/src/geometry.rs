//! The meshes: a room as a box of twelve triangles, a portal as a quad of two.
//!
//! Both meshes are built without rounding, so equal inputs give meshes that
//! are equal bit for bit. Coordinates are stated in units of 2^-149 wherever a
//! contract speaks of lengths or directions (see `Scalar::units`).

use vstd::prelude::*;
use crate::scalar::{lemma_magnitude_units_zero, lemma_small_magnitude_units, Scalar};
use crate::server::world::Room;
use crate::space::{
    clockwise_normal, component, cross, in_triangle, lemma_diagonal_splits_rectangle, minus,
    runs_around_rectangle, side_of, Point3, PortalDims, Quaternion, RoomDims,
};

verus! {

/// A colour by its three channels.
#[derive(Clone, Copy, Debug, PartialEq, Eq, Hash, Structural)]
pub struct Rgb {
    pub r: u8,
    pub g: u8,
    pub b: u8,
}

/// A corner of a room's mesh: where it is, and the colour that marks it.
#[derive(Clone, Copy, Debug, PartialEq, Eq, Hash, Structural)]
pub struct GeometryVertex {
    pub pos: Point3,
    pub face_color: Rgb,
}

/// A corner of a portal's quad.
#[derive(Clone, Copy, Debug, PartialEq, Eq, Hash, Structural)]
pub struct PortalVertex {
    pub pos: Point3,
}

/// The quad that marks a portal's opening.
///
/// `corners` are given in the portal's own frame, in which the opening lies
/// in the plane of the first and third axes around the origin. The corner `c`
/// stands in the room at `pos + rot * c`.
#[derive(Clone, Copy, Debug, PartialEq, Eq)]
pub struct PortalQuad {
    pub corners: [PortalVertex; 4],
    pub indices: [u16; 6],
    pub pos: Point3,
    pub rot: Quaternion,
}

/// The number of vertices and of indices that the buffers of one room hold.
pub const ROOM_BUFFER_CAPACITY: usize = 1024;

/// The number of corners of a room's mesh.
pub const ROOM_VERTEX_COUNT: usize = 8;

/// The number of indices of a room's mesh: six walls of two triangles.
pub const ROOM_INDEX_COUNT: usize = 36;

/// The number of corners of a portal's quad.
pub const QUAD_VERTEX_COUNT: usize = 4;

/// The number of indices of a portal's quad: two triangles.
pub const QUAD_INDEX_COUNT: usize = 6;

/// Whether corner `i` of a room lies at the room's full extent along `axis`
/// rather than at zero. Corners 0 to 3 run around the floor, corners 4 to 7
/// around the ceiling above them.
pub open spec fn corner_is_far(i: int, axis: int) -> bool {
    if axis == 0 {
        i == 1 || i == 2 || i == 5 || i == 6
    } else if axis == 1 {
        i == 2 || i == 3 || i == 6 || i == 7
    } else {
        i >= 4
    }
}

/// The extent of the room along `axis`.
pub open spec fn extent(dims: RoomDims, axis: int) -> Scalar {
    if axis == 0 {
        dims.width
    } else if axis == 1 {
        dims.depth
    } else {
        dims.height
    }
}

/// The coordinate of corner `i` along `axis`.
pub open spec fn corner_coordinate(dims: RoomDims, i: int, axis: int) -> Scalar {
    if corner_is_far(i, axis) {
        extent(dims, axis)
    } else {
        Scalar { bits: 0 }
    }
}

/// The colour channel that tells on which side corner `i` lies along `axis`.
pub open spec fn corner_channel(i: int, axis: int) -> u8 {
    if corner_is_far(i, axis) {
        255
    } else {
        0
    }
}

/// Corner `i` of the mesh of a room with extents `dims`.
pub open spec fn corner_vertex(dims: RoomDims, i: int) -> GeometryVertex {
    GeometryVertex {
        pos: Point3 {
            x: corner_coordinate(dims, i, 0),
            y: corner_coordinate(dims, i, 1),
            z: corner_coordinate(dims, i, 2),
        },
        face_color: Rgb {
            r: corner_channel(i, 0),
            g: corner_channel(i, 1),
            b: corner_channel(i, 2),
        },
    }
}

/// The eight corners of the mesh of a room with extents `dims`.
pub open spec fn room_vertices(dims: RoomDims) -> [GeometryVertex; 8] {
    [
        corner_vertex(dims, 0),
        corner_vertex(dims, 1),
        corner_vertex(dims, 2),
        corner_vertex(dims, 3),
        corner_vertex(dims, 4),
        corner_vertex(dims, 5),
        corner_vertex(dims, 6),
        corner_vertex(dims, 7),
    ]
}

/// The corners of the twelve triangles of a room's mesh, wall by wall.
pub open spec fn room_indices() -> [u16; 36] {
    [
        0u16, 3u16, 2u16, 2u16, 1u16, 0u16,
        0u16, 1u16, 5u16, 5u16, 4u16, 0u16,
        0u16, 4u16, 7u16, 7u16, 3u16, 0u16,
        6u16, 7u16, 4u16, 4u16, 5u16, 6u16,
        6u16, 5u16, 1u16, 1u16, 2u16, 6u16,
        6u16, 2u16, 3u16, 3u16, 7u16, 6u16,
    ]
}

/// Builds the mesh of a room: its eight corners and the indices of its twelve
/// triangles.
///
/// Each corner is coloured by where it lies: red is 255 at the room's full
/// width and 0 at zero, green likewise for the depth, blue for the height.
pub fn room_to_triangles(room: &Room) -> (mesh: ([GeometryVertex; 8], [u16; 36]))
    requires
        room.dims.is_valid(),
    ensures
        mesh.0 == room_vertices(room.dims),
        mesh.1 == room_indices(),
        forall|i: int| 0 <= i < 8 ==> #[trigger] mesh.0[i] == corner_vertex(room.dims, i),
        forall|k: int| 0 <= k < 36 ==> 0 <= #[trigger] mesh.1[k] < 8,
        mesh.0@.len() == ROOM_VERTEX_COUNT <= ROOM_BUFFER_CAPACITY,
        mesh.1@.len() == ROOM_INDEX_COUNT <= ROOM_BUFFER_CAPACITY,
{
    proof {
        lemma_room_indices_name_corners();
        assert forall|k: int| 0 <= k < 36 implies 0 <= #[trigger] room_indices()[k] < 8 by {
            assert(0 <= room_index(k) < 8);
        }
    }
    let x = room.dims.width;
    let y = room.dims.depth;
    let z = room.dims.height;
    let o = Scalar::zero();
    let vertices: [GeometryVertex; 8] = [
        GeometryVertex { pos: Point3 { x: o, y: o, z: o }, face_color: Rgb { r: 0, g: 0, b: 0 } },
        GeometryVertex { pos: Point3 { x: x, y: o, z: o }, face_color: Rgb { r: 255, g: 0, b: 0 } },
        GeometryVertex {
            pos: Point3 { x: x, y: y, z: o },
            face_color: Rgb { r: 255, g: 255, b: 0 },
        },
        GeometryVertex { pos: Point3 { x: o, y: y, z: o }, face_color: Rgb { r: 0, g: 255, b: 0 } },
        GeometryVertex { pos: Point3 { x: o, y: o, z: z }, face_color: Rgb { r: 0, g: 0, b: 255 } },
        GeometryVertex {
            pos: Point3 { x: x, y: o, z: z },
            face_color: Rgb { r: 255, g: 0, b: 255 },
        },
        GeometryVertex {
            pos: Point3 { x: x, y: y, z: z },
            face_color: Rgb { r: 255, g: 255, b: 255 },
        },
        GeometryVertex {
            pos: Point3 { x: o, y: y, z: z },
            face_color: Rgb { r: 0, g: 255, b: 255 },
        },
    ];
    let indices: [u16; 36] = [
        0, 3, 2, 2, 1, 0,
        0, 1, 5, 5, 4, 0,
        0, 4, 7, 7, 3, 0,
        6, 7, 4, 4, 5, 6,
        6, 5, 1, 1, 2, 6,
        6, 2, 3, 3, 7, 6,
    ];
    assert(vertices@ =~= room_vertices(room.dims)@);
    assert(indices@ =~= room_indices()@);
    (vertices, indices)
}

/// The corner that stands in place `k` of a room's index list.
pub open spec fn room_index(k: int) -> int {
    room_indices()[k] as int
}

/// The axis that wall `w` of a room is perpendicular to. The walls are
/// numbered in the order in which the index list covers them: floor, front,
/// left, ceiling, right, back.
pub open spec fn wall_axis(w: int) -> int {
    if w == 0 || w == 3 {
        2
    } else if w == 1 || w == 5 {
        1
    } else {
        0
    }
}

/// Whether wall `w` lies at the room's full extent along its axis rather
/// than at zero.
pub open spec fn wall_is_far(w: int) -> bool {
    w >= 3
}

/// Whether corner `i` is one of the four corners of wall `w`.
pub open spec fn corner_on_wall(i: int, w: int) -> bool {
    corner_is_far(i, wall_axis(w)) == wall_is_far(w)
}

/// The area of wall `w`, in squares of the unit 2^-149: the product of the
/// room's extents along the two axes that the wall runs along. It is twice
/// the area of a triangle that is one half of the wall.
pub open spec fn wall_area(dims: RoomDims, w: int) -> int {
    if wall_axis(w) == 0 {
        dims.depth.units() * dims.height.units()
    } else if wall_axis(w) == 1 {
        dims.width.units() * dims.height.units()
    } else {
        dims.width.units() * dims.depth.units()
    }
}

/// The position of corner `i` in units of 2^-149.
pub open spec fn corner_units(dims: RoomDims, i: int) -> (int, int, int) {
    corner_vertex(dims, i).pos.units()
}

/// The direction towards which triangle `t` of a room's mesh shows its
/// clockwise side.
pub open spec fn room_triangle_normal(dims: RoomDims, t: int) -> (int, int, int) {
    clockwise_normal(
        corner_units(dims, room_index(3 * t)),
        corner_units(dims, room_index(3 * t + 1)),
        corner_units(dims, room_index(3 * t + 2)),
    )
}

/// The index list of a room's mesh, entry by entry.
pub proof fn lemma_room_index_table()
    ensures
        room_index(0) == 0 && room_index(1) == 3 && room_index(2) == 2,
        room_index(3) == 2 && room_index(4) == 1 && room_index(5) == 0,
        room_index(6) == 0 && room_index(7) == 1 && room_index(8) == 5,
        room_index(9) == 5 && room_index(10) == 4 && room_index(11) == 0,
        room_index(12) == 0 && room_index(13) == 4 && room_index(14) == 7,
        room_index(15) == 7 && room_index(16) == 3 && room_index(17) == 0,
        room_index(18) == 6 && room_index(19) == 7 && room_index(20) == 4,
        room_index(21) == 4 && room_index(22) == 5 && room_index(23) == 6,
        room_index(24) == 6 && room_index(25) == 5 && room_index(26) == 1,
        room_index(27) == 1 && room_index(28) == 2 && room_index(29) == 6,
        room_index(30) == 6 && room_index(31) == 2 && room_index(32) == 3,
        room_index(33) == 3 && room_index(34) == 7 && room_index(35) == 6,
{
}

/// Every entry of a room's index list names one of the eight corners.
pub proof fn lemma_room_indices_name_corners()
    ensures
        forall|k: int| 0 <= k < 36 ==> 0 <= #[trigger] room_index(k) < 8,
{
    lemma_room_index_table();
}

/// A corner lies at zero or at the room's full extent along each axis, and
/// the full extents are above zero.
pub proof fn lemma_corner_units(dims: RoomDims, i: int)
    requires
        dims.is_valid(),
    ensures
        dims.width.units() > 0 && dims.depth.units() > 0 && dims.height.units() > 0,
        corner_units(dims, i).0 == if corner_is_far(i, 0) {
            dims.width.units()
        } else {
            0
        },
        corner_units(dims, i).1 == if corner_is_far(i, 1) {
            dims.depth.units()
        } else {
            0
        },
        corner_units(dims, i).2 == if corner_is_far(i, 2) {
            dims.height.units()
        } else {
            0
        },
{
    lemma_small_magnitude_units(0);
    lemma_magnitude_units_zero(dims.width.magnitude());
    lemma_magnitude_units_zero(dims.depth.magnitude());
    lemma_magnitude_units_zero(dims.height.magnitude());
}

/// The colour of a corner tells where the corner lies: a channel is 255
/// exactly where the corner lies at the room's full extent along the
/// channel's axis, and 0 where it lies at zero.
pub proof fn lemma_corner_colour_tells_position(dims: RoomDims, i: int)
    requires
        dims.is_valid(),
        0 <= i < 8,
    ensures
        ({
            let v = corner_vertex(dims, i);
            &&& v.face_color.r == 255 <==> v.pos.x == dims.width
            &&& v.face_color.r == 0 <==> v.pos.x.bits == 0
            &&& v.face_color.g == 255 <==> v.pos.y == dims.depth
            &&& v.face_color.g == 0 <==> v.pos.y.bits == 0
            &&& v.face_color.b == 255 <==> v.pos.z == dims.height
            &&& v.face_color.b == 0 <==> v.pos.z.bits == 0
            &&& v.face_color.r == 255 || v.face_color.r == 0
            &&& v.face_color.g == 255 || v.face_color.g == 0
            &&& v.face_color.b == 255 || v.face_color.b == 0
        }),
{
}

/// The eight corners are the eight combinations of near and far: no two
/// corners lie on the same side along all three axes.
pub proof fn lemma_corners_are_distinct(i: int, j: int)
    requires
        0 <= i < 8,
        0 <= j < 8,
        i != j,
    ensures
        exists|axis: int| 0 <= axis < 3 && corner_is_far(i, axis) != corner_is_far(j, axis),
{
    if corner_is_far(i, 0) != corner_is_far(j, 0) {
    } else if corner_is_far(i, 1) != corner_is_far(j, 1) {
    } else {
        assert(corner_is_far(i, 2) != corner_is_far(j, 2));
    }
}

/// Each of the six sides of the box is one wall: for every axis and side
/// there is exactly one wall.
pub proof fn lemma_each_side_is_one_wall(axis: int, far: bool)
    requires
        0 <= axis < 3,
    ensures
        exists|w: int| 0 <= w < 6 && wall_axis(w) == axis && wall_is_far(w) == far,
        forall|w1: int, w2: int|
            0 <= w1 < 6 && 0 <= w2 < 6 && wall_axis(w1) == axis && wall_axis(w2) == axis
                && wall_is_far(w1) == far && wall_is_far(w2) == far ==> w1 == w2,
{
    let w: int = if far {
        if axis == 0 {
            4
        } else if axis == 1 {
            5
        } else {
            3
        }
    } else {
        2 - axis
    };
    assert(0 <= w < 6 && wall_axis(w) == axis && wall_is_far(w) == far);
}

/// The index list covers wall `w` with two triangles that split it along a
/// diagonal.
///
/// With `a`, `b`, `c` the corners of the wall's first triangle and `d` the
/// middle corner of its second: the second triangle is `c`, `d`, `a`; all
/// four are corners of wall `w`; `a` and `c` lie across the wall from each
/// other, and so do `b` and `d`. So `a`, `b`, `c`, `d` run around the wall,
/// and the two triangles are its two halves on either side of the diagonal
/// from `a` to `c`.
pub proof fn lemma_wall_is_split_along_diagonal(w: int)
    requires
        0 <= w < 6,
    ensures
        ({
            let a = room_index(6 * w);
            let b = room_index(6 * w + 1);
            let c = room_index(6 * w + 2);
            let d = room_index(6 * w + 4);
            &&& room_index(6 * w + 3) == c
            &&& room_index(6 * w + 5) == a
            &&& corner_on_wall(a, w) && corner_on_wall(b, w)
            &&& corner_on_wall(c, w) && corner_on_wall(d, w)
            &&& forall|axis: int|
                0 <= axis < 3 && axis != wall_axis(w) ==> corner_is_far(a, axis) != corner_is_far(
                    c,
                    axis,
                ) && corner_is_far(b, axis) != corner_is_far(d, axis)
            &&& a != b && a != c && a != d && b != c && b != d && c != d
        }),
{
    lemma_room_index_table();
}

/// The two axes that wall `w` runs along.
pub open spec fn wall_plane(w: int) -> (int, int) {
    if wall_axis(w) == 0 {
        (1, 2)
    } else if wall_axis(w) == 1 {
        (0, 2)
    } else {
        (0, 1)
    }
}

/// Where corner `i` lies in the plane of wall `w`, in units of 2^-149.
pub open spec fn corner_in_wall(dims: RoomDims, i: int, w: int) -> (int, int) {
    (
        component(corner_units(dims, i), wall_plane(w).0),
        component(corner_units(dims, i), wall_plane(w).1),
    )
}

/// The extents of wall `w` along its two axes, in units of 2^-149.
pub open spec fn wall_extents(dims: RoomDims, w: int) -> (int, int) {
    (extent(dims, wall_plane(w).0).units(), extent(dims, wall_plane(w).1).units())
}

/// The two triangles of wall `w` cover the wall exactly once: a point of
/// the wall's plane lies in one of them exactly when it lies in the wall,
/// and a point that lies in both lies on the diagonal that they share.
pub proof fn lemma_wall_is_covered_once(dims: RoomDims, w: int, p: (int, int))
    requires
        dims.is_valid(),
        0 <= w < 6,
    ensures
        ({
            let a = corner_in_wall(dims, room_index(6 * w), w);
            let b = corner_in_wall(dims, room_index(6 * w + 1), w);
            let c = corner_in_wall(dims, room_index(6 * w + 2), w);
            let d = corner_in_wall(dims, room_index(6 * w + 4), w);
            &&& (in_triangle(a, b, c, p) || in_triangle(c, d, a, p)) <==> (0 <= p.0 <= wall_extents(
                dims,
                w,
            ).0 && 0 <= p.1 <= wall_extents(dims, w).1)
            &&& in_triangle(a, b, c, p) && in_triangle(c, d, a, p) ==> side_of(a, c, p) == 0
        }),
{
    lemma_room_index_table();
    lemma_corner_units(dims, room_index(6 * w));
    lemma_corner_units(dims, room_index(6 * w + 1));
    lemma_corner_units(dims, room_index(6 * w + 2));
    lemma_corner_units(dims, room_index(6 * w + 4));
    let a = corner_in_wall(dims, room_index(6 * w), w);
    let b = corner_in_wall(dims, room_index(6 * w + 1), w);
    let c = corner_in_wall(dims, room_index(6 * w + 2), w);
    let d = corner_in_wall(dims, room_index(6 * w + 4), w);
    assert(runs_around_rectangle(a, b, c, d));
    lemma_diagonal_splits_rectangle(a, b, c, d, p);
}

/// A triangle of a room's mesh lies in one wall only: its three corners are
/// corners of wall `w` exactly when it is one of the two triangles that the
/// index list gives to `w`.
pub proof fn lemma_triangle_lies_in_its_wall(t: int, w: int)
    requires
        0 <= t < 12,
        0 <= w < 6,
    ensures
        (corner_on_wall(room_index(3 * t), w) && corner_on_wall(room_index(3 * t + 1), w)
            && corner_on_wall(room_index(3 * t + 2), w)) <==> w == t / 2,
{
    lemma_room_index_table();
}

/// Every triangle of a room's mesh is wound clockwise for a viewer inside
/// the room: the direction towards which it shows its clockwise side is
/// perpendicular to its wall and points from the wall into the room.
pub proof fn lemma_room_triangles_face_inward(dims: RoomDims, t: int)
    requires
        dims.is_valid(),
        0 <= t < 12,
    ensures
        ({
            let normal = room_triangle_normal(dims, t);
            let axis = wall_axis(t / 2);
            &&& forall|other: int| 0 <= other < 3 && other != axis ==> component(normal, other) == 0
            &&& !wall_is_far(t / 2) ==> component(normal, axis) > 0
            &&& wall_is_far(t / 2) ==> component(normal, axis) < 0
            &&& component(normal, axis) == wall_area(dims, t / 2) || component(normal, axis)
                == -wall_area(dims, t / 2)
        }),
{
    lemma_room_index_table();
    let x = dims.width.units();
    let y = dims.depth.units();
    let z = dims.height.units();
    assert(z * x == x * z) by (nonlinear_arith);
    lemma_corner_units(dims, room_index(3 * t));
    lemma_corner_units(dims, room_index(3 * t + 1));
    lemma_corner_units(dims, room_index(3 * t + 2));
    assert(x * y > 0 && y * x > 0) by (nonlinear_arith)
        requires
            x > 0,
            y > 0,
    ;
    assert(x * z > 0 && z * x > 0) by (nonlinear_arith)
        requires
            x > 0,
            z > 0,
    ;
    assert(y * z > 0 && z * y > 0) by (nonlinear_arith)
        requires
            y > 0,
            z > 0,
    ;
    let a = corner_units(dims, room_index(3 * t));
    let b = corner_units(dims, room_index(3 * t + 1));
    let c = corner_units(dims, room_index(3 * t + 2));
    let normal = cross(minus(c, a), minus(b, a));
    assert(normal == room_triangle_normal(dims, t));
    if t == 0 || t == 1 {
        assert(normal == (0int, 0int, x * y)) by (nonlinear_arith)
            requires
                normal == cross(minus(c, a), minus(b, a)),
                (a == (0int, 0int, 0int) && b == (0int, y, 0int) && c == (x, y, 0int)) || (a == (
                    x,
                    y,
                    0int,
                ) && b == (x, 0int, 0int) && c == (0int, 0int, 0int)),
        ;
    } else if t == 2 || t == 3 {
        assert(normal == (0int, z * x, 0int)) by (nonlinear_arith)
            requires
                normal == cross(minus(c, a), minus(b, a)),
                (a == (0int, 0int, 0int) && b == (x, 0int, 0int) && c == (x, 0int, z)) || (a == (
                    x,
                    0int,
                    z,
                ) && b == (0int, 0int, z) && c == (0int, 0int, 0int)),
        ;
    } else if t == 4 || t == 5 {
        assert(normal == (y * z, 0int, 0int)) by (nonlinear_arith)
            requires
                normal == cross(minus(c, a), minus(b, a)),
                (a == (0int, 0int, 0int) && b == (0int, 0int, z) && c == (0int, y, z)) || (a == (
                    0int,
                    y,
                    z,
                ) && b == (0int, y, 0int) && c == (0int, 0int, 0int)),
        ;
    } else if t == 6 || t == 7 {
        assert(normal == (0int, 0int, -(x * y))) by (nonlinear_arith)
            requires
                normal == cross(minus(c, a), minus(b, a)),
                (a == (x, y, z) && b == (0int, y, z) && c == (0int, 0int, z)) || (a == (
                    0int,
                    0int,
                    z,
                ) && b == (x, 0int, z) && c == (x, y, z)),
        ;
    } else if t == 8 || t == 9 {
        assert(normal == (-(y * z), 0int, 0int)) by (nonlinear_arith)
            requires
                normal == cross(minus(c, a), minus(b, a)),
                (a == (x, y, z) && b == (x, 0int, z) && c == (x, 0int, 0int)) || (a == (
                    x,
                    0int,
                    0int,
                ) && b == (x, y, 0int) && c == (x, y, z)),
        ;
    } else {
        assert(normal == (0int, -(z * x), 0int)) by (nonlinear_arith)
            requires
                normal == cross(minus(c, a), minus(b, a)),
                (a == (x, y, z) && b == (x, y, 0int) && c == (0int, y, 0int)) || (a == (
                    0int,
                    y,
                    0int,
                ) && b == (0int, y, z) && c == (x, y, z)),
        ;
    }
}

/// The corners of the two triangles of a portal's quad.
pub open spec fn quad_indices() -> [u16; 6] {
    [2u16, 1u16, 0u16, 0u16, 3u16, 2u16]
}

/// Whether corner `k` of a portal's quad lies on the positive side of the
/// opening along the first axis (`axis` 0) or along the third (`axis` 2).
pub open spec fn quad_corner_is_positive(k: int, axis: int) -> bool {
    if axis == 0 {
        k == 0 || k == 1
    } else {
        k == 0 || k == 3
    }
}

/// Corner `k` of the quad of an opening with extents `dims`, in the portal's
/// own frame: half the width to either side along the first axis, half the
/// height to either side along the third, and in the plane of the two.
pub open spec fn quad_corner(dims: PortalDims, k: int) -> PortalVertex {
    PortalVertex {
        pos: Point3 {
            x: if quad_corner_is_positive(k, 0) {
                dims.width.halved()
            } else {
                dims.width.halved().negated()
            },
            y: Scalar { bits: 0 },
            z: if quad_corner_is_positive(k, 2) {
                dims.height.halved()
            } else {
                dims.height.halved().negated()
            },
        },
    }
}

/// The four corners of the quad of an opening with extents `dims`.
pub open spec fn quad_corners(dims: PortalDims) -> [PortalVertex; 4] {
    [quad_corner(dims, 0), quad_corner(dims, 1), quad_corner(dims, 2), quad_corner(dims, 3)]
}

/// The quad of an opening with extents `dims`, placed at `pos` and turned by
/// `rot`.
pub open spec fn quad_of(pos: Point3, dims: PortalDims, rot: Quaternion) -> PortalQuad {
    PortalQuad { corners: quad_corners(dims), indices: quad_indices(), pos, rot }
}

/// Builds the quad that marks the opening of a portal placed at `pos` and
/// turned by `rot`: a rectangle of the opening's width and height around the
/// portal's origin, as two triangles.
pub fn portal_quad(pos: Point3, dims: PortalDims, rot: Quaternion) -> (quad: PortalQuad)
    requires
        dims.is_valid(),
    ensures
        quad == quad_of(pos, dims, rot),
        quad.pos == pos,
        quad.rot == rot,
        forall|k: int| 0 <= k < 4 ==> #[trigger] quad.corners[k] == quad_corner(dims, k),
        quad.indices@ == seq![2u16, 1u16, 0u16, 0u16, 3u16, 2u16],
        quad.corners@.len() == QUAD_VERTEX_COUNT,
        quad.indices@.len() == QUAD_INDEX_COUNT,
{
    let right = dims.width.half();
    let left = right.neg();
    let up = dims.height.half();
    let down = up.neg();
    let level = Scalar::zero();
    let corners: [PortalVertex; 4] = [
        PortalVertex { pos: Point3 { x: right, y: level, z: up } },
        PortalVertex { pos: Point3 { x: right, y: level, z: down } },
        PortalVertex { pos: Point3 { x: left, y: level, z: down } },
        PortalVertex { pos: Point3 { x: left, y: level, z: up } },
    ];
    let indices: [u16; 6] = [2, 1, 0, 0, 3, 2];
    assert(corners@ =~= quad_corners(dims)@);
    assert(indices@ =~= quad_indices()@);
    PortalQuad { corners, indices, pos, rot }
}

/// The corner that stands in place `k` of a quad's index list.
pub open spec fn quad_index(k: int) -> int {
    quad_indices()[k] as int
}

/// The position of corner `k` of a quad, in the portal's own frame and in
/// units of 2^-149.
pub open spec fn quad_corner_units(dims: PortalDims, k: int) -> (int, int, int) {
    quad_corner(dims, k).pos.units()
}

/// Where corner `k` of a quad lies in the plane of the opening, in units of
/// 2^-149: along the first axis and along the third.
pub open spec fn quad_corner_in_plane(dims: PortalDims, k: int) -> (int, int) {
    (quad_corner_units(dims, k).0, quad_corner_units(dims, k).2)
}

/// Whether the point `p` of the opening's plane lies in triangle `t` of the
/// quad, its edges included.
pub open spec fn in_quad_triangle(dims: PortalDims, t: int, p: (int, int)) -> bool {
    in_triangle(
        quad_corner_in_plane(dims, quad_index(3 * t)),
        quad_corner_in_plane(dims, quad_index(3 * t + 1)),
        quad_corner_in_plane(dims, quad_index(3 * t + 2)),
        p,
    )
}

/// Whether the point `p` of the opening's plane lies in the opening: within
/// half the width of the portal's origin along the first axis and within
/// half the height along the third.
pub open spec fn in_opening(dims: PortalDims, p: (int, int)) -> bool {
    &&& -dims.width.units() <= 2 * p.0 <= dims.width.units()
    &&& -dims.height.units() <= 2 * p.1 <= dims.height.units()
}

/// The index list of a quad, entry by entry.
pub proof fn lemma_quad_index_table()
    ensures
        quad_index(0) == 2 && quad_index(1) == 1 && quad_index(2) == 0,
        quad_index(3) == 0 && quad_index(4) == 3 && quad_index(5) == 2,
{
}

/// Where the halves are exact, a corner of a quad lies half the width to one
/// side of the portal's origin, half the height above or below it, and in
/// the plane of the opening.
pub proof fn lemma_quad_corner_units(dims: PortalDims, k: int)
    requires
        dims.is_valid(),
        dims.halves_exactly(),
    ensures
        dims.width.units() >= 2 && dims.height.units() >= 2,
        2 * quad_corner_units(dims, k).0 == if quad_corner_is_positive(k, 0) {
            dims.width.units()
        } else {
            -dims.width.units()
        },
        quad_corner_units(dims, k).1 == 0,
        2 * quad_corner_units(dims, k).2 == if quad_corner_is_positive(k, 2) {
            dims.height.units()
        } else {
            -dims.height.units()
        },
{
    lemma_small_magnitude_units(0);
    lemma_magnitude_units_zero(dims.width.magnitude());
    lemma_magnitude_units_zero(dims.height.magnitude());
    dims.width.lemma_halved();
    dims.height.lemma_halved();
    dims.width.halved().lemma_negated();
    dims.height.halved().lemma_negated();
}

/// The four corners of a quad form a rectangle of the opening's width and
/// height around the portal's origin, in one plane: all four lie in the
/// plane of the first and third axes, neighbours share a coordinate,
/// opposite corners mirror each other through the origin, and the sides
/// measure the width and the height. Holds where the halves are exact.
pub proof fn lemma_quad_is_rectangle(dims: PortalDims)
    requires
        dims.is_valid(),
        dims.halves_exactly(),
    ensures
        ({
            let c0 = quad_corner_units(dims, 0);
            let c1 = quad_corner_units(dims, 1);
            let c2 = quad_corner_units(dims, 2);
            let c3 = quad_corner_units(dims, 3);
            &&& c0.1 == 0 && c1.1 == 0 && c2.1 == 0 && c3.1 == 0
            &&& c0.0 == c1.0 && c1.2 == c2.2 && c2.0 == c3.0 && c3.2 == c0.2
            &&& c0.0 + c2.0 == 0 && c0.2 + c2.2 == 0
            &&& c1.0 + c3.0 == 0 && c1.2 + c3.2 == 0
            &&& c0.0 - c3.0 == dims.width.units()
            &&& c0.2 - c1.2 == dims.height.units()
        }),
{
    lemma_quad_corner_units(dims, 0);
    lemma_quad_corner_units(dims, 1);
    lemma_quad_corner_units(dims, 2);
    lemma_quad_corner_units(dims, 3);
}

/// Both triangles of a quad are wound the same way, and each has half the
/// area of the opening: the direction towards which a triangle shows its
/// clockwise side runs along the second axis, with the opening's area for
/// its length, which is twice the triangle's area. Holds where the halves
/// are exact.
pub proof fn lemma_quad_triangles_wound_alike(dims: PortalDims, t: int)
    requires
        dims.is_valid(),
        dims.halves_exactly(),
        0 <= t < 2,
    ensures
        clockwise_normal(
            quad_corner_units(dims, quad_index(3 * t)),
            quad_corner_units(dims, quad_index(3 * t + 1)),
            quad_corner_units(dims, quad_index(3 * t + 2)),
        ) == (0int, dims.width.units() * dims.height.units(), 0int),
        dims.width.units() * dims.height.units() > 0,
{
    lemma_quad_index_table();
    lemma_quad_corner_units(dims, 0);
    lemma_quad_corner_units(dims, 1);
    lemma_quad_corner_units(dims, 2);
    lemma_quad_corner_units(dims, 3);
    let w = dims.width.units();
    let h = dims.height.units();
    let a = quad_corner_units(dims, quad_index(3 * t));
    let b = quad_corner_units(dims, quad_index(3 * t + 1));
    let c = quad_corner_units(dims, quad_index(3 * t + 2));
    let normal = cross(minus(c, a), minus(b, a));
    assert(normal == (0int, w * h, 0int) && w * h > 0) by (nonlinear_arith)
        requires
            normal == cross(minus(c, a), minus(b, a)),
            w > 0,
            h > 0,
            a.1 == 0 && b.1 == 0 && c.1 == 0,
            (2 * a.0 == -w && 2 * a.2 == -h && 2 * b.0 == w && 2 * b.2 == -h && 2 * c.0 == w && 2
                * c.2 == h) || (2 * a.0 == w && 2 * a.2 == h && 2 * b.0 == -w && 2 * b.2 == h && 2
                * c.0 == -w && 2 * c.2 == -h),
    ;
}

/// The two triangles of a quad cover the opening, and nothing but the
/// opening, exactly once: a point of the opening's plane lies in one of the
/// triangles exactly when it lies in the opening, and a point that lies in
/// both lies on the diagonal that they share. Holds where the halves are
/// exact.
pub proof fn lemma_quad_triangles_tile_opening(dims: PortalDims, p: (int, int))
    requires
        dims.is_valid(),
        dims.halves_exactly(),
    ensures
        (in_quad_triangle(dims, 0, p) || in_quad_triangle(dims, 1, p)) <==> in_opening(dims, p),
        in_quad_triangle(dims, 0, p) && in_quad_triangle(dims, 1, p) ==> side_of(
            quad_corner_in_plane(dims, 2),
            quad_corner_in_plane(dims, 0),
            p,
        ) == 0,
{
    lemma_quad_index_table();
    lemma_quad_corner_units(dims, 0);
    lemma_quad_corner_units(dims, 1);
    lemma_quad_corner_units(dims, 2);
    lemma_quad_corner_units(dims, 3);
    let a = quad_corner_in_plane(dims, 2);
    let b = quad_corner_in_plane(dims, 1);
    let c = quad_corner_in_plane(dims, 0);
    let d = quad_corner_in_plane(dims, 3);
    assert(runs_around_rectangle(a, b, c, d));
    lemma_diagonal_splits_rectangle(a, b, c, d, p);
}

} // verus!
