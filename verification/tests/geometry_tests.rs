use emcee::geometry::{
    portal_quad, room_to_triangles, GeometryVertex, Rgb, QUAD_INDEX_COUNT, QUAD_VERTEX_COUNT,
    ROOM_BUFFER_CAPACITY, ROOM_INDEX_COUNT, ROOM_VERTEX_COUNT,
};
use emcee::ids::RoomID;
use emcee::scalar::Scalar;
use emcee::server::world::Room;
use emcee::space::{axis_inversion, Point3, PortalDims, Quaternion, RoomDims};

fn scalar(x: f32) -> Scalar {
    Scalar::from_bits(x.to_bits())
}

fn number(s: Scalar) -> f64 {
    f32::from_bits(s.to_bits()) as f64
}

fn point(x: f32, y: f32, z: f32) -> Point3 {
    Point3::new(scalar(x), scalar(y), scalar(z))
}

fn coordinates(p: Point3) -> [f64; 3] {
    [number(p.x), number(p.y), number(p.z)]
}

fn room(width: f32, depth: f32, height: f32) -> Room {
    Room {
        id: RoomID(1),
        dims: RoomDims { width: scalar(width), depth: scalar(depth), height: scalar(height) },
        portals: Vec::new(),
    }
}

fn vertex(x: f32, y: f32, z: f32, r: u8, g: u8, b: u8) -> GeometryVertex {
    GeometryVertex { pos: point(x, y, z), face_color: Rgb { r, g, b } }
}

fn cross(a: [f64; 3], b: [f64; 3]) -> [f64; 3] {
    [a[1] * b[2] - a[2] * b[1], a[2] * b[0] - a[0] * b[2], a[0] * b[1] - a[1] * b[0]]
}

fn minus(a: [f64; 3], b: [f64; 3]) -> [f64; 3] {
    [a[0] - b[0], a[1] - b[1], a[2] - b[2]]
}

fn dot(a: [f64; 3], b: [f64; 3]) -> f64 {
    a[0] * b[0] + a[1] * b[1] + a[2] * b[2]
}

#[test]
fn a_room_is_eight_corners_and_thirty_six_indices() {
    let (vertices, indices) = room_to_triangles(&room(128.0, 128.0, 128.0));
    assert_eq!(vertices.len(), 8);
    assert_eq!(indices.len(), 36);
    assert_eq!(ROOM_VERTEX_COUNT, 8);
    assert_eq!(ROOM_INDEX_COUNT, 36);
    assert!(vertices.len() <= ROOM_BUFFER_CAPACITY);
    assert!(indices.len() <= ROOM_BUFFER_CAPACITY);
    for index in indices {
        assert!(index <= 7);
    }
}

#[test]
fn the_corners_of_a_room() {
    let (vertices, _) = room_to_triangles(&room(2.0, 3.0, 5.0));
    assert_eq!(
        vertices,
        [
            vertex(0.0, 0.0, 0.0, 0, 0, 0),
            vertex(2.0, 0.0, 0.0, 255, 0, 0),
            vertex(2.0, 3.0, 0.0, 255, 255, 0),
            vertex(0.0, 3.0, 0.0, 0, 255, 0),
            vertex(0.0, 0.0, 5.0, 0, 0, 255),
            vertex(2.0, 0.0, 5.0, 255, 0, 255),
            vertex(2.0, 3.0, 5.0, 255, 255, 255),
            vertex(0.0, 3.0, 5.0, 0, 255, 255),
        ]
    );
}

#[test]
fn the_indices_of_a_room() {
    let (_, indices) = room_to_triangles(&room(2.0, 3.0, 5.0));
    assert_eq!(
        indices,
        [
            0, 3, 2, 2, 1, 0, 0, 1, 5, 5, 4, 0, 0, 4, 7, 7, 3, 0, 6, 7, 4, 4, 5, 6, 6, 5, 1, 1,
            2, 6, 6, 2, 3, 3, 7, 6,
        ]
    );
}

#[test]
fn the_colour_of_a_corner_tells_where_it_lies() {
    let dims = room(7.0, 11.0, 13.0);
    let (vertices, _) = room_to_triangles(&dims);
    for v in vertices {
        assert_eq!(v.face_color.r == 255, v.pos.x == dims.dims.width);
        assert_eq!(v.face_color.r == 0, v.pos.x == Scalar::zero());
        assert_eq!(v.face_color.g == 255, v.pos.y == dims.dims.depth);
        assert_eq!(v.face_color.g == 0, v.pos.y == Scalar::zero());
        assert_eq!(v.face_color.b == 255, v.pos.z == dims.dims.height);
        assert_eq!(v.face_color.b == 0, v.pos.z == Scalar::zero());
    }
}

#[test]
fn every_triangle_of_a_room_is_clockwise_from_inside() {
    let (vertices, indices) = room_to_triangles(&room(2.0, 3.0, 5.0));
    let eye = [1.0, 1.5, 2.5];
    for t in 0..12 {
        let a = coordinates(vertices[indices[3 * t] as usize].pos);
        let b = coordinates(vertices[indices[3 * t + 1] as usize].pos);
        let c = coordinates(vertices[indices[3 * t + 2] as usize].pos);
        // The counter-clockwise normal points away from the eye, so the eye
        // sees the corners run clockwise.
        let normal = cross(minus(b, a), minus(c, a));
        assert!(dot(normal, minus(eye, a)) < 0.0, "triangle {}", t);
        // The clockwise side is shown towards the inside.
        let clockwise = cross(minus(c, a), minus(b, a));
        assert!(dot(clockwise, minus(eye, a)) > 0.0, "triangle {}", t);
    }
}

#[test]
fn the_triangles_of_a_room_cover_its_surface() {
    let (vertices, indices) = room_to_triangles(&room(2.0, 3.0, 5.0));
    let mut doubled_area = 0.0;
    for t in 0..12 {
        let a = coordinates(vertices[indices[3 * t] as usize].pos);
        let b = coordinates(vertices[indices[3 * t + 1] as usize].pos);
        let c = coordinates(vertices[indices[3 * t + 2] as usize].pos);
        let n = cross(minus(b, a), minus(c, a));
        doubled_area += dot(n, n).sqrt();
    }
    // Twice the surface of a 2 by 3 by 5 box.
    assert_eq!(doubled_area, 2.0 * 2.0 * (2.0 * 3.0 + 2.0 * 5.0 + 3.0 * 5.0));
}

#[test]
fn each_wall_of_a_room_has_two_triangles() {
    let (vertices, indices) = room_to_triangles(&room(2.0, 3.0, 5.0));
    let extents = [2.0, 3.0, 5.0];
    let mut seen = [[0usize; 2]; 3];
    for t in 0..12 {
        let corners: Vec<[f64; 3]> = (0..3)
            .map(|k| coordinates(vertices[indices[3 * t + k] as usize].pos))
            .collect();
        let mut walls = 0;
        for axis in 0..3 {
            if corners.iter().all(|c| c[axis] == 0.0) {
                seen[axis][0] += 1;
                walls += 1;
            }
            if corners.iter().all(|c| c[axis] == extents[axis]) {
                seen[axis][1] += 1;
                walls += 1;
            }
        }
        assert_eq!(walls, 1, "triangle {} lies in one wall", t);
    }
    assert_eq!(seen, [[2, 2], [2, 2], [2, 2]]);
}

#[test]
fn equal_rooms_give_equal_meshes() {
    let first = room_to_triangles(&room(128.0, 64.0, 32.0));
    let second = room_to_triangles(&room(128.0, 64.0, 32.0));
    assert_eq!(first, second);
}

#[test]
fn a_quad_is_four_corners_and_six_indices() {
    let quad = portal_quad(
        point(32.0, 0.0, 32.0),
        PortalDims { width: scalar(32.0), height: scalar(32.0) },
        Quaternion::zero(),
    );
    assert_eq!(quad.corners.len(), 4);
    assert_eq!(quad.indices, [2, 1, 0, 0, 3, 2]);
    assert_eq!(QUAD_VERTEX_COUNT, 4);
    assert_eq!(QUAD_INDEX_COUNT, 6);
    assert_eq!(quad.pos, point(32.0, 0.0, 32.0));
    assert_eq!(quad.rot, Quaternion::zero());
}

#[test]
fn the_corners_of_a_quad_span_half_the_extents_each_way() {
    let quad = portal_quad(
        point(1.0, 2.0, 3.0),
        PortalDims { width: scalar(6.0), height: scalar(10.0) },
        Quaternion::zero(),
    );
    assert_eq!(quad.corners[0].pos, point(3.0, 0.0, 5.0));
    assert_eq!(quad.corners[1].pos, point(3.0, 0.0, -5.0));
    assert_eq!(quad.corners[2].pos, point(-3.0, 0.0, -5.0));
    assert_eq!(quad.corners[3].pos, point(-3.0, 0.0, 5.0));
}

#[test]
fn the_triangles_of_a_quad_have_the_area_of_the_opening() {
    let quad = portal_quad(
        point(0.0, 0.0, 0.0),
        PortalDims { width: scalar(6.0), height: scalar(10.0) },
        Quaternion::zero(),
    );
    let mut normals = Vec::new();
    for t in 0..2 {
        let a = coordinates(quad.corners[quad.indices[3 * t] as usize].pos);
        let b = coordinates(quad.corners[quad.indices[3 * t + 1] as usize].pos);
        let c = coordinates(quad.corners[quad.indices[3 * t + 2] as usize].pos);
        normals.push(cross(minus(c, a), minus(b, a)));
    }
    // Both show their clockwise side the same way, each with twice its own
    // area, which is the area of the opening.
    assert_eq!(normals[0], [0.0, 60.0, 0.0]);
    assert_eq!(normals[1], [0.0, 60.0, 0.0]);
}

#[test]
fn a_quad_of_the_smallest_width_collapses() {
    // Half of the smallest number above zero rounds to zero.
    let quad = portal_quad(
        point(0.0, 0.0, 0.0),
        PortalDims { width: Scalar::from_bits(1), height: scalar(2.0) },
        Quaternion::zero(),
    );
    assert_eq!(quad.corners[0].pos.x.to_bits(), 0);
    assert_eq!(quad.corners[2].pos.x.to_bits(), 0x8000_0000);
    assert_eq!(quad.corners[0].pos.z, scalar(1.0));
}

#[test]
fn the_axis_inversion_swaps_the_second_and_third_axes() {
    assert_eq!(axis_inversion(), [[1, 0, 0], [0, 0, -1], [0, 1, 0]]);
    assert_eq!(point(1.0, 2.0, 3.0).invert_axes(), point(1.0, 3.0, -2.0));
    assert_eq!(point(1.0, 2.0, 3.0).neg(), point(-1.0, -2.0, -3.0));
    // The view is moved against the camera: the inverted axes of the
    // mirrored position.
    assert_eq!(point(96.0, 96.0, 96.0).neg().invert_axes(), point(-96.0, -96.0, 96.0));
}

#[test]
fn the_axis_inversion_is_the_product_with_its_matrix() {
    let columns = axis_inversion();
    let p = [4.0f64, 5.0, 6.0];
    let mut product = [0.0f64; 3];
    for row in 0..3 {
        for col in 0..3 {
            product[row] += columns[col][row] as f64 * p[col];
        }
    }
    assert_eq!(coordinates(point(4.0, 5.0, 6.0).invert_axes()), product);
}

#[test]
fn dims_are_valid_when_finite_and_above_zero() {
    assert!(room(1.0, 2.0, 3.0).dims.check_valid());
    assert!(!room(0.0, 2.0, 3.0).dims.check_valid());
    assert!(!room(1.0, -2.0, 3.0).dims.check_valid());
    assert!(!room(1.0, 2.0, f32::INFINITY).dims.check_valid());
    assert!(!room(f32::NAN, 2.0, 3.0).dims.check_valid());
    assert!(PortalDims { width: scalar(32.0), height: scalar(32.0) }.check_valid());
    assert!(!PortalDims { width: scalar(32.0), height: scalar(0.0) }.check_valid());
    assert!(!PortalDims { width: scalar(-1.0), height: scalar(32.0) }.check_valid());
}
