use emcee::angle::{Angle, Rotation};
use emcee::gui::MoveDirection;
use emcee::ids::{CameraID, PortalID, RoomID};
use emcee::pipeline::{transform, Factor, Transform};
use emcee::render::{DrawCommand, WorldRender};
use emcee::scalar::Scalar;
use emcee::server::world::{Camera, Portal, Room, RoomPortal, World};
use emcee::space::{Point3, PortalDims, Quaternion, RoomDims, Viewport};

fn scalar(x: f32) -> Scalar {
    Scalar::from_bits(x.to_bits())
}

fn point(x: f32, y: f32, z: f32) -> Point3 {
    Point3::new(scalar(x), scalar(y), scalar(z))
}

fn cube(id: u128, side: f32) -> Room {
    Room {
        id: RoomID(id),
        dims: RoomDims { width: scalar(side), depth: scalar(side), height: scalar(side) },
        portals: Vec::new(),
    }
}

fn camera() -> Camera {
    Camera {
        id: CameraID(9),
        fov: Angle::from_degrees(60),
        near: scalar(0.5),
        far: scalar(100.0),
        pos: point(1.0, 2.0, 3.0),
        rot: Rotation {
            pitch: Angle::from_degrees(10),
            yaw: Angle::from_degrees(20),
            roll: Angle::from_degrees(30),
        },
        in_room: Some(RoomID(1)),
    }
}

fn spin() -> Quaternion {
    Quaternion { s: scalar(0.5), x: scalar(0.5), y: scalar(-0.5), z: scalar(0.5) }
}

fn world() -> World {
    let mut one = cube(1, 128.0);
    one.portals.push(RoomPortal { id: PortalID(3), pos: point(32.0, 0.0, 32.0), rot: spin() });
    World {
        cameras: vec![camera()],
        rooms: vec![one, cube(2, 64.0)],
        portals: vec![Portal {
            id: PortalID(3),
            dims: PortalDims { width: scalar(32.0), height: scalar(32.0) },
            rooms_linked: [RoomID(1), RoomID(2)],
        }],
    }
}

fn viewport() -> Viewport {
    Viewport { x: 10, y: 20, width: 800, height: 600 }
}

fn frame() -> Vec<DrawCommand> {
    WorldRender::new().draw_world(&world(), CameraID(9), viewport()).commands
}

#[test]
fn the_view_is_shifted_against_the_camera() {
    assert_eq!(camera().view_translation(), point(-1.0, -3.0, 2.0));
    let at_origin = Camera { pos: point(0.0, 0.0, 0.0), ..camera() };
    assert_eq!(at_origin.view_translation(), point(-0.0, -0.0, 0.0));
}

#[test]
fn the_active_room_is_not_offset() {
    let commands = frame();
    assert_eq!(
        transform(&camera(), viewport(), &commands[1]),
        Transform {
            projection: Factor::Perspective {
                fovy: Angle::from_degrees(60),
                width: 800,
                height: 600,
                near: scalar(0.5),
                far: scalar(100.0),
            },
            view: (Factor::Turn(camera().rot), Factor::Shift(point(-1.0, -3.0, 2.0))),
            offset: None,
            inversion: Factor::AxisInversion,
        }
    );
}

#[test]
fn a_mask_and_its_room_are_offset_by_the_portal() {
    let commands = frame();
    let mask = transform(&camera(), viewport(), &commands[0]);
    let room = transform(&camera(), viewport(), &commands[2]);
    assert_eq!(
        mask.offset,
        Some((Factor::Shift(point(32.0, 0.0, 32.0)), Factor::Spin(spin())))
    );
    assert_eq!(mask, room);
    let active = transform(&camera(), viewport(), &commands[1]);
    assert_eq!(mask.projection, active.projection);
    assert_eq!(mask.view, active.view);
    assert_eq!(mask.inversion, active.inversion);
}

#[test]
fn a_step_rises_with_forward_and_up_and_goes_sideways_with_right() {
    assert_eq!(MoveDirection { x: 0, y: 0, z: 1 }.rise(), 1);
    assert_eq!(MoveDirection { x: 0, y: 1, z: 1 }.rise(), 2);
    assert_eq!(MoveDirection { x: 0, y: -1, z: 1 }.rise(), 0);
    assert_eq!(MoveDirection { x: 1, y: -1, z: -1 }.rise(), -2);
    assert_eq!(MoveDirection { x: 1, y: -1, z: -1 }.strafe(), 1);
    assert_eq!(MoveDirection { x: -1, y: 0, z: 0 }.strafe(), -1);
    assert_eq!(MoveDirection { x: -1, y: 0, z: 0 }.rise(), 0);
    assert_eq!(MoveDirection { x: 127, y: 127, z: 127 }.rise(), 254);
    assert_eq!(MoveDirection { x: -128, y: -128, z: -128 }.rise(), -256);
    assert_eq!(MoveDirection { x: -128, y: -128, z: -128 }.strafe(), -128);
}
