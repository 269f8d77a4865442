use emcee::angle::{Angle, Rotation};
use emcee::ids::{CameraID, PortalID, RoomID};
use emcee::scalar::Scalar;
use emcee::server::integrity::{all_distinct, check_apart};
use emcee::server::world::{Camera, Portal, Room, RoomPortal, World};
use emcee::server::Server;
use emcee::space::{Point3, PortalDims, Quaternion, RoomDims};

fn scalar(x: f32) -> Scalar {
    Scalar::from_bits(x.to_bits())
}

fn point(x: f32, y: f32, z: f32) -> Point3 {
    Point3::new(scalar(x), scalar(y), scalar(z))
}

fn cube(id: u128, side: f32) -> Room {
    Room {
        id: RoomID(id),
        dims: RoomDims { width: scalar(side), depth: scalar(side), height: scalar(side) },
        portals: Vec::new(),
    }
}

fn portal(id: u128, first: u128, second: u128) -> Portal {
    Portal {
        id: PortalID(id),
        dims: PortalDims { width: scalar(32.0), height: scalar(32.0) },
        rooms_linked: [RoomID(first), RoomID(second)],
    }
}

fn camera(id: u128, in_room: Option<RoomID>) -> Camera {
    Camera {
        id: CameraID(id),
        fov: Angle::from_degrees(90),
        near: scalar(0.1),
        far: scalar(2048.0),
        pos: point(96.0, 96.0, 96.0),
        rot: Rotation::zero(),
        in_room,
    }
}

fn placement(id: u128, x: f32, y: f32, z: f32) -> RoomPortal {
    RoomPortal { id: PortalID(id), pos: point(x, y, z), rot: Quaternion::zero() }
}

/// The world that the editor starts with: two rooms joined by one portal.
fn editor_world() -> World {
    let mut world = World { cameras: Vec::new(), rooms: Vec::new(), portals: Vec::new() };
    let mut one = cube(1, 128.0);
    let mut two = cube(2, 64.0);
    one.portals.push(placement(3, 32.0, 0.0, 32.0));
    two.portals.push(placement(3, 0.0, 0.0, 0.0));
    assert!(!world.insert_camera(camera(4, Some(RoomID(1)))));
    assert!(!world.insert_room(one));
    assert!(!world.insert_room(two));
    assert!(!world.insert_portal(portal(3, 1, 2)));
    world
}

#[test]
fn other_room_gives_the_room_across() {
    let p = portal(3, 1, 2);
    assert_eq!(p.other_room(RoomID(1)), Some(RoomID(2)));
    assert_eq!(p.other_room(RoomID(2)), Some(RoomID(1)));
}

#[test]
fn other_room_of_a_stranger_is_none() {
    let p = portal(3, 1, 2);
    assert_eq!(p.other_room(RoomID(3)), None);
    assert_eq!(p.other_room(RoomID(0)), None);
    assert_eq!(p.other_room(RoomID(u128::MAX)), None);
}

#[test]
fn other_room_leads_back() {
    let p = portal(3, 0xaaaa, 0xbbbb);
    for first in [RoomID(0xaaaa), RoomID(0xbbbb)] {
        let across = p.other_room(first).unwrap();
        assert_eq!(p.other_room(across), Some(first));
    }
}

#[test]
fn other_room_of_a_portal_into_itself() {
    let p = portal(3, 7, 7);
    assert_eq!(p.other_room(RoomID(7)), Some(RoomID(7)));
    assert_eq!(p.other_room(RoomID(8)), None);
}

#[test]
fn a_new_camera_has_the_default_values() {
    let c = Camera::new();
    assert_eq!(c.fov, Angle::from_degrees(90));
    assert_eq!(c.fov.microdegrees, 90_000_000);
    assert_eq!(c.near, scalar(0.1));
    assert_eq!(c.far, scalar(2048.0));
    assert_eq!(c.pos, point(96.0, 96.0, 96.0));
    assert_eq!(c.rot, Rotation::zero());
    assert_eq!(c.in_room, None);
    assert!(c.check_frustum());
    assert!(c.rot.check_normalized());
}

#[test]
fn new_cameras_have_different_identities() {
    let a = Camera::new();
    let b = Camera::new();
    assert_ne!(a.id, b.id);
}

#[test]
fn the_empty_world_holds_one_default_camera() {
    let world = World::new_empty();
    assert_eq!(world.rooms.len(), 0);
    assert_eq!(world.portals.len(), 0);
    assert_eq!(world.cameras.len(), 1);
    let c = world.cameras[0];
    assert_eq!(c.pos, point(96.0, 96.0, 96.0));
    assert_eq!(c.in_room, None);
    assert_eq!(world.get_camera(c.id), Some(&c));
    assert_eq!(world.first_room(), None);
    assert_eq!(world.active_room(c.id), None);
    assert!(world.check_well_formed());
}

#[test]
fn lookups_find_what_was_inserted() {
    let world = editor_world();
    assert_eq!(world.get_room(RoomID(1)).unwrap().dims.width, scalar(128.0));
    assert_eq!(world.get_room(RoomID(2)).unwrap().dims.width, scalar(64.0));
    assert_eq!(world.get_portal(PortalID(3)), Some(&portal(3, 1, 2)));
    assert_eq!(world.get_camera(CameraID(4)), Some(&camera(4, Some(RoomID(1)))));
    assert_eq!(world.room_index(RoomID(2)), Some(1));
    assert_eq!(world.portal_index(PortalID(3)), Some(0));
    assert_eq!(world.camera_index(CameraID(4)), Some(0));
}

#[test]
fn lookups_of_unknown_identities_find_nothing() {
    let world = editor_world();
    assert_eq!(world.get_room(RoomID(3)), None);
    assert_eq!(world.get_portal(PortalID(1)), None);
    assert_eq!(world.get_camera(CameraID(1)), None);
    assert_eq!(world.room_index(RoomID(9)), None);
    assert_eq!(world.portals_of(RoomID(9)), None);
}

#[test]
fn portals_of_gives_the_placements_in_stored_order() {
    let mut world = editor_world();
    let mut three = cube(5, 16.0);
    three.portals.push(placement(30, 1.0, 0.0, 0.0));
    three.portals.push(placement(10, 2.0, 0.0, 0.0));
    three.portals.push(placement(20, 3.0, 0.0, 0.0));
    world.insert_room(three);
    assert_eq!(
        world.portals_of(RoomID(5)),
        Some(&vec![
            placement(30, 1.0, 0.0, 0.0),
            placement(10, 2.0, 0.0, 0.0),
            placement(20, 3.0, 0.0, 0.0),
        ])
    );
    assert_eq!(world.portals_of(RoomID(1)), Some(&vec![placement(3, 32.0, 0.0, 32.0)]));
}

#[test]
fn inserting_under_a_known_identity_replaces_in_place() {
    let mut world = editor_world();
    assert!(world.insert_room(cube(1, 256.0)));
    assert_eq!(world.rooms.len(), 2);
    assert_eq!(world.rooms[0].dims.width, scalar(256.0));
    assert_eq!(world.rooms[0].portals.len(), 0);
    assert_eq!(world.first_room(), Some(RoomID(1)));
    assert!(world.insert_portal(portal(3, 2, 1)));
    assert_eq!(world.portals, vec![portal(3, 2, 1)]);
    assert!(world.insert_camera(camera(4, None)));
    assert_eq!(world.cameras, vec![camera(4, None)]);
}

#[test]
fn a_lookup_finds_the_first_of_two_entries_with_one_identity() {
    let mut world = editor_world();
    world.rooms.push(cube(1, 8.0));
    assert_eq!(world.get_room(RoomID(1)).unwrap().dims.width, scalar(128.0));
    assert_eq!(world.room_index(RoomID(1)), Some(0));
    assert!(!world.check_ids());
    assert!(!world.check_well_formed());
}

#[test]
fn the_active_room_is_the_cameras_room_or_the_first() {
    let mut world = editor_world();
    assert_eq!(world.active_room(CameraID(4)), Some(RoomID(1)));
    assert!(world.set_camera_room(CameraID(4), Some(RoomID(2))));
    assert_eq!(world.active_room(CameraID(4)), Some(RoomID(2)));
    assert!(world.set_camera_room(CameraID(4), None));
    assert_eq!(world.active_room(CameraID(4)), Some(RoomID(1)));
    assert_eq!(world.active_room(CameraID(99)), Some(RoomID(1)));
    assert!(!world.set_camera_room(CameraID(99), None));
}

#[test]
fn set_camera_pose_changes_the_pose_only() {
    let mut world = editor_world();
    let rot = Rotation {
        pitch: Angle::from_degrees(-45),
        yaw: Angle::from_degrees(270),
        roll: Angle::from_degrees(1),
    };
    assert!(world.set_camera_pose(CameraID(4), point(1.0, 2.0, 3.0), rot));
    let moved = *world.get_camera(CameraID(4)).unwrap();
    assert_eq!(moved, Camera { pos: point(1.0, 2.0, 3.0), rot, ..camera(4, Some(RoomID(1))) });
    let before = world.clone();
    assert!(!world.set_camera_pose(CameraID(5), point(0.0, 0.0, 0.0), rot));
    assert_eq!(world, before);
}

#[test]
fn rotate_camera_applies_the_rotation_rule() {
    let mut world = editor_world();
    let delta = Rotation {
        pitch: Angle::from_degrees(100),
        yaw: Angle::from_degrees(-30),
        roll: Angle::from_degrees(725),
    };
    assert!(world.rotate_camera(CameraID(4), delta));
    let rot = world.get_camera(CameraID(4)).unwrap().rot;
    assert_eq!(rot.pitch, Angle::from_degrees(90));
    assert_eq!(rot.yaw, Angle::from_degrees(330));
    assert_eq!(rot.roll, Angle::from_degrees(5));
    assert!(!world.rotate_camera(CameraID(5), delta));
}

#[test]
fn the_editor_world_is_well_formed() {
    let world = editor_world();
    assert!(world.check_ids());
    assert!(world.check_links());
    assert!(world.check_renderable());
    assert!(world.check_well_formed());
}

#[test]
fn a_placement_of_an_unknown_portal_breaks_the_links() {
    let mut world = editor_world();
    world.rooms[1].portals.push(placement(77, 0.0, 0.0, 0.0));
    assert!(!world.check_links());
    assert!(!world.check_well_formed());
    assert!(world.check_ids());
    assert!(world.check_renderable());
}

#[test]
fn a_portal_to_an_unknown_room_breaks_the_links() {
    let mut world = editor_world();
    world.insert_portal(portal(3, 1, 9));
    assert!(!world.check_links());
    let mut world = editor_world();
    world.insert_portal(portal(3, 9, 2));
    assert!(!world.check_links());
}

#[test]
fn a_portal_from_a_room_to_itself_breaks_the_links() {
    let mut world = editor_world();
    world.insert_portal(portal(3, 1, 1));
    assert!(!world.check_links());
    assert!(!world.check_well_formed());
}

#[test]
fn an_identity_shared_between_kinds_breaks_the_world() {
    let mut world = editor_world();
    world.insert_camera(camera(2, None));
    assert!(!world.check_ids());
    assert!(!world.check_well_formed());
    let mut world = editor_world();
    world.insert_room(cube(3, 1.0));
    assert!(!world.check_ids());
    let mut world = editor_world();
    world.insert_portal(portal(4, 1, 2));
    assert!(!world.check_ids());
}

#[test]
fn invalid_extents_and_frustums_cannot_be_rendered() {
    let mut world = editor_world();
    world.insert_room(cube(8, 0.0));
    assert!(!world.check_renderable());
    assert!(!world.check_well_formed());

    let mut world = editor_world();
    world.insert_room(cube(8, -4.0));
    assert!(!world.check_renderable());

    let mut world = editor_world();
    let mut flat = portal(9, 1, 2);
    flat.dims.height = scalar(0.0);
    world.insert_portal(flat);
    assert!(!world.check_renderable());

    for broken in [
        Camera { fov: Angle::from_degrees(0), ..camera(4, None) },
        Camera { fov: Angle::from_degrees(180), ..camera(4, None) },
        Camera { near: scalar(0.0), ..camera(4, None) },
        Camera { near: scalar(4096.0), ..camera(4, None) },
        Camera { far: scalar(0.1), ..camera(4, None) },
        Camera { far: scalar(f32::INFINITY), ..camera(4, None) },
        Camera { near: scalar(f32::NAN), ..camera(4, None) },
    ] {
        assert!(!broken.check_frustum());
        let mut world = editor_world();
        world.insert_camera(broken);
        assert!(world.check_renderable());
        assert!(!world.check_cameras());
        assert!(!world.check_well_formed());
    }
    assert!(editor_world().check_cameras());
    assert!(Camera { fov: Angle { microdegrees: 179_999_999 }, ..camera(4, None) }.check_frustum());
    assert!(Camera { fov: Angle { microdegrees: 1 }, ..camera(4, None) }.check_frustum());
}

#[test]
fn distinct_and_apart() {
    assert!(all_distinct(&vec![]));
    assert!(all_distinct(&vec![1, 2, 3]));
    assert!(!all_distinct(&vec![1, 2, 1]));
    assert!(!all_distinct(&vec![5, 5]));
    assert!(check_apart(&vec![1, 2], &vec![3, 4]));
    assert!(check_apart(&vec![], &vec![3, 4]));
    assert!(!check_apart(&vec![1, 2], &vec![3, 2]));
}

#[test]
fn the_server_owns_the_world() {
    let server = Server { world: editor_world() };
    assert_eq!(server.world.rooms.len(), 2);
    assert_eq!(server.clone().world, server.world);
}

#[test]
fn fresh_identities_are_random_uuids() {
    let mut seen = Vec::new();
    for _ in 0..16 {
        seen.push(RoomID::new().0);
        seen.push(PortalID::new().0);
        seen.push(CameraID::new().0);
    }
    for &bits in seen.iter() {
        // Version 4, variant 10.
        assert_eq!((bits >> 76) & 0xf, 4);
        assert_eq!((bits >> 62) & 0x3, 2);
        assert_eq!(
            bits & emcee::ids::UUID_LAYOUT_MASK,
            emcee::ids::UUID_RANDOM_LAYOUT
        );
    }
    assert!(all_distinct(&seen));
}

#[test]
fn identities_are_equal_when_their_values_are() {
    assert_eq!(RoomID(5), RoomID(5));
    assert_ne!(RoomID(5), RoomID(6));
    assert_eq!(PortalID(5), PortalID(5));
    assert_ne!(CameraID(5), CameraID(6));
}
