//! The world: rooms, the portals that join them, and the cameras that look
//! at them.
//!
//! The world is an arena. Rooms, portals and cameras are kept in the order in
//! which they were added and refer to one another by identity only. Looking
//! an identity up finds the first entry that carries it, so every lookup, and
//! with it everything the renderer decides, is a function of the world's
//! contents alone.

use vstd::prelude::*;
use crate::angle::{Angle, Rotation, HALF_TURN, QUARTER_TURN};
use crate::ids::{is_random_uuid, CameraID, PortalID, RoomID};
use crate::scalar::Scalar;
use crate::space::{Point3, PortalDims, Quaternion, RoomDims};

verus! {

/// The bits of the default near plane distance, one tenth.
pub const DEFAULT_NEAR_BITS: u32 = 0x3dcc_cccd;

/// The bits of the default far plane distance, 2048.
pub const DEFAULT_FAR_BITS: u32 = 0x4500_0000;

/// The bits of each coordinate of the default camera position, 96.
pub const DEFAULT_POSITION_BITS: u32 = 0x42c0_0000;

/// A box-shaped room and the portals placed in it.
#[derive(Debug, Clone, PartialEq, Eq)]
pub struct Room {
    pub id: RoomID,
    pub dims: RoomDims,
    pub portals: Vec<RoomPortal>,
}

/// The placement of a portal inside one room, in that room's coordinates.
#[derive(Debug, Clone, Copy, PartialEq, Eq, Structural)]
pub struct RoomPortal {
    pub id: PortalID,
    pub pos: Point3,
    pub rot: Quaternion,
}

/// A rectangular opening that joins two rooms.
#[derive(Debug, Clone, Copy, PartialEq, Eq)]
pub struct Portal {
    pub id: PortalID,
    pub dims: PortalDims,
    pub rooms_linked: [RoomID; 2],
}

/// A viewpoint: a frustum, a pose, and the room it stands in, if any.
#[derive(Debug, Clone, Copy, PartialEq, Eq)]
pub struct Camera {
    pub id: CameraID,
    pub fov: Angle,
    pub near: Scalar,
    pub far: Scalar,
    pub pos: Point3,
    pub rot: Rotation,
    pub in_room: Option<RoomID>,
}

/// All cameras, rooms and portals, each kind in the order of arrival.
#[derive(Debug, Clone, PartialEq, Eq)]
pub struct World {
    pub cameras: Vec<Camera>,
    pub rooms: Vec<Room>,
    pub portals: Vec<Portal>,
}

/// The first place at or after `from` at which `keys` holds `key`.
pub open spec fn position<K>(keys: Seq<K>, key: K, from: int) -> Option<int>
    decreases keys.len() - from,
{
    if from < 0 || from >= keys.len() {
        None
    } else if keys[from] == key {
        Some(from)
    } else {
        position(keys, key, from + 1)
    }
}

/// What `position` finds is the first match, and it finds nothing only where
/// there is no match.
pub proof fn lemma_position<K>(keys: Seq<K>, key: K, from: int)
    requires
        0 <= from,
    ensures
        match position(keys, key, from) {
            Some(i) => from <= i < keys.len() && keys[i] == key && forall|j: int|
                from <= j < i ==> keys[j] != key,
            None => forall|j: int| from <= j < keys.len() ==> keys[j] != key,
        },
    decreases keys.len() - from,
{
    if from < keys.len() && keys[from] != key {
        lemma_position(keys, key, from + 1);
    }
}

/// Appending a key changes no lookup but that of the appended key where it
/// was not found before.
pub proof fn lemma_position_push<K>(keys: Seq<K>, added: K, key: K, from: int)
    requires
        0 <= from <= keys.len(),
    ensures
        position(keys.push(added), key, from) == match position(keys, key, from) {
            Some(i) => Some(i),
            None => if key == added {
                Some(keys.len() as int)
            } else {
                None
            },
        },
    decreases keys.len() - from,
{
    if from < keys.len() {
        assert(keys.push(added)[from] == keys[from]);
        if keys[from] != key {
            lemma_position_push(keys, added, key, from + 1);
        }
    } else {
        assert(keys.push(added)[from] == added);
        assert(position(keys.push(added), key, from + 1) is None);
    }
}

impl Portal {
    /// The room on the other side of the portal from `first_room`, if
    /// `first_room` is one of the two rooms that the portal joins.
    pub open spec fn opposite_room(self, first_room: RoomID) -> Option<RoomID> {
        if first_room == self.rooms_linked[0] {
            Some(self.rooms_linked[1])
        } else if first_room == self.rooms_linked[1] {
            Some(self.rooms_linked[0])
        } else {
            None
        }
    }

    /// A portal has another side for the two rooms that it joins and for no
    /// other room, and the other side is one of the two.
    pub proof fn lemma_opposite_room_of_linked_rooms_only(self, first_room: RoomID)
        ensures
            self.opposite_room(first_room) is Some <==> (first_room == self.rooms_linked[0]
                || first_room == self.rooms_linked[1]),
            self.opposite_room(first_room) matches Some(other) ==> other == self.rooms_linked[0]
                || other == self.rooms_linked[1],
    {
    }

    /// Going through a portal and back ends where it began.
    pub proof fn lemma_opposite_room_leads_back(self, first_room: RoomID)
        requires
            self.opposite_room(first_room) is Some,
        ensures
            self.opposite_room(self.opposite_room(first_room).unwrap()) == Some(first_room),
    {
    }

    /// The room on the other side of the portal from `first_room`, or `None`
    /// if the portal does not open into `first_room`.
    pub fn other_room(&self, first_room: RoomID) -> (other: Option<RoomID>)
        ensures
            other == self.opposite_room(first_room),
            first_room == self.rooms_linked[0] ==> other == Some(self.rooms_linked[1]),
            first_room != self.rooms_linked[0] && first_room == self.rooms_linked[1] ==> other
                == Some(self.rooms_linked[0]),
            first_room != self.rooms_linked[0] && first_room != self.rooms_linked[1] ==> other
                is None,
    {
        if first_room == self.rooms_linked[0] {
            Some(self.rooms_linked[1])
        } else if first_room == self.rooms_linked[1] {
            Some(self.rooms_linked[0])
        } else {
            None
        }
    }
}

impl Camera {
    /// Whether the frustum can be projected: the vertical field of view lies
    /// strictly between nothing and a half turn, and the near plane lies
    /// strictly between the eye and the far plane.
    pub open spec fn frustum_is_valid(self) -> bool {
        &&& 0 < self.fov.microdegrees < HALF_TURN
        &&& self.near.is_positive()
        &&& self.far.is_finite()
        &&& self.near.units() < self.far.units()
    }

    /// Whether the camera is the one that `Camera::new` makes, but for its
    /// identity.
    pub open spec fn is_default(self) -> bool {
        &&& self.fov.microdegrees == QUARTER_TURN
        &&& self.near.bits == DEFAULT_NEAR_BITS
        &&& self.far.bits == DEFAULT_FAR_BITS
        &&& self.pos.x.bits == DEFAULT_POSITION_BITS
        &&& self.pos.y.bits == DEFAULT_POSITION_BITS
        &&& self.pos.z.bits == DEFAULT_POSITION_BITS
        &&& self.rot.pitch.microdegrees == 0
        &&& self.rot.yaw.microdegrees == 0
        &&& self.rot.roll.microdegrees == 0
        &&& self.in_room is None
    }

    /// A camera with a fresh identity, a field of view of a quarter turn,
    /// planes at one tenth and at 2048, standing at (96, 96, 96), looking
    /// level, and not yet placed in a room.
    pub fn new() -> (camera: Camera)
        ensures
            camera.is_default(),
            is_random_uuid(camera.id.0),
            camera.frustum_is_valid(),
            camera.rot.is_normalized(),
    {
        let near = Scalar::from_bits(DEFAULT_NEAR_BITS);
        let far = Scalar::from_bits(DEFAULT_FAR_BITS);
        let at = Scalar::from_bits(DEFAULT_POSITION_BITS);
        proof {
            crate::scalar::lemma_magnitude_units_increase(
                DEFAULT_NEAR_BITS as nat,
                DEFAULT_FAR_BITS as nat,
            );
        }
        Camera {
            id: CameraID::new(),
            fov: Angle { microdegrees: QUARTER_TURN },
            near,
            far,
            pos: Point3::new(at, at, at),
            rot: Rotation::zero(),
            in_room: None,
        }
    }

    /// Tells whether the frustum is valid.
    pub fn check_frustum(&self) -> (r: bool)
        ensures
            r == self.frustum_is_valid(),
    {
        0 < self.fov.microdegrees && self.fov.microdegrees < HALF_TURN
            && self.near.check_positive() && self.far.check_finite() && self.near.lt(self.far)
    }
}

impl World {
    /// The identities of the rooms, in the order of the rooms.
    pub open spec fn room_ids(&self) -> Seq<RoomID> {
        Seq::new(self.rooms@.len(), |i: int| self.rooms@[i].id)
    }

    /// The identities of the portals, in the order of the portals.
    pub open spec fn portal_ids(&self) -> Seq<PortalID> {
        Seq::new(self.portals@.len(), |i: int| self.portals@[i].id)
    }

    /// The identities of the cameras, in the order of the cameras.
    pub open spec fn camera_ids(&self) -> Seq<CameraID> {
        Seq::new(self.cameras@.len(), |i: int| self.cameras@[i].id)
    }

    /// The room that a lookup of `id` finds.
    pub open spec fn find_room(&self, id: RoomID) -> Option<Room> {
        match position(self.room_ids(), id, 0) {
            Some(i) => Some(self.rooms@[i]),
            None => None,
        }
    }

    /// The portal that a lookup of `id` finds.
    pub open spec fn find_portal(&self, id: PortalID) -> Option<Portal> {
        match position(self.portal_ids(), id, 0) {
            Some(i) => Some(self.portals@[i]),
            None => None,
        }
    }

    /// The camera that a lookup of `id` finds.
    pub open spec fn find_camera(&self, id: CameraID) -> Option<Camera> {
        match position(self.camera_ids(), id, 0) {
            Some(i) => Some(self.cameras@[i]),
            None => None,
        }
    }

    /// The rooms as a map from identity to room.
    pub open spec fn room_map(&self) -> Map<RoomID, Room> {
        Map::new(|id: RoomID| self.find_room(id) is Some, |id: RoomID| self.find_room(id).unwrap())
    }

    /// The portals as a map from identity to portal.
    pub open spec fn portal_map(&self) -> Map<PortalID, Portal> {
        Map::new(
            |id: PortalID| self.find_portal(id) is Some,
            |id: PortalID| self.find_portal(id).unwrap(),
        )
    }

    /// The cameras as a map from identity to camera.
    pub open spec fn camera_map(&self) -> Map<CameraID, Camera> {
        Map::new(
            |id: CameraID| self.find_camera(id) is Some,
            |id: CameraID| self.find_camera(id).unwrap(),
        )
    }

    /// The identity of the first room, if there is a room.
    pub open spec fn first_room_id(&self) -> Option<RoomID> {
        if self.rooms@.len() > 0 {
            Some(self.rooms@[0].id)
        } else {
            None
        }
    }

    /// The room that a view through camera `camera_id` starts from: the room
    /// the camera stands in, or the first room of the world where the camera
    /// is unknown or stands in no room.
    pub open spec fn active_room_id(&self, camera_id: CameraID) -> Option<RoomID> {
        match self.find_camera(camera_id) {
            Some(camera) => match camera.in_room {
                Some(room) => Some(room),
                None => self.first_room_id(),
            },
            None => self.first_room_id(),
        }
    }

    /// Whether meshes can be built for everything in the world: every room
    /// and every portal has finite extents above zero.
    pub open spec fn is_renderable(&self) -> bool {
        &&& forall|i: int|
            0 <= i < self.rooms@.len() ==> (#[trigger] self.rooms@[i]).dims.is_valid()
        &&& forall|i: int|
            0 <= i < self.portals@.len() ==> (#[trigger] self.portals@[i]).dims.is_valid()
    }

    /// Whether every camera has a frustum that can be projected.
    pub open spec fn cameras_are_valid(&self) -> bool {
        forall|i: int|
            0 <= i < self.cameras@.len() ==> (#[trigger] self.cameras@[i]).frustum_is_valid()
    }

    /// A room that a lookup finds carries the identity that was looked up and
    /// is one of the world's rooms; a lookup finds nothing only where no room
    /// carries the identity.
    pub proof fn lemma_find_room(&self, id: RoomID)
        ensures
            match self.find_room(id) {
                Some(room) => room.id == id && exists|i: int|
                    0 <= i < self.rooms@.len() && self.rooms@[i] == room,
                None => forall|i: int| 0 <= i < self.rooms@.len() ==> self.rooms@[i].id != id,
            },
    {
        lemma_position(self.room_ids(), id, 0);
        match position(self.room_ids(), id, 0) {
            Some(i) => {
                assert(self.room_ids()[i] == self.rooms@[i].id);
            },
            None => {
                assert forall|i: int| 0 <= i < self.rooms@.len() implies self.rooms@[i].id
                    != id by {
                    assert(self.room_ids()[i] == self.rooms@[i].id);
                }
            },
        }
    }

    /// A portal that a lookup finds carries the identity that was looked up
    /// and is one of the world's portals; a lookup finds nothing only where
    /// no portal carries the identity.
    pub proof fn lemma_find_portal(&self, id: PortalID)
        ensures
            match self.find_portal(id) {
                Some(portal) => portal.id == id && exists|i: int|
                    0 <= i < self.portals@.len() && self.portals@[i] == portal,
                None => forall|i: int|
                    0 <= i < self.portals@.len() ==> self.portals@[i].id != id,
            },
    {
        lemma_position(self.portal_ids(), id, 0);
        match position(self.portal_ids(), id, 0) {
            Some(i) => {
                assert(self.portal_ids()[i] == self.portals@[i].id);
            },
            None => {
                assert forall|i: int| 0 <= i < self.portals@.len() implies self.portals@[i].id
                    != id by {
                    assert(self.portal_ids()[i] == self.portals@[i].id);
                }
            },
        }
    }

    /// A camera that a lookup finds carries the identity that was looked up
    /// and is one of the world's cameras; a lookup finds nothing only where
    /// no camera carries the identity.
    pub proof fn lemma_find_camera(&self, id: CameraID)
        ensures
            match self.find_camera(id) {
                Some(camera) => camera.id == id && exists|i: int|
                    0 <= i < self.cameras@.len() && self.cameras@[i] == camera,
                None => forall|i: int|
                    0 <= i < self.cameras@.len() ==> self.cameras@[i].id != id,
            },
    {
        lemma_position(self.camera_ids(), id, 0);
        match position(self.camera_ids(), id, 0) {
            Some(i) => {
                assert(self.camera_ids()[i] == self.cameras@[i].id);
            },
            None => {
                assert forall|i: int| 0 <= i < self.cameras@.len() implies self.cameras@[i].id
                    != id by {
                    assert(self.camera_ids()[i] == self.cameras@[i].id);
                }
            },
        }
    }

    /// Tells whether every camera has a frustum that can be projected.
    pub fn check_cameras(&self) -> (r: bool)
        ensures
            r == self.cameras_are_valid(),
    {
        let mut i: usize = 0;
        while i < self.cameras.len()
            invariant
                i <= self.cameras@.len(),
                forall|j: int| 0 <= j < i ==> (#[trigger] self.cameras@[j]).frustum_is_valid(),
            decreases self.cameras@.len() - i,
        {
            if !self.cameras[i].check_frustum() {
                return false;
            }
            i += 1;
        }
        true
    }

    /// Tells whether meshes can be built for everything in the world.
    pub fn check_renderable(&self) -> (r: bool)
        ensures
            r == self.is_renderable(),
    {
        let mut i: usize = 0;
        while i < self.rooms.len()
            invariant
                i <= self.rooms@.len(),
                forall|j: int| 0 <= j < i ==> (#[trigger] self.rooms@[j]).dims.is_valid(),
            decreases self.rooms@.len() - i,
        {
            if !self.rooms[i].dims.check_valid() {
                return false;
            }
            i += 1;
        }
        let mut i: usize = 0;
        while i < self.portals.len()
            invariant
                i <= self.portals@.len(),
                forall|j: int| 0 <= j < i ==> (#[trigger] self.portals@[j]).dims.is_valid(),
            decreases self.portals@.len() - i,
        {
            if !self.portals[i].dims.check_valid() {
                return false;
            }
            i += 1;
        }
        true
    }

    /// A world without rooms or portals, holding one default camera.
    pub fn new_empty() -> (world: World)
        ensures
            world.rooms@.len() == 0,
            world.portals@.len() == 0,
            world.cameras@.len() == 1,
            world.cameras@[0].is_default(),
            world.cameras@[0].frustum_is_valid(),
            is_random_uuid(world.cameras@[0].id.0),
            world.find_camera(world.cameras@[0].id) == Some(world.cameras@[0]),
            world.is_well_formed(),
    {
        let mut cameras: Vec<Camera> = Vec::new();
        let default_camera = Camera::new();
        cameras.push(default_camera);
        World { cameras, rooms: Vec::new(), portals: Vec::new() }
    }

    /// The place of the first room with identity `id`.
    pub fn room_index(&self, id: RoomID) -> (found: Option<usize>)
        ensures
            match found {
                Some(i) => position(self.room_ids(), id, 0) == Some(i as int) && i
                    < self.rooms@.len(),
                None => position(self.room_ids(), id, 0) is None,
            },
    {
        let mut i: usize = 0;
        while i < self.rooms.len()
            invariant
                i <= self.rooms@.len(),
                position(self.room_ids(), id, 0) == position(self.room_ids(), id, i as int),
            decreases self.rooms@.len() - i,
        {
            if self.rooms[i].id == id {
                return Some(i);
            }
            i += 1;
        }
        None
    }

    /// The place of the first portal with identity `id`.
    pub fn portal_index(&self, id: PortalID) -> (found: Option<usize>)
        ensures
            match found {
                Some(i) => position(self.portal_ids(), id, 0) == Some(i as int) && i
                    < self.portals@.len(),
                None => position(self.portal_ids(), id, 0) is None,
            },
    {
        let mut i: usize = 0;
        while i < self.portals.len()
            invariant
                i <= self.portals@.len(),
                position(self.portal_ids(), id, 0) == position(self.portal_ids(), id, i as int),
            decreases self.portals@.len() - i,
        {
            if self.portals[i].id == id {
                return Some(i);
            }
            i += 1;
        }
        None
    }

    /// The place of the first camera with identity `id`.
    pub fn camera_index(&self, id: CameraID) -> (found: Option<usize>)
        ensures
            match found {
                Some(i) => position(self.camera_ids(), id, 0) == Some(i as int) && i
                    < self.cameras@.len(),
                None => position(self.camera_ids(), id, 0) is None,
            },
    {
        let mut i: usize = 0;
        while i < self.cameras.len()
            invariant
                i <= self.cameras@.len(),
                position(self.camera_ids(), id, 0) == position(self.camera_ids(), id, i as int),
            decreases self.cameras@.len() - i,
        {
            if self.cameras[i].id == id {
                return Some(i);
            }
            i += 1;
        }
        None
    }

    /// The room with identity `id`, or `None` if the world has no such room.
    pub fn get_room(&self, id: RoomID) -> (found: Option<&Room>)
        ensures
            match found {
                Some(room) => self.find_room(id) == Some(*room),
                None => self.find_room(id) is None,
            },
    {
        match self.room_index(id) {
            Some(i) => Some(&self.rooms[i]),
            None => None,
        }
    }

    /// The portal with identity `id`, or `None` if the world has no such
    /// portal.
    pub fn get_portal(&self, id: PortalID) -> (found: Option<&Portal>)
        ensures
            match found {
                Some(portal) => self.find_portal(id) == Some(*portal),
                None => self.find_portal(id) is None,
            },
    {
        match self.portal_index(id) {
            Some(i) => Some(&self.portals[i]),
            None => None,
        }
    }

    /// The camera with identity `id`, or `None` if the world has no such
    /// camera.
    pub fn get_camera(&self, id: CameraID) -> (found: Option<&Camera>)
        ensures
            match found {
                Some(camera) => self.find_camera(id) == Some(*camera),
                None => self.find_camera(id) is None,
            },
    {
        match self.camera_index(id) {
            Some(i) => Some(&self.cameras[i]),
            None => None,
        }
    }

    /// The portal placements of room `room_id` in their stored order, or
    /// `None` if the world has no such room.
    pub fn portals_of(&self, room_id: RoomID) -> (found: Option<&Vec<RoomPortal>>)
        ensures
            match found {
                Some(placements) => self.find_room(room_id) is Some && placements@
                    == self.find_room(room_id).unwrap().portals@,
                None => self.find_room(room_id) is None,
            },
    {
        match self.room_index(room_id) {
            Some(i) => Some(&self.rooms[i].portals),
            None => None,
        }
    }

    /// The identity of the first room, or `None` in a world without rooms.
    pub fn first_room(&self) -> (first: Option<RoomID>)
        ensures
            first == self.first_room_id(),
    {
        if self.rooms.len() > 0 {
            Some(self.rooms[0].id)
        } else {
            None
        }
    }

    /// Adds `room` to the world. A room that the world finds under the same
    /// identity is replaced in its place; otherwise `room` becomes the last
    /// room. Returns whether a room was replaced.
    pub fn insert_room(&mut self, room: Room) -> (replaced: bool)
        ensures
            replaced == old(self).find_room(room.id) is Some,
            final(self).rooms@ == match position(old(self).room_ids(), room.id, 0) {
                Some(i) => old(self).rooms@.update(i, room),
                None => old(self).rooms@.push(room),
            },
            final(self).room_map() == old(self).room_map().insert(room.id, room),
            final(self).portals == old(self).portals,
            final(self).cameras == old(self).cameras,
    {
        let ghost before = *self;
        let ghost id = room.id;
        match self.room_index(room.id) {
            Some(i) => {
                self.rooms.set(i, room);
                proof {
                    lemma_position(before.room_ids(), id, 0);
                }
                assert(self.room_ids() =~= before.room_ids());
                assert forall|other: RoomID| #[trigger]
                    self.find_room(other) == (if other == id {
                        Some(room)
                    } else {
                        before.find_room(other)
                    }) by {
                    lemma_position(before.room_ids(), other, 0);
                }
                assert(self.room_map() =~= before.room_map().insert(id, room));
                true
            },
            None => {
                self.rooms.push(room);
                assert(self.room_ids() =~= before.room_ids().push(id));
                assert forall|other: RoomID| #[trigger]
                    self.find_room(other) == (if other == id {
                        Some(room)
                    } else {
                        before.find_room(other)
                    }) by {
                    lemma_position_push(before.room_ids(), id, other, 0);
                    lemma_position(before.room_ids(), other, 0);
                }
                assert(self.room_map() =~= before.room_map().insert(id, room));
                false
            },
        }
    }

    /// Adds `portal` to the world. A portal that the world finds under the
    /// same identity is replaced in its place; otherwise `portal` becomes the
    /// last portal. Returns whether a portal was replaced.
    pub fn insert_portal(&mut self, portal: Portal) -> (replaced: bool)
        ensures
            replaced == old(self).find_portal(portal.id) is Some,
            final(self).portals@ == match position(old(self).portal_ids(), portal.id, 0) {
                Some(i) => old(self).portals@.update(i, portal),
                None => old(self).portals@.push(portal),
            },
            final(self).portal_map() == old(self).portal_map().insert(portal.id, portal),
            final(self).rooms == old(self).rooms,
            final(self).cameras == old(self).cameras,
    {
        let ghost before = *self;
        let ghost id = portal.id;
        match self.portal_index(portal.id) {
            Some(i) => {
                self.portals.set(i, portal);
                proof {
                    lemma_position(before.portal_ids(), id, 0);
                }
                assert(self.portal_ids() =~= before.portal_ids());
                assert forall|other: PortalID| #[trigger]
                    self.find_portal(other) == (if other == id {
                        Some(portal)
                    } else {
                        before.find_portal(other)
                    }) by {
                    lemma_position(before.portal_ids(), other, 0);
                }
                assert(self.portal_map() =~= before.portal_map().insert(id, portal));
                true
            },
            None => {
                self.portals.push(portal);
                assert(self.portal_ids() =~= before.portal_ids().push(id));
                assert forall|other: PortalID| #[trigger]
                    self.find_portal(other) == (if other == id {
                        Some(portal)
                    } else {
                        before.find_portal(other)
                    }) by {
                    lemma_position_push(before.portal_ids(), id, other, 0);
                    lemma_position(before.portal_ids(), other, 0);
                }
                assert(self.portal_map() =~= before.portal_map().insert(id, portal));
                false
            },
        }
    }

    /// Adds `camera` to the world. A camera that the world finds under the
    /// same identity is replaced in its place; otherwise `camera` becomes the
    /// last camera. Returns whether a camera was replaced.
    pub fn insert_camera(&mut self, camera: Camera) -> (replaced: bool)
        ensures
            replaced == old(self).find_camera(camera.id) is Some,
            final(self).cameras@ == match position(old(self).camera_ids(), camera.id, 0) {
                Some(i) => old(self).cameras@.update(i, camera),
                None => old(self).cameras@.push(camera),
            },
            final(self).camera_map() == old(self).camera_map().insert(camera.id, camera),
            final(self).rooms == old(self).rooms,
            final(self).portals == old(self).portals,
    {
        let ghost before = *self;
        let ghost id = camera.id;
        match self.camera_index(camera.id) {
            Some(i) => {
                self.cameras.set(i, camera);
                proof {
                    lemma_position(before.camera_ids(), id, 0);
                }
                assert(self.camera_ids() =~= before.camera_ids());
                assert forall|other: CameraID| #[trigger]
                    self.find_camera(other) == (if other == id {
                        Some(camera)
                    } else {
                        before.find_camera(other)
                    }) by {
                    lemma_position(before.camera_ids(), other, 0);
                }
                assert(self.camera_map() =~= before.camera_map().insert(id, camera));
                true
            },
            None => {
                self.cameras.push(camera);
                assert(self.camera_ids() =~= before.camera_ids().push(id));
                assert forall|other: CameraID| #[trigger]
                    self.find_camera(other) == (if other == id {
                        Some(camera)
                    } else {
                        before.find_camera(other)
                    }) by {
                    lemma_position_push(before.camera_ids(), id, other, 0);
                    lemma_position(before.camera_ids(), other, 0);
                }
                assert(self.camera_map() =~= before.camera_map().insert(id, camera));
                false
            },
        }
    }

    /// Moves camera `camera_id` to `pos` and turns it to `rot`. Returns
    /// whether the world knows the camera; a world that does not is left as
    /// it is. The next frame through the camera sees the new pose.
    pub fn set_camera_pose(&mut self, camera_id: CameraID, pos: Point3, rot: Rotation) -> (found:
        bool)
        ensures
            found == old(self).find_camera(camera_id) is Some,
            !found ==> *final(self) == *old(self),
            found ==> final(self).find_camera(camera_id) == Some(
                Camera { pos, rot, ..old(self).find_camera(camera_id).unwrap() },
            ),
            found ==> final(self).cameras@ == old(self).cameras@.update(
                position(old(self).camera_ids(), camera_id, 0).unwrap(),
                Camera { pos, rot, ..old(self).find_camera(camera_id).unwrap() },
            ),
            final(self).camera_ids() == old(self).camera_ids(),
            final(self).rooms == old(self).rooms,
            final(self).portals == old(self).portals,
    {
        let ghost before = *self;
        match self.camera_index(camera_id) {
            Some(i) => {
                let mut camera = self.cameras[i];
                camera.pos = pos;
                camera.rot = rot;
                self.cameras.set(i, camera);
                proof {
                    before.lemma_find_camera(camera_id);
                }
                assert(self.camera_ids() =~= before.camera_ids());
                true
            },
            None => false,
        }
    }

    /// Places camera `camera_id` in `room`, or in no room. Returns whether
    /// the world knows the camera; a world that does not is left as it is.
    pub fn set_camera_room(&mut self, camera_id: CameraID, room: Option<RoomID>) -> (found: bool)
        ensures
            found == old(self).find_camera(camera_id) is Some,
            !found ==> *final(self) == *old(self),
            found ==> final(self).find_camera(camera_id) == Some(
                Camera { in_room: room, ..old(self).find_camera(camera_id).unwrap() },
            ),
            found ==> final(self).cameras@ == old(self).cameras@.update(
                position(old(self).camera_ids(), camera_id, 0).unwrap(),
                Camera { in_room: room, ..old(self).find_camera(camera_id).unwrap() },
            ),
            final(self).camera_ids() == old(self).camera_ids(),
            final(self).rooms == old(self).rooms,
            final(self).portals == old(self).portals,
    {
        let ghost before = *self;
        match self.camera_index(camera_id) {
            Some(i) => {
                let mut camera = self.cameras[i];
                camera.in_room = room;
                self.cameras.set(i, camera);
                proof {
                    before.lemma_find_camera(camera_id);
                }
                assert(self.camera_ids() =~= before.camera_ids());
                true
            },
            None => false,
        }
    }

    /// Turns camera `camera_id` by `delta`: its pitch stops at a quarter turn
    /// up or down, its yaw and roll wrap around. Returns whether the world
    /// knows the camera; a world that does not is left as it is.
    pub fn rotate_camera(&mut self, camera_id: CameraID, delta: Rotation) -> (found: bool)
        ensures
            found == old(self).find_camera(camera_id) is Some,
            !found ==> *final(self) == *old(self),
            found ==> final(self).find_camera(camera_id) == Some(
                Camera {
                    rot: old(self).find_camera(camera_id).unwrap().rot.turned_by(delta),
                    ..old(self).find_camera(camera_id).unwrap()
                },
            ),
            found ==> final(self).find_camera(camera_id).unwrap().rot.is_normalized(),
            found ==> final(self).cameras@ == old(self).cameras@.update(
                position(old(self).camera_ids(), camera_id, 0).unwrap(),
                Camera {
                    rot: old(self).find_camera(camera_id).unwrap().rot.turned_by(delta),
                    ..old(self).find_camera(camera_id).unwrap()
                },
            ),
            final(self).camera_ids() == old(self).camera_ids(),
            final(self).rooms == old(self).rooms,
            final(self).portals == old(self).portals,
    {
        let ghost before = *self;
        match self.camera_index(camera_id) {
            Some(i) => {
                let mut camera = self.cameras[i];
                let mut rot = camera.rot;
                rot.rotate(delta);
                camera.rot = rot;
                self.cameras.set(i, camera);
                proof {
                    before.lemma_find_camera(camera_id);
                }
                assert(self.camera_ids() =~= before.camera_ids());
                true
            },
            None => false,
        }
    }

    /// The room that a view through camera `camera_id` starts from. A camera
    /// that is unknown, or that stands in no room, looks at the first room of
    /// the world; in a world without rooms there is then no such room.
    pub fn active_room(&self, camera_id: CameraID) -> (active: Option<RoomID>)
        ensures
            active == self.active_room_id(camera_id),
    {
        match self.get_camera(camera_id) {
            Some(camera) => match camera.in_room {
                Some(room) => Some(room),
                None => self.first_room(),
            },
            None => self.first_room(),
        }
    }
}

} // verus!
