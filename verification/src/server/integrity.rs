//! The invariants of a world, and a check that tells whether a world, built
//! by hand or read from storage, meets them.

use vstd::prelude::*;
use crate::ids::{PortalID, RoomID};
use crate::server::world::{Room, RoomPortal, World};

verus! {

/// Whether no value of `a` is a value of `b`.
pub open spec fn are_apart(a: Seq<u128>, b: Seq<u128>) -> bool {
    forall|i: int, j: int| 0 <= i < a.len() && 0 <= j < b.len() ==> a[i] != b[j]
}

/// Tells whether no value occurs twice in `keys`.
pub fn all_distinct(keys: &Vec<u128>) -> (r: bool)
    ensures
        r == keys@.no_duplicates(),
{
    let mut j: usize = 0;
    while j < keys.len()
        invariant
            j <= keys@.len(),
            forall|a: int, b: int| 0 <= a < b < j ==> keys@[a] != keys@[b],
        decreases keys@.len() - j,
    {
        let mut i: usize = 0;
        while i < j
            invariant
                i <= j < keys@.len(),
                forall|a: int| 0 <= a < i ==> keys@[a] != keys@[j as int],
            decreases j - i,
        {
            if keys[i] == keys[j] {
                return false;
            }
            i += 1;
        }
        j += 1;
    }
    assert forall|a: int, b: int| 0 <= a < keys@.len() && 0 <= b < keys@.len() && a != b implies keys@[a]
        != keys@[b] by {
        if a < b {
        } else {
            assert(keys@[b] != keys@[a]);
        }
    }
    true
}

/// Tells whether no value of `a` is a value of `b`.
pub fn check_apart(a: &Vec<u128>, b: &Vec<u128>) -> (r: bool)
    ensures
        r == are_apart(a@, b@),
{
    let mut i: usize = 0;
    while i < a.len()
        invariant
            i <= a@.len(),
            forall|x: int, y: int| 0 <= x < i && 0 <= y < b@.len() ==> a@[x] != b@[y],
        decreases a@.len() - i,
    {
        let mut j: usize = 0;
        while j < b.len()
            invariant
                i < a@.len(),
                j <= b@.len(),
                forall|y: int| 0 <= y < j ==> a@[i as int] != b@[y],
            decreases b@.len() - j,
        {
            if a[i] == b[j] {
                return false;
            }
            j += 1;
        }
        i += 1;
    }
    true
}

impl World {
    /// The identities of the rooms as plain values, in the order of the rooms.
    pub open spec fn room_keys(&self) -> Seq<u128> {
        Seq::new(self.rooms@.len(), |i: int| self.rooms@[i].id.0)
    }

    /// The identities of the portals as plain values, in the order of the
    /// portals.
    pub open spec fn portal_keys(&self) -> Seq<u128> {
        Seq::new(self.portals@.len(), |i: int| self.portals@[i].id.0)
    }

    /// The identities of the cameras as plain values, in the order of the
    /// cameras.
    pub open spec fn camera_keys(&self) -> Seq<u128> {
        Seq::new(self.cameras@.len(), |i: int| self.cameras@[i].id.0)
    }

    /// Whether no two rooms, no two portals and no two cameras share an
    /// identity.
    pub open spec fn ids_are_distinct(&self) -> bool {
        &&& self.room_keys().no_duplicates()
        &&& self.portal_keys().no_duplicates()
        &&& self.camera_keys().no_duplicates()
    }

    /// Whether no identity is used for things of two kinds.
    pub open spec fn kinds_are_apart(&self) -> bool {
        &&& are_apart(self.room_keys(), self.portal_keys())
        &&& are_apart(self.room_keys(), self.camera_keys())
        &&& are_apart(self.portal_keys(), self.camera_keys())
    }

    /// Whether every placement in `room` names a portal of the world.
    pub open spec fn placements_resolve(&self, room: Room) -> bool {
        forall|k: int|
            0 <= k < room.portals@.len() ==> self.find_portal(
                (#[trigger] room.portals@[k]).id,
            ) is Some
    }

    /// Whether every placement in every room names a portal of the world,
    /// and every portal joins two different rooms of the world.
    pub open spec fn links_resolve(&self) -> bool {
        &&& forall|i: int|
            0 <= i < self.rooms@.len() ==> self.placements_resolve(#[trigger] self.rooms@[i])
        &&& forall|i: int|
            0 <= i < self.portals@.len() ==> {
                let portal = #[trigger] self.portals@[i];
                &&& portal.rooms_linked[0] != portal.rooms_linked[1]
                &&& self.find_room(portal.rooms_linked[0]) is Some
                &&& self.find_room(portal.rooms_linked[1]) is Some
            }
    }

    /// Whether the world meets all its invariants: identities are unique
    /// within a kind and not shared between kinds, every reference from a
    /// room to a portal and from a portal to a room resolves, no portal joins
    /// a room to itself, every room and every portal has finite extents above
    /// zero, and every camera has a frustum that can be projected.
    pub open spec fn is_well_formed(&self) -> bool {
        &&& self.ids_are_distinct()
        &&& self.kinds_are_apart()
        &&& self.links_resolve()
        &&& self.is_renderable()
        &&& self.cameras_are_valid()
    }

    /// The identities of the rooms as plain values.
    fn collect_room_keys(&self) -> (keys: Vec<u128>)
        ensures
            keys@ == self.room_keys(),
    {
        let mut keys: Vec<u128> = Vec::new();
        let mut i: usize = 0;
        while i < self.rooms.len()
            invariant
                i <= self.rooms@.len(),
                keys@ == Seq::new(i as nat, |k: int| self.rooms@[k].id.0),
            decreases self.rooms@.len() - i,
        {
            keys.push(self.rooms[i].id.0);
            assert(keys@ =~= Seq::new((i + 1) as nat, |k: int| self.rooms@[k].id.0));
            i += 1;
        }
        keys
    }

    /// The identities of the portals as plain values.
    fn collect_portal_keys(&self) -> (keys: Vec<u128>)
        ensures
            keys@ == self.portal_keys(),
    {
        let mut keys: Vec<u128> = Vec::new();
        let mut i: usize = 0;
        while i < self.portals.len()
            invariant
                i <= self.portals@.len(),
                keys@ == Seq::new(i as nat, |k: int| self.portals@[k].id.0),
            decreases self.portals@.len() - i,
        {
            keys.push(self.portals[i].id.0);
            assert(keys@ =~= Seq::new((i + 1) as nat, |k: int| self.portals@[k].id.0));
            i += 1;
        }
        keys
    }

    /// The identities of the cameras as plain values.
    fn collect_camera_keys(&self) -> (keys: Vec<u128>)
        ensures
            keys@ == self.camera_keys(),
    {
        let mut keys: Vec<u128> = Vec::new();
        let mut i: usize = 0;
        while i < self.cameras.len()
            invariant
                i <= self.cameras@.len(),
                keys@ == Seq::new(i as nat, |k: int| self.cameras@[k].id.0),
            decreases self.cameras@.len() - i,
        {
            keys.push(self.cameras[i].id.0);
            assert(keys@ =~= Seq::new((i + 1) as nat, |k: int| self.cameras@[k].id.0));
            i += 1;
        }
        keys
    }

    /// Tells whether every placement in `placements` names a portal of the
    /// world.
    fn check_placements(&self, placements: &Vec<RoomPortal>) -> (r: bool)
        ensures
            r == forall|k: int|
                0 <= k < placements@.len() ==> self.find_portal(
                    (#[trigger] placements@[k]).id,
                ) is Some,
    {
        let mut k: usize = 0;
        while k < placements.len()
            invariant
                k <= placements@.len(),
                forall|j: int|
                    0 <= j < k ==> self.find_portal((#[trigger] placements@[j]).id) is Some,
            decreases placements@.len() - k,
        {
            if self.get_portal(placements[k].id).is_none() {
                return false;
            }
            k += 1;
        }
        true
    }

    /// Tells whether every reference in the world resolves and no portal
    /// joins a room to itself.
    pub fn check_links(&self) -> (r: bool)
        ensures
            r == self.links_resolve(),
    {
        let mut i: usize = 0;
        while i < self.rooms.len()
            invariant
                i <= self.rooms@.len(),
                forall|j: int| 0 <= j < i ==> self.placements_resolve(#[trigger] self.rooms@[j]),
            decreases self.rooms@.len() - i,
        {
            if !self.check_placements(&self.rooms[i].portals) {
                assert(!self.placements_resolve(self.rooms@[i as int]));
                return false;
            }
            assert(self.placements_resolve(self.rooms@[i as int]));
            i += 1;
        }
        let mut i: usize = 0;
        while i < self.portals.len()
            invariant
                i <= self.portals@.len(),
                forall|j: int| 0 <= j < self.rooms@.len() ==> self.placements_resolve(#[trigger] self.rooms@[j]),
                forall|j: int|
                    0 <= j < i ==> {
                        let portal = #[trigger] self.portals@[j];
                        &&& portal.rooms_linked[0] != portal.rooms_linked[1]
                        &&& self.find_room(portal.rooms_linked[0]) is Some
                        &&& self.find_room(portal.rooms_linked[1]) is Some
                    },
            decreases self.portals@.len() - i,
        {
            let first: RoomID = self.portals[i].rooms_linked[0];
            let second: RoomID = self.portals[i].rooms_linked[1];
            if first == second || self.get_room(first).is_none() || self.get_room(
                second,
            ).is_none() {
                let ghost portal = self.portals@[i as int];
                assert(!(portal.rooms_linked[0] != portal.rooms_linked[1] && self.find_room(
                    portal.rooms_linked[0],
                ) is Some && self.find_room(portal.rooms_linked[1]) is Some));
                return false;
            }
            i += 1;
        }
        true
    }

    /// Tells whether the world's identities are unique within each kind and
    /// not shared between kinds.
    pub fn check_ids(&self) -> (r: bool)
        ensures
            r == (self.ids_are_distinct() && self.kinds_are_apart()),
    {
        let rooms = self.collect_room_keys();
        let portals = self.collect_portal_keys();
        let cameras = self.collect_camera_keys();
        all_distinct(&rooms) && all_distinct(&portals) && all_distinct(&cameras) && check_apart(
            &rooms,
            &portals,
        ) && check_apart(&rooms, &cameras) && check_apart(&portals, &cameras)
    }

    /// Tells whether the world meets all its invariants.
    pub fn check_well_formed(&self) -> (r: bool)
        ensures
            r == self.is_well_formed(),
    {
        self.check_ids() && self.check_links() && self.check_renderable() && self.check_cameras()
    }

    /// In a world with distinct identities a lookup finds each room under
    /// its own identity, so the rooms and the entries of the room map are
    /// the same.
    pub proof fn lemma_distinct_rooms_are_found(&self, i: int)
        requires
            self.ids_are_distinct(),
            0 <= i < self.rooms@.len(),
        ensures
            self.find_room(self.rooms@[i].id) == Some(self.rooms@[i]),
    {
        let id = self.rooms@[i].id;
        crate::server::world::lemma_position(self.room_ids(), id, 0);
        assert(self.room_ids()[i] == id);
        let found = crate::server::world::position(self.room_ids(), id, 0).unwrap();
        assert(self.room_ids()[found] == self.rooms@[found].id);
        assert(self.room_keys()[found] == self.room_keys()[i]);
    }

    /// In a world with distinct identities a lookup finds each portal under
    /// its own identity.
    pub proof fn lemma_distinct_portals_are_found(&self, i: int)
        requires
            self.ids_are_distinct(),
            0 <= i < self.portals@.len(),
        ensures
            self.find_portal(self.portals@[i].id) == Some(self.portals@[i]),
    {
        let id: PortalID = self.portals@[i].id;
        crate::server::world::lemma_position(self.portal_ids(), id, 0);
        assert(self.portal_ids()[i] == id);
        let found = crate::server::world::position(self.portal_ids(), id, 0).unwrap();
        assert(self.portal_ids()[found] == self.portals@[found].id);
        assert(self.portal_keys()[found] == self.portal_keys()[i]);
    }
}

} // verus!
