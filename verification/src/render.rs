//! The portal renderer: what is drawn in a frame, in which order, and under
//! which render state.
//!
//! A frame shows the room that the camera stands in and, through each of that
//! room's portals, the room behind it. The stencil buffer makes a portal a
//! window: first every portal's quad writes a value of its own into the
//! stencil buffer and nothing else; then the active room is drawn where the
//! stencil buffer is still zero; then each room behind a portal is drawn where
//! the stencil buffer holds that portal's value.
//!
//! `WorldRender::draw_world` decides all of this and returns it as a `Frame`.
//! Carrying the frame out on the graphics hardware is left to the caller, who
//! computes for each command the matrix
//! `projection * view * offset * axis inversion` from the frame's camera, the
//! viewport and the command's placement.

use vstd::prelude::*;
use crate::geometry::{
    portal_quad, quad_of, room_indices, room_to_triangles, room_vertices, GeometryVertex,
    PortalQuad,
};
use crate::ids::{CameraID, RoomID};
use crate::server::world::{Camera, Room, RoomPortal, World};
use crate::space::Viewport;

verus! {

/// The number of portals of one room that a frame can tell apart: the values
/// of an eight-bit stencil buffer other than zero.
pub const STENCIL_CAPACITY: usize = 255;

/// A test that compares a fragment's value with the value in a buffer.
#[derive(Clone, Copy, Debug, PartialEq, Eq, Hash, Structural)]
pub enum CompareFunc {
    /// Every fragment passes.
    Always,
    /// A fragment passes where the two values are equal.
    Equal,
    /// A fragment passes where its value is not above the buffer's.
    LEqual,
}

/// What becomes of the stencil buffer's value where a fragment was tested.
#[derive(Clone, Copy, Debug, PartialEq, Eq, Hash, Structural)]
pub enum StencilOp {
    /// The value stays.
    Keep,
    /// The value becomes zero.
    Zero,
    /// The value becomes the fragment's value.
    Replace,
}

/// The stencil test of a draw.
#[derive(Clone, Copy, Debug, PartialEq, Eq, Hash, Structural)]
pub struct StencilTest {
    pub func: CompareFunc,
    pub frag_value: u8,
    pub mask: u32,
    pub stencil_fail: StencilOp,
    pub depth_fail: StencilOp,
    pub depth_pass: StencilOp,
}

/// The state of the pipeline under which a command is drawn.
#[derive(Clone, Copy, Debug, PartialEq, Eq, Hash, Structural)]
pub struct RenderState {
    /// Faces turned away from the camera are dropped.
    pub cull_back_faces: bool,
    /// A face is turned to the camera where its corners run clockwise.
    pub front_face_clockwise: bool,
    pub srgb: bool,
    pub viewport: Viewport,
    pub depth_test: CompareFunc,
    pub stencil_test: StencilTest,
    /// Whether the draw writes colour.
    pub color_mask: bool,
    /// Whether the draw writes depth.
    pub depth_mask: bool,
}

/// One draw of a frame.
#[derive(Clone, Copy, Debug, PartialEq, Eq)]
pub enum DrawCommand {
    /// Marks the opening of the portal in place `slot` of the active room's
    /// list: its quad writes `stencil` into the stencil buffer. The quad's
    /// own placement is the offset of the transform.
    PortalMask { slot: usize, stencil: u8, quad: PortalQuad },
    /// Draws the active room where no portal was marked. The offset of the
    /// transform is the identity.
    ActiveRoom { room: RoomID, vertices: [GeometryVertex; 8], indices: [u16; 36] },
    /// Draws the room behind the portal in place `slot` where that portal
    /// was marked with `stencil`. The offset of the transform is `placement`.
    AdjacentRoom {
        slot: usize,
        stencil: u8,
        placement: RoomPortal,
        room: RoomID,
        vertices: [GeometryVertex; 8],
        indices: [u16; 36],
    },
}

/// What `draw_world` decided for one frame.
#[derive(Clone, Debug, PartialEq, Eq)]
pub struct Frame {
    /// The camera whose pose and frustum give the view and the projection;
    /// `None` where the world has no such camera, and then nothing is drawn.
    pub camera: Option<Camera>,
    /// The pixels to draw into.
    pub viewport: Viewport,
    /// The rooms that are drawn for the first time: buffers of
    /// `ROOM_BUFFER_CAPACITY` vertices and indices are to be made for each
    /// before the commands run.
    pub allocations: Vec<RoomID>,
    /// The draws, in the order in which they must be issued.
    pub commands: Vec<DrawCommand>,
    /// The number of portals of the active room beyond `STENCIL_CAPACITY`,
    /// which this frame leaves closed.
    pub portals_skipped: usize,
}

/// The renderer's memory between frames: the rooms for which buffers exist.
pub struct WorldRender {
    room_geometry: Vec<RoomID>,
}

/// The number of portals of `room` that a frame marks: all of them, up to
/// the capacity of the stencil buffer.
pub open spec fn stencil_slots(room: Room) -> int {
    if room.portals@.len() < STENCIL_CAPACITY {
        room.portals@.len() as int
    } else {
        STENCIL_CAPACITY as int
    }
}

/// The stencil value of the portal in place `slot`: one more than the place,
/// so that no portal is marked with zero.
pub open spec fn stencil_value(slot: int) -> u8 {
    (slot + 1) as u8
}

/// The command that marks the portal in place `k` of the room `active`, if
/// the world knows that portal.
pub open spec fn mask_at(world: &World, active: Room, k: int) -> Option<DrawCommand> {
    let placement = active.portals@[k];
    match world.find_portal(placement.id) {
        Some(portal) => Some(
            DrawCommand::PortalMask {
                slot: k as usize,
                stencil: stencil_value(k),
                quad: quad_of(placement.pos, portal.dims, placement.rot),
            },
        ),
        None => None,
    }
}

/// The command that draws the room behind the portal in place `k` of the
/// room `active`, if the world knows the portal, the portal opens into
/// `active`, and the world knows the room on its other side.
pub open spec fn adjacent_at(world: &World, active: Room, k: int) -> Option<DrawCommand> {
    let placement = active.portals@[k];
    match world.find_portal(placement.id) {
        Some(portal) => match portal.opposite_room(active.id) {
            Some(other) => match world.find_room(other) {
                Some(room) => Some(
                    DrawCommand::AdjacentRoom {
                        slot: k as usize,
                        stencil: stencil_value(k),
                        placement,
                        room: other,
                        vertices: room_vertices(room.dims),
                        indices: room_indices(),
                    },
                ),
                None => None,
            },
            None => None,
        },
        None => None,
    }
}

/// The commands that mark the first `n` portals of `active`, in their order.
pub open spec fn masks(world: &World, active: Room, n: int) -> Seq<DrawCommand>
    decreases n,
{
    if n <= 0 {
        Seq::empty()
    } else {
        match mask_at(world, active, n - 1) {
            Some(command) => masks(world, active, n - 1).push(command),
            None => masks(world, active, n - 1),
        }
    }
}

/// The commands that draw the rooms behind the first `n` portals of
/// `active`, in the portals' order.
pub open spec fn adjacents(world: &World, active: Room, n: int) -> Seq<DrawCommand>
    decreases n,
{
    if n <= 0 {
        Seq::empty()
    } else {
        match adjacent_at(world, active, n - 1) {
            Some(command) => adjacents(world, active, n - 1).push(command),
            None => adjacents(world, active, n - 1),
        }
    }
}

/// The command that draws the room `active` itself.
pub open spec fn active_command(active: Room) -> DrawCommand {
    DrawCommand::ActiveRoom {
        room: active.id,
        vertices: room_vertices(active.dims),
        indices: room_indices(),
    }
}

/// The room that a frame through camera `camera_id` starts from, if the
/// world knows the camera and the room.
pub open spec fn active_room_of(world: &World, camera_id: CameraID) -> Option<Room> {
    match world.find_camera(camera_id) {
        Some(_) => match world.active_room_id(camera_id) {
            Some(id) => world.find_room(id),
            None => None,
        },
        None => None,
    }
}

/// The draws of a frame through camera `camera_id`, in order: the marks of
/// the active room's portals, the active room, the rooms behind the portals.
/// Nothing where the world does not know the camera or its room, or has no
/// room at all.
pub open spec fn draw_list(world: &World, camera_id: CameraID) -> Seq<DrawCommand> {
    match active_room_of(world, camera_id) {
        Some(active) => masks(world, active, stencil_slots(active)).push(active_command(active))
            + adjacents(world, active, stencil_slots(active)),
        None => Seq::empty(),
    }
}

/// The number of portals of the active room that a frame through camera
/// `camera_id` leaves closed for want of stencil values.
pub open spec fn skipped_portals(world: &World, camera_id: CameraID) -> int {
    match active_room_of(world, camera_id) {
        Some(active) => active.portals@.len() - stencil_slots(active),
        None => 0,
    }
}

/// The room whose buffers a command draws from, if it draws a room.
pub open spec fn room_drawn(command: DrawCommand) -> Option<RoomID> {
    match command {
        DrawCommand::PortalMask { .. } => None,
        DrawCommand::ActiveRoom { room, .. } => Some(room),
        DrawCommand::AdjacentRoom { room, .. } => Some(room),
    }
}

/// The rooms that the commands draw, in the order of the commands.
pub open spec fn rooms_drawn(commands: Seq<DrawCommand>) -> Seq<RoomID>
    decreases commands.len(),
{
    if commands.len() == 0 {
        Seq::empty()
    } else {
        match room_drawn(commands.last()) {
            Some(room) => rooms_drawn(commands.drop_last()).push(room),
            None => rooms_drawn(commands.drop_last()),
        }
    }
}

/// The rooms with buffers once `room` has been drawn: `room` joins at the
/// end unless it has buffers already.
pub open spec fn with_room(buffers: Seq<RoomID>, room: RoomID) -> Seq<RoomID> {
    if buffers.contains(room) {
        buffers
    } else {
        buffers.push(room)
    }
}

/// The rooms with buffers once `rooms` have been drawn one after another.
pub open spec fn with_rooms(buffers: Seq<RoomID>, rooms: Seq<RoomID>) -> Seq<RoomID>
    decreases rooms.len(),
{
    if rooms.len() == 0 {
        buffers
    } else {
        with_room(with_rooms(buffers, rooms.drop_last()), rooms.last())
    }
}

/// The render state under which `command` is drawn into `viewport`.
///
/// Every draw drops back faces, with clockwise faces counting as front. A
/// mask writes neither colour nor depth, passes every fragment whatever lies
/// in front of it, and replaces the stencil value with the portal's. A room
/// is drawn with colour and depth, nearer fragments hiding farther ones,
/// where the stencil value equals zero for the active room and the portal's
/// value for a room behind a portal, and leaves the stencil buffer as it is.
pub open spec fn render_state_of(command: DrawCommand, viewport: Viewport) -> RenderState {
    match command {
        DrawCommand::PortalMask { stencil, .. } => RenderState {
            cull_back_faces: true,
            front_face_clockwise: true,
            srgb: true,
            viewport,
            depth_test: CompareFunc::Always,
            stencil_test: StencilTest {
                func: CompareFunc::Always,
                frag_value: stencil,
                mask: 0xffff_ffff,
                stencil_fail: StencilOp::Zero,
                depth_fail: StencilOp::Zero,
                depth_pass: StencilOp::Replace,
            },
            color_mask: false,
            depth_mask: false,
        },
        DrawCommand::ActiveRoom { .. } => RenderState {
            cull_back_faces: true,
            front_face_clockwise: true,
            srgb: true,
            viewport,
            depth_test: CompareFunc::LEqual,
            stencil_test: StencilTest {
                func: CompareFunc::Equal,
                frag_value: 0,
                mask: 0xffff_ffff,
                stencil_fail: StencilOp::Keep,
                depth_fail: StencilOp::Keep,
                depth_pass: StencilOp::Keep,
            },
            color_mask: true,
            depth_mask: true,
        },
        DrawCommand::AdjacentRoom { stencil, .. } => RenderState {
            cull_back_faces: true,
            front_face_clockwise: true,
            srgb: true,
            viewport,
            depth_test: CompareFunc::LEqual,
            stencil_test: StencilTest {
                func: CompareFunc::Equal,
                frag_value: stencil,
                mask: 0xffff_ffff,
                stencil_fail: StencilOp::Keep,
                depth_fail: StencilOp::Keep,
                depth_pass: StencilOp::Keep,
            },
            color_mask: true,
            depth_mask: true,
        },
    }
}

/// The place in the active room's portal list of the portal that a command
/// marks or looks through; -1 for the draw of the active room itself.
pub open spec fn slot_of(command: DrawCommand) -> int {
    match command {
        DrawCommand::PortalMask { slot, .. } => slot as int,
        DrawCommand::ActiveRoom { .. } => -1,
        DrawCommand::AdjacentRoom { slot, .. } => slot as int,
    }
}

/// The stencil value that a command writes, if it is a mask, or that it
/// draws at, if it draws a room.
pub open spec fn stencil_of(command: DrawCommand) -> int {
    match command {
        DrawCommand::PortalMask { stencil, .. } => stencil as int,
        DrawCommand::ActiveRoom { .. } => 0,
        DrawCommand::AdjacentRoom { stencil, .. } => stencil as int,
    }
}

/// The marks of the first `n` portals: one mask for each portal that the
/// world knows, in the portals' order, each with the stencil value of its
/// place.
pub proof fn lemma_masks(world: &World, active: Room, n: int)
    requires
        0 <= n <= STENCIL_CAPACITY,
    ensures
        masks(world, active, n).len() <= n,
        forall|i: int|
            0 <= i < masks(world, active, n).len() ==> {
                let command = #[trigger] masks(world, active, n)[i];
                &&& command is PortalMask
                &&& 0 <= slot_of(command) < n
                &&& stencil_of(command) == slot_of(command) + 1
                &&& mask_at(world, active, slot_of(command)) == Some(command)
            },
        forall|i: int, j: int|
            0 <= i < j < masks(world, active, n).len() ==> slot_of(
                #[trigger] masks(world, active, n)[i],
            ) < slot_of(#[trigger] masks(world, active, n)[j]),
        forall|k: int|
            0 <= k < n && (#[trigger] mask_at(world, active, k)) is Some ==> masks(
                world,
                active,
                n,
            ).contains(mask_at(world, active, k).unwrap()),
    decreases n,
{
    if n > 0 {
        lemma_masks(world, active, n - 1);
        let before = masks(world, active, n - 1);
        let all = masks(world, active, n);
        match mask_at(world, active, n - 1) {
            Some(command) => {
                assert(all == before.push(command));
                assert(all[before.len() as int] == command);
                assert forall|k: int|
                    0 <= k < n && (#[trigger] mask_at(world, active, k)) is Some implies all.contains(
                    mask_at(world, active, k).unwrap(),
                ) by {
                    if k < n - 1 {
                        let found = mask_at(world, active, k).unwrap();
                        assert(before.contains(found));
                        let i = choose|i: int| 0 <= i < before.len() && before[i] == found;
                        assert(all[i] == found);
                    }
                }
            },
            None => {},
        }
    }
}

/// The draws behind the first `n` portals: one for each portal that the
/// world knows, that opens into the active room and that has a room of the
/// world on its other side, in the portals' order, each at the stencil value
/// of its place.
pub proof fn lemma_adjacents(world: &World, active: Room, n: int)
    requires
        0 <= n <= STENCIL_CAPACITY,
    ensures
        adjacents(world, active, n).len() <= n,
        forall|i: int|
            0 <= i < adjacents(world, active, n).len() ==> {
                let command = #[trigger] adjacents(world, active, n)[i];
                &&& command is AdjacentRoom
                &&& 0 <= slot_of(command) < n
                &&& stencil_of(command) == slot_of(command) + 1
                &&& adjacent_at(world, active, slot_of(command)) == Some(command)
            },
        forall|i: int, j: int|
            0 <= i < j < adjacents(world, active, n).len() ==> slot_of(
                #[trigger] adjacents(world, active, n)[i],
            ) < slot_of(#[trigger] adjacents(world, active, n)[j]),
    decreases n,
{
    if n > 0 {
        lemma_adjacents(world, active, n - 1);
        let before = adjacents(world, active, n - 1);
        let all = adjacents(world, active, n);
        match adjacent_at(world, active, n - 1) {
            Some(command) => {
                assert(all == before.push(command));
                assert(all[before.len() as int] == command);
            },
            None => {},
        }
    }
}

/// A world without rooms draws nothing, whatever the camera.
pub proof fn lemma_no_rooms_no_draws(world: &World, camera_id: CameraID)
    requires
        world.rooms@.len() == 0,
    ensures
        draw_list(world, camera_id).len() == 0,
{
    match world.active_room_id(camera_id) {
        Some(id) => {
            world.lemma_find_room(id);
        },
        None => {},
    }
}

/// A frame through a camera that the world does not know draws nothing.
pub proof fn lemma_no_camera_no_draws(world: &World, camera_id: CameraID)
    requires
        world.find_camera(camera_id) is None,
    ensures
        draw_list(world, camera_id).len() == 0,
{
}

/// A camera that stands in no room looks at the first room of the world:
/// the frame through it draws that room as its active room.
pub proof fn lemma_unplaced_camera_sees_first_room(world: &World, camera_id: CameraID)
    requires
        world.find_camera(camera_id) is Some,
        world.find_camera(camera_id).unwrap().in_room is None,
        world.rooms@.len() > 0,
    ensures
        active_room_of(world, camera_id) == Some(world.rooms@[0]),
        draw_list(world, camera_id).contains(active_command(world.rooms@[0])),
{
    let first = world.rooms@[0];
    assert(world.room_ids()[0] == first.id);
    assert(active_room_of(world, camera_id) == Some(first));
    let n = stencil_slots(first);
    let marks = masks(world, first, n);
    let list = draw_list(world, camera_id);
    assert(list == marks.push(active_command(first)) + adjacents(world, first, n));
    assert(list[marks.len() as int] == active_command(first));
}

/// A frame runs in three passes, in this order: the marks of the portals,
/// the active room, the rooms behind the portals. An empty frame is one
/// without an active room; any other frame draws the active room once, and
/// no more than one mask and one room for each stencil value.
pub proof fn lemma_frame_passes_in_order(world: &World, camera_id: CameraID)
    ensures
        ({
            let list = draw_list(world, camera_id);
            match active_room_of(world, camera_id) {
                None => list.len() == 0,
                Some(active) => {
                    let marks = masks(world, active, stencil_slots(active)).len() as int;
                    &&& marks < list.len() <= 2 * stencil_slots(active) + 1
                    &&& list[marks] == active_command(active)
                    &&& forall|i: int| 0 <= i < marks ==> (#[trigger] list[i]) is PortalMask
                    &&& forall|i: int|
                        marks < i < list.len() ==> (#[trigger] list[i]) is AdjacentRoom
                },
            }
        }),
{
    match active_room_of(world, camera_id) {
        None => {},
        Some(active) => {
            let n = stencil_slots(active);
            lemma_masks(world, active, n);
            lemma_adjacents(world, active, n);
            let first = masks(world, active, n);
            let last = adjacents(world, active, n);
            let list = draw_list(world, camera_id);
            assert(list == first.push(active_command(active)) + last);
            assert forall|i: int| 0 <= i < first.len() implies (#[trigger] list[i]) is PortalMask by {
                assert(list[i] == first[i]);
            }
            assert forall|i: int| first.len() < i < list.len() implies (
            #[trigger] list[i]) is AdjacentRoom by {
                assert(list[i] == last[i - first.len() - 1]);
            }
        },
    }
}

/// Each portal has a stencil value to itself: a command's stencil value is
/// one more than its portal's place in the active room's list and at most
/// 255, only the active room is drawn at zero, and among the masks, as among
/// the rooms behind portals, later commands belong to later portals.
pub proof fn lemma_stencil_values_tell_portals_apart(
    world: &World,
    camera_id: CameraID,
    i: int,
    j: int,
)
    requires
        0 <= i < draw_list(world, camera_id).len(),
        0 <= j < draw_list(world, camera_id).len(),
    ensures
        ({
            let first = draw_list(world, camera_id)[i];
            let second = draw_list(world, camera_id)[j];
            &&& 0 <= stencil_of(first) <= STENCIL_CAPACITY
            &&& stencil_of(first) == slot_of(first) + 1
            &&& stencil_of(first) == 0 <==> first is ActiveRoom
            &&& stencil_of(first) == stencil_of(second) <==> slot_of(first) == slot_of(second)
            &&& i < j && first is PortalMask && second is PortalMask ==> slot_of(first) < slot_of(
                second,
            )
            &&& i < j && first is AdjacentRoom && second is AdjacentRoom ==> slot_of(first)
                < slot_of(second)
        }),
{
    match active_room_of(world, camera_id) {
        None => {},
        Some(active) => {
            let n = stencil_slots(active);
            lemma_masks(world, active, n);
            lemma_adjacents(world, active, n);
            lemma_frame_passes_in_order(world, camera_id);
            let first = masks(world, active, n);
            let last = adjacents(world, active, n);
            let list = draw_list(world, camera_id);
            assert(list == first.push(active_command(active)) + last);
            if i < first.len() {
                assert(list[i] == first[i]);
            } else if i > first.len() {
                assert(list[i] == last[i - first.len() - 1]);
            }
            if j < first.len() {
                assert(list[j] == first[j]);
            } else if j > first.len() {
                assert(list[j] == last[j - first.len() - 1]);
            }
        },
    }
}

/// A room is shown through a portal only where that portal was marked: every
/// draw of a room behind a portal comes after the mask of the same portal,
/// which wrote the stencil value that the draw is held to.
pub proof fn lemma_every_window_is_marked(world: &World, camera_id: CameraID, j: int)
    requires
        0 <= j < draw_list(world, camera_id).len(),
        draw_list(world, camera_id)[j] is AdjacentRoom,
    ensures
        exists|i: int|
            0 <= i < j && (#[trigger] draw_list(world, camera_id)[i]) is PortalMask && slot_of(
                draw_list(world, camera_id)[i],
            ) == slot_of(draw_list(world, camera_id)[j]) && stencil_of(
                draw_list(world, camera_id)[i],
            ) == stencil_of(draw_list(world, camera_id)[j]),
{
    let active = active_room_of(world, camera_id).unwrap();
    let n = stencil_slots(active);
    lemma_masks(world, active, n);
    lemma_adjacents(world, active, n);
    let first = masks(world, active, n);
    let last = adjacents(world, active, n);
    let list = draw_list(world, camera_id);
    assert(list == first.push(active_command(active)) + last);
    assert(j > first.len());
    let window = last[j - first.len() - 1];
    assert(list[j] == window);
    let k = slot_of(window);
    assert(adjacent_at(world, active, k) == Some(window));
    assert(mask_at(world, active, k) is Some);
    let mark = mask_at(world, active, k).unwrap();
    assert(first.contains(mark));
    let i = choose|i: int| 0 <= i < first.len() && first[i] == mark;
    assert(list[i] == mark);
}

/// Drawing rooms only ever adds to the rooms with buffers: the rooms that
/// had buffers keep their places, every room drawn has buffers afterwards,
/// and no room comes to stand twice among them.
pub proof fn lemma_with_rooms_grows(buffers: Seq<RoomID>, rooms: Seq<RoomID>)
    ensures
        buffers.len() <= with_rooms(buffers, rooms).len(),
        with_rooms(buffers, rooms).subrange(0, buffers.len() as int) == buffers,
        forall|i: int| 0 <= i < rooms.len() ==> with_rooms(buffers, rooms).contains(#[trigger] rooms[i]),
        buffers.no_duplicates() ==> with_rooms(buffers, rooms).no_duplicates(),
    decreases rooms.len(),
{
    if rooms.len() > 0 {
        let earlier = with_rooms(buffers, rooms.drop_last());
        let all = with_rooms(buffers, rooms);
        lemma_with_rooms_grows(buffers, rooms.drop_last());
        assert(all == with_room(earlier, rooms.last()));
        assert(all.subrange(0, buffers.len() as int) =~= earlier.subrange(0, buffers.len() as int));
        assert forall|i: int| 0 <= i < rooms.len() implies all.contains(#[trigger] rooms[i]) by {
            if i < rooms.len() - 1 {
                assert(rooms.drop_last()[i] == rooms[i]);
                assert(earlier.contains(rooms[i]));
                let at = choose|at: int| 0 <= at < earlier.len() && earlier[at] == rooms[i];
                assert(all[at] == rooms[i]);
            } else {
                if earlier.contains(rooms[i]) {
                } else {
                    assert(all[earlier.len() as int] == rooms[i]);
                }
            }
        }
    } else {
        assert(with_rooms(buffers, rooms).subrange(0, buffers.len() as int) =~= buffers);
    }
}

/// Drawing rooms that all have buffers changes nothing.
pub proof fn lemma_with_rooms_known(buffers: Seq<RoomID>, rooms: Seq<RoomID>)
    requires
        forall|i: int| 0 <= i < rooms.len() ==> buffers.contains(#[trigger] rooms[i]),
    ensures
        with_rooms(buffers, rooms) == buffers,
    decreases rooms.len(),
{
    if rooms.len() > 0 {
        assert forall|i: int| 0 <= i < rooms.drop_last().len() implies buffers.contains(
            #[trigger] rooms.drop_last()[i],
        ) by {
            assert(rooms.drop_last()[i] == rooms[i]);
        }
        lemma_with_rooms_known(buffers, rooms.drop_last());
        assert(buffers.contains(rooms[rooms.len() - 1]));
    }
}

/// Drawing the same world through the same camera a second time draws the
/// same and makes no buffers: the commands of a frame depend on the world
/// and the camera alone, and the rooms that the first frame drew all have
/// buffers when the second begins.
pub proof fn lemma_redraw_changes_nothing(
    buffers: Seq<RoomID>,
    world: &World,
    camera_id: CameraID,
)
    ensures
        ({
            let drawn = rooms_drawn(draw_list(world, camera_id));
            let after = with_rooms(buffers, drawn);
            &&& with_rooms(after, drawn) == after
            &&& after.subrange(after.len() as int, with_rooms(after, drawn).len() as int)
                == Seq::<RoomID>::empty()
        }),
{
    let drawn = rooms_drawn(draw_list(world, camera_id));
    let after = with_rooms(buffers, drawn);
    lemma_with_rooms_grows(buffers, drawn);
    lemma_with_rooms_known(after, drawn);
    assert(after.subrange(after.len() as int, after.len() as int) =~= Seq::<RoomID>::empty());
}

/// Drawing one more command draws one more room, or none.
pub proof fn lemma_rooms_drawn_push(commands: Seq<DrawCommand>, command: DrawCommand)
    ensures
        rooms_drawn(commands.push(command)) == match room_drawn(command) {
            Some(room) => rooms_drawn(commands).push(room),
            None => rooms_drawn(commands),
        },
{
    assert(commands.push(command).drop_last() =~= commands);
    assert(commands.push(command).last() == command);
}

/// Drawing one more room changes the buffers as `with_room` says.
pub proof fn lemma_with_rooms_push(buffers: Seq<RoomID>, rooms: Seq<RoomID>, room: RoomID)
    ensures
        with_rooms(buffers, rooms.push(room)) == with_room(with_rooms(buffers, rooms), room),
{
    assert(rooms.push(room).drop_last() =~= rooms);
    assert(rooms.push(room).last() == room);
}

impl WorldRender {
    /// The rooms for which buffers exist, in the order in which the buffers
    /// were made.
    pub closed spec fn buffers(&self) -> Seq<RoomID> {
        self.room_geometry@
    }

    /// A renderer that has drawn nothing yet.
    pub fn new() -> (render: WorldRender)
        ensures
            render.buffers() == Seq::<RoomID>::empty(),
    {
        WorldRender { room_geometry: Vec::new() }
    }

    /// Tells whether buffers exist for `room`.
    pub fn has_buffers(&self, room: RoomID) -> (r: bool)
        ensures
            r == self.buffers().contains(room),
    {
        let mut i: usize = 0;
        while i < self.room_geometry.len()
            invariant
                i <= self.room_geometry@.len(),
                forall|j: int| 0 <= j < i ==> self.room_geometry@[j] != room,
            decreases self.room_geometry@.len() - i,
        {
            if self.room_geometry[i] == room {
                return true;
            }
            i += 1;
        }
        false
    }

    /// The number of rooms for which buffers exist.
    pub fn buffer_count(&self) -> (n: usize)
        ensures
            n == self.buffers().len(),
    {
        self.room_geometry.len()
    }

    /// Records that `room` is drawn, and that buffers are to be made for it
    /// if it has none.
    fn note_room(&mut self, room: RoomID, allocations: &mut Vec<RoomID>)
        ensures
            final(self).buffers() == with_room(old(self).buffers(), room),
            final(allocations)@ == if old(self).buffers().contains(room) {
                old(allocations)@
            } else {
                old(allocations)@.push(room)
            },
            old(self).buffers().no_duplicates() ==> final(self).buffers().no_duplicates(),
    {
        if !self.has_buffers(room) {
            self.room_geometry.push(room);
            allocations.push(room);
        }
    }

    /// Decides what one frame through camera `camera_id` draws into
    /// `fb_rect`, and remembers for which rooms buffers now exist.
    ///
    /// The frame is empty where the world does not know the camera, where
    /// the camera's room is not a room of the world, and where the camera
    /// stands in no room and the world has none. Otherwise it marks each
    /// portal of the active room that the world knows, draws the active room,
    /// and draws behind each portal the room on its other side, as far as the
    /// world knows that room. Portals beyond the first `STENCIL_CAPACITY` of
    /// the active room are left closed and counted.
    pub fn draw_world(&mut self, world: &World, camera_id: CameraID, fb_rect: Viewport) -> (frame:
        Frame)
        requires
            world.is_renderable(),
            fb_rect.is_valid(),
        ensures
            frame.camera == world.find_camera(camera_id),
            frame.viewport == fb_rect,
            frame.commands@ == draw_list(world, camera_id),
            world.find_camera(camera_id) is None ==> frame.commands@.len() == 0,
            world.rooms@.len() == 0 ==> frame.commands@.len() == 0,
            frame.portals_skipped == skipped_portals(world, camera_id),
            final(self).buffers() == with_rooms(
                old(self).buffers(),
                rooms_drawn(frame.commands@),
            ),
            old(self).buffers().len() <= final(self).buffers().len(),
            frame.allocations@ == final(self).buffers().subrange(
                old(self).buffers().len() as int,
                final(self).buffers().len() as int,
            ),
            old(self).buffers().no_duplicates() ==> final(self).buffers().no_duplicates(),
    {
        let ghost before = self.room_geometry@;
        let mut allocations: Vec<RoomID> = Vec::new();
        let mut commands: Vec<DrawCommand> = Vec::new();
        assert(allocations@ =~= before.subrange(before.len() as int, before.len() as int));

        let camera: Camera = match world.get_camera(camera_id) {
            Some(camera) => *camera,
            None => {
                return Frame {
                    camera: None,
                    viewport: fb_rect,
                    allocations,
                    commands,
                    portals_skipped: 0,
                };
            },
        };
        let active_id = match camera.in_room {
            Some(room) => Some(room),
            None => world.first_room(),
        };
        let active_id: RoomID = match active_id {
            Some(id) => id,
            None => {
                return Frame {
                    camera: Some(camera),
                    viewport: fb_rect,
                    allocations,
                    commands,
                    portals_skipped: 0,
                };
            },
        };
        let active: &Room = match world.get_room(active_id) {
            Some(room) => room,
            None => {
                return Frame {
                    camera: Some(camera),
                    viewport: fb_rect,
                    allocations,
                    commands,
                    portals_skipped: 0,
                };
            },
        };
        proof {
            world.lemma_find_room(active_id);
        }
        assert(active_room_of(world, camera_id) == Some(*active));

        let count = active.portals.len();
        let slots: usize = if count < STENCIL_CAPACITY {
            count
        } else {
            STENCIL_CAPACITY
        };

        let mut k: usize = 0;
        while k < slots
            invariant
                k <= slots,
                slots == stencil_slots(*active),
                slots <= active.portals@.len(),
                world.is_renderable(),
                commands@ == masks(world, *active, k as int),
                rooms_drawn(commands@) == Seq::<RoomID>::empty(),
            decreases slots - k,
        {
            let placement = active.portals[k];
            match world.get_portal(placement.id) {
                Some(portal) => {
                    proof {
                        world.lemma_find_portal(placement.id);
                        lemma_rooms_drawn_push(
                            commands@,
                            mask_at(world, *active, k as int).unwrap(),
                        );
                    }
                    let quad = portal_quad(placement.pos, portal.dims, placement.rot);
                    commands.push(
                        DrawCommand::PortalMask { slot: k, stencil: (k + 1) as u8, quad },
                    );
                },
                None => {},
            }
            k += 1;
        }

        let (vertices, indices) = room_to_triangles(active);
        proof {
            lemma_rooms_drawn_push(commands@, active_command(*active));
            lemma_with_rooms_push(before, Seq::<RoomID>::empty(), active.id);
        }
        commands.push(DrawCommand::ActiveRoom { room: active.id, vertices, indices });
        self.note_room(active.id, &mut allocations);

        let ghost first = masks(world, *active, slots as int).push(active_command(*active));
        assert(commands@ =~= first + adjacents(world, *active, 0));

        let mut k: usize = 0;
        while k < slots
            invariant
                k <= slots,
                slots == stencil_slots(*active),
                slots <= active.portals@.len(),
                world.is_renderable(),
                commands@ == first + adjacents(world, *active, k as int),
                self.room_geometry@ == with_rooms(before, rooms_drawn(commands@)),
                before.no_duplicates() ==> self.room_geometry@.no_duplicates(),
                before.len() <= self.room_geometry@.len(),
                allocations@ == self.room_geometry@.subrange(
                    before.len() as int,
                    self.room_geometry@.len() as int,
                ),
            decreases slots - k,
        {
            let placement = active.portals[k];
            match world.get_portal(placement.id) {
                Some(portal) => match portal.other_room(active.id) {
                    Some(other) => match world.get_room(other) {
                        Some(room) => {
                            proof {
                                world.lemma_find_room(other);
                                let command = adjacent_at(world, *active, k as int).unwrap();
                                lemma_rooms_drawn_push(commands@, command);
                                lemma_with_rooms_push(before, rooms_drawn(commands@), other);
                                assert((first + adjacents(world, *active, k as int)).push(command)
                                    =~= first + adjacents(world, *active, k as int).push(command));
                            }
                            let (vertices, indices) = room_to_triangles(room);
                            commands.push(
                                DrawCommand::AdjacentRoom {
                                    slot: k,
                                    stencil: (k + 1) as u8,
                                    placement,
                                    room: other,
                                    vertices,
                                    indices,
                                },
                            );
                            self.note_room(other, &mut allocations);
                            proof {
                                assert(allocations@ =~= self.room_geometry@.subrange(
                                    before.len() as int,
                                    self.room_geometry@.len() as int,
                                ));
                            }
                        },
                        None => {},
                    },
                    None => {},
                },
                None => {},
            }
            k += 1;
        }

        Frame {
            camera: Some(camera),
            viewport: fb_rect,
            allocations,
            commands,
            portals_skipped: count - slots,
        }
    }
}

impl DrawCommand {
    /// The render state under which the command is drawn into `viewport`.
    pub fn render_state(&self, viewport: Viewport) -> (state: RenderState)
        ensures
            state == render_state_of(*self, viewport),
    {
        let (func, frag_value, writes): (CompareFunc, u8, bool) = match self {
            DrawCommand::PortalMask { stencil, .. } => (CompareFunc::Always, *stencil, false),
            DrawCommand::ActiveRoom { .. } => (CompareFunc::Equal, 0, true),
            DrawCommand::AdjacentRoom { stencil, .. } => (CompareFunc::Equal, *stencil, true),
        };
        RenderState {
            cull_back_faces: true,
            front_face_clockwise: true,
            srgb: true,
            viewport,
            depth_test: if writes {
                CompareFunc::LEqual
            } else {
                CompareFunc::Always
            },
            stencil_test: StencilTest {
                func,
                frag_value,
                mask: 0xffff_ffff,
                stencil_fail: if writes {
                    StencilOp::Keep
                } else {
                    StencilOp::Zero
                },
                depth_fail: if writes {
                    StencilOp::Keep
                } else {
                    StencilOp::Zero
                },
                depth_pass: if writes {
                    StencilOp::Keep
                } else {
                    StencilOp::Replace
                },
            },
            color_mask: writes,
            depth_mask: writes,
        }
    }
}

} // verus!
