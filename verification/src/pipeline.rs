//! The camera and projection pipeline: of which matrices the transform of a
//! draw is the product, and in which order.
//!
//! The library names the factors; multiplying them out is arithmetic on
//! rounded numbers and is left to the caller. The transform of a draw is
//!
//! `projection * view * offset * axis inversion`
//!
//! where the view is itself the product of the camera's turn and of a shift
//! against the camera's position, and the offset is the product of the shift
//! and the spin that place the portal through which the draw is seen, or the
//! identity for the active room.

use vstd::prelude::*;
use crate::angle::{Angle, Rotation};
use crate::ids::CameraID;
use crate::render::{
    active_command, active_room_of, adjacents, draw_list, lemma_adjacents,
    lemma_frame_passes_in_order, lemma_masks, masks, slot_of, stencil_slots, DrawCommand,
};
use crate::scalar::Scalar;
use crate::server::world::{Camera, World};
use crate::space::{Point3, Quaternion, Viewport};

verus! {

/// One factor of a transform.
#[derive(Clone, Copy, Debug, PartialEq, Eq, Hash, Structural)]
pub enum Factor {
    /// The perspective projection with the vertical field of view `fovy`,
    /// the aspect ratio `width / height` and the planes `near` and `far`.
    Perspective { fovy: Angle, width: u32, height: u32, near: Scalar, far: Scalar },
    /// The rotation by three angles.
    Turn(Rotation),
    /// The translation by a displacement.
    Shift(Point3),
    /// The rotation by a quaternion.
    Spin(Quaternion),
    /// The axis inversion (see `axis_inversion`).
    AxisInversion,
}

/// The transform of a draw, as the factors of the product
/// `projection * (view.0 * view.1) * (offset.0 * offset.1) * inversion`,
/// in which an offset of `None` stands for the identity.
#[derive(Clone, Copy, Debug, PartialEq, Eq, Hash)]
pub struct Transform {
    pub projection: Factor,
    pub view: (Factor, Factor),
    pub offset: Option<(Factor, Factor)>,
    pub inversion: Factor,
}

/// The displacement of the view: against the camera's position, in the
/// coordinates of the view.
pub open spec fn view_shift(camera: Camera) -> Point3 {
    camera.pos.mirrored().axes_inverted()
}

/// The projection of `camera` into `viewport`.
pub open spec fn projection_of(camera: Camera, viewport: Viewport) -> Factor {
    Factor::Perspective {
        fovy: camera.fov,
        width: viewport.width,
        height: viewport.height,
        near: camera.near,
        far: camera.far,
    }
}

/// The view of `camera`: its turn, applied to what its shift has moved.
pub open spec fn view_of(camera: Camera) -> (Factor, Factor) {
    (Factor::Turn(camera.rot), Factor::Shift(view_shift(camera)))
}

/// The offset of `command`: the shift to the place of the portal that the
/// command marks or looks through, applied to what the portal's spin has
/// turned; none for the active room.
pub open spec fn offset_of(command: DrawCommand) -> Option<(Factor, Factor)> {
    match command {
        DrawCommand::PortalMask { quad, .. } => Some(
            (Factor::Shift(quad.pos), Factor::Spin(quad.rot)),
        ),
        DrawCommand::ActiveRoom { .. } => None,
        DrawCommand::AdjacentRoom { placement, .. } => Some(
            (Factor::Shift(placement.pos), Factor::Spin(placement.rot)),
        ),
    }
}

/// The transform under which `command` is drawn through `camera` into
/// `viewport`.
pub open spec fn transform_of(camera: Camera, viewport: Viewport, command: DrawCommand) -> Transform {
    Transform {
        projection: projection_of(camera, viewport),
        view: view_of(camera),
        offset: offset_of(command),
        inversion: Factor::AxisInversion,
    }
}

impl Camera {
    /// The displacement of the view: the camera's position mirrored through
    /// the origin and taken to the coordinates of the view. Exact.
    pub fn view_translation(&self) -> (shift: Point3)
        ensures
            shift == view_shift(*self),
            shift.units() == (-self.pos.x.units(), -self.pos.z.units(), self.pos.y.units()),
    {
        proof {
            self.pos.y.lemma_negated();
            self.pos.y.negated().lemma_negated();
        }
        self.pos.neg().invert_axes()
    }
}

/// The transform under which `command` is drawn through `camera` into
/// `viewport`.
pub fn transform(camera: &Camera, viewport: Viewport, command: &DrawCommand) -> (factors: Transform)
    requires
        camera.frustum_is_valid(),
        viewport.is_valid(),
    ensures
        factors == transform_of(*camera, viewport, *command),
{
    Transform {
        projection: Factor::Perspective {
            fovy: camera.fov,
            width: viewport.width,
            height: viewport.height,
            near: camera.near,
            far: camera.far,
        },
        view: (Factor::Turn(camera.rot), Factor::Shift(camera.view_translation())),
        offset: match command {
            DrawCommand::PortalMask { quad, .. } => Some(
                (Factor::Shift(quad.pos), Factor::Spin(quad.rot)),
            ),
            DrawCommand::ActiveRoom { .. } => None,
            DrawCommand::AdjacentRoom { placement, .. } => Some(
                (Factor::Shift(placement.pos), Factor::Spin(placement.rot)),
            ),
        },
        inversion: Factor::AxisInversion,
    }
}

/// The transforms of the draws of one frame differ in their offsets only.
/// The active room is not offset; a mask is offset by the placement of its
/// portal, and so is the room behind that portal.
pub proof fn lemma_transforms_differ_in_offset_only(
    camera: Camera,
    viewport: Viewport,
    first: DrawCommand,
    second: DrawCommand,
)
    ensures
        transform_of(camera, viewport, first).projection == transform_of(
            camera,
            viewport,
            second,
        ).projection,
        transform_of(camera, viewport, first).view == transform_of(camera, viewport, second).view,
        transform_of(camera, viewport, first).inversion == transform_of(
            camera,
            viewport,
            second,
        ).inversion,
        transform_of(camera, viewport, first).offset is None <==> first is ActiveRoom,
        first matches DrawCommand::PortalMask { quad, .. } ==> second matches DrawCommand::AdjacentRoom {
            placement,
            ..
        } ==> quad.pos == placement.pos ==> quad.rot == placement.rot ==> transform_of(
            camera,
            viewport,
            first,
        ) == transform_of(camera, viewport, second),
{
}

/// Within a frame, the room behind a portal is drawn under the very
/// transform under which the portal was marked: the mask and the room of one
/// place in the active room's portal list have the same offset.
pub proof fn lemma_window_and_mark_share_transform(
    world: &World,
    camera_id: CameraID,
    camera: Camera,
    viewport: Viewport,
    i: int,
    j: int,
)
    requires
        0 <= i < draw_list(world, camera_id).len(),
        0 <= j < draw_list(world, camera_id).len(),
        draw_list(world, camera_id)[i] is PortalMask,
        draw_list(world, camera_id)[j] is AdjacentRoom,
        slot_of(draw_list(world, camera_id)[i]) == slot_of(draw_list(world, camera_id)[j]),
    ensures
        transform_of(camera, viewport, draw_list(world, camera_id)[i]) == transform_of(
            camera,
            viewport,
            draw_list(world, camera_id)[j],
        ),
{
    let active = active_room_of(world, camera_id).unwrap();
    let n = stencil_slots(active);
    lemma_masks(world, active, n);
    lemma_adjacents(world, active, n);
    lemma_frame_passes_in_order(world, camera_id);
    let first = masks(world, active, n);
    let last = adjacents(world, active, n);
    let list = draw_list(world, camera_id);
    assert(list == first.push(active_command(active)) + last);
    assert(i < first.len());
    assert(j > first.len());
    assert(list[i] == first[i]);
    assert(list[j] == last[j - first.len() - 1]);
}

} // verus!
