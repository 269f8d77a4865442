//! The editor's view of the world as a plain interface: a call that renders
//! and a call that turns an input event into an action on a camera.

use vstd::prelude::*;
use crate::angle::{saturate, Angle, Rotation};
use crate::config::{binds, check_binds, Config, Key, Keybindings, MouseButton};
use crate::ids::{CameraID, RoomID};
use crate::render::{draw_list, rooms_drawn, skipped_portals, with_rooms, Frame, WorldRender};
use crate::server::world::World;
use crate::space::Viewport;

verus! {

/// A direction to move in, in the camera's own frame: right or left along
/// `x`, up or down along `y`, forward or backward along `z`. Each is 1, -1 or
/// 0.
#[derive(Clone, Copy, Debug, PartialEq, Eq, Hash, Structural)]
pub struct MoveDirection {
    pub x: i8,
    pub y: i8,
    pub z: i8,
}

/// What an input event asks of a camera.
#[derive(Clone, Copy, Debug, PartialEq, Eq, Hash, Structural)]
pub enum EmceeAction {
    CameraMove(CameraID, MoveDirection),
    CameraRotate(CameraID, Rotation),
}

/// What becomes of the keyboard focus.
#[derive(Clone, Copy, Debug, PartialEq, Eq, Hash, Structural)]
pub enum FocusChange {
    Take,
    Remove,
}

/// A pixel of the widget.
#[derive(Clone, Copy, Debug, PartialEq, Eq, Hash, Structural)]
pub struct PixelPoint {
    pub x: i32,
    pub y: i32,
}

/// An input event, as far as the view of the world reads it.
#[derive(Clone, Copy, Debug, PartialEq, Eq, Hash, Structural)]
pub enum WidgetEvent {
    MouseDown { button: MouseButton, in_widget: bool },
    MouseUp { button: MouseButton, in_widget: bool },
    MouseMove { in_widget: bool, old_pos: PixelPoint, new_pos: PixelPoint },
    Timer,
    Other,
}

/// The state of mouse and keyboard at the time of an event.
#[derive(Clone, Debug)]
pub struct InputState {
    pub mouse_buttons_down_in_widget: Vec<MouseButton>,
    pub keys_down: Vec<Key>,
}

/// What the view of the world answers to an event.
#[derive(Clone, Copy, Debug, PartialEq, Eq)]
pub struct EventOps {
    pub action: Option<EmceeAction>,
    pub focus: Option<FocusChange>,
}

/// The view of the world through one camera.
pub struct WorldDirectRender {
    pub config: Config,
    pub camera_id: CameraID,
    pub world_render: Option<WorldRender>,
}

/// The root of the editor's interface.
pub struct RootGUI {
    pub world_render: WorldDirectRender,
}

/// Whether `chosen` is the button `button`.
pub open spec fn is_button(chosen: Option<MouseButton>, button: MouseButton) -> bool {
    chosen == Some(button)
}

/// Whether one of the buttons that are held down in the widget is the
/// button that holds the camera.
pub open spec fn holds_camera(config: Config, buttons: Seq<MouseButton>) -> bool {
    exists|i: int| 0 <= i < buttons.len() && is_button(config.camera_move_button, #[trigger] buttons[i])
}

/// The direction after the key `key` was taken into account: the first
/// binding that binds the key sets its axis, and a key that is not bound
/// leaves the direction as it is.
pub open spec fn steered(bindings: Keybindings, dir: MoveDirection, key: Key) -> MoveDirection {
    if binds(bindings.move_forward, key) {
        MoveDirection { z: 1, ..dir }
    } else if binds(bindings.move_backward, key) {
        MoveDirection { z: -1i8, ..dir }
    } else if binds(bindings.move_left, key) {
        MoveDirection { x: -1i8, ..dir }
    } else if binds(bindings.move_right, key) {
        MoveDirection { x: 1, ..dir }
    } else if binds(bindings.move_up, key) {
        MoveDirection { y: 1, ..dir }
    } else if binds(bindings.move_down, key) {
        MoveDirection { y: -1i8, ..dir }
    } else {
        dir
    }
}

/// The direction that the keys `keys` ask for, taken in their order, so that
/// of two keys for one axis the later one decides.
pub open spec fn move_direction(bindings: Keybindings, keys: Seq<Key>) -> MoveDirection
    decreases keys.len(),
{
    if keys.len() == 0 {
        MoveDirection { x: 0, y: 0, z: 0 }
    } else {
        steered(bindings, move_direction(bindings, keys.drop_last()), keys.last())
    }
}

/// The turn that a move of the mouse from `old_pos` to `new_pos` asks for:
/// the sensitivity for each pixel, sideways travel turning the yaw and
/// travel up or down the pitch.
pub open spec fn mouse_turn(config: Config, old_pos: PixelPoint, new_pos: PixelPoint) -> Rotation {
    Rotation {
        pitch: Angle {
            microdegrees: saturate(
                config.mouse_sensitivity.microdegrees * (new_pos.y - old_pos.y),
            ) as i64,
        },
        yaw: Angle {
            microdegrees: saturate(
                config.mouse_sensitivity.microdegrees * (new_pos.x - old_pos.x),
            ) as i64,
        },
        roll: Angle { microdegrees: 0 },
    }
}

/// What becomes of the keyboard focus on `event`: the view takes it when the
/// button that holds the camera goes down in the widget and gives it back
/// when that button comes up in the widget.
pub open spec fn focus_for(config: Config, event: WidgetEvent) -> Option<FocusChange> {
    match event {
        WidgetEvent::MouseDown { button, in_widget } => if in_widget && is_button(
            config.camera_move_button,
            button,
        ) {
            Some(FocusChange::Take)
        } else {
            None
        },
        WidgetEvent::MouseUp { button, in_widget } => if in_widget && is_button(
            config.camera_move_button,
            button,
        ) {
            Some(FocusChange::Remove)
        } else {
            None
        },
        _ => None,
    }
}

/// The action that `event` asks of camera `camera_id`. Only while the button
/// that holds the camera is down in the widget: a move of the mouse inside
/// the widget turns the camera, and a tick of the timer moves it in the
/// direction of the keys that are down, if they ask for any.
pub open spec fn action_for(
    config: Config,
    camera_id: CameraID,
    event: WidgetEvent,
    buttons: Seq<MouseButton>,
    keys: Seq<Key>,
) -> Option<EmceeAction> {
    if !holds_camera(config, buttons) {
        None
    } else {
        match event {
            WidgetEvent::MouseMove { in_widget, old_pos, new_pos } => if in_widget {
                Some(EmceeAction::CameraRotate(camera_id, mouse_turn(config, old_pos, new_pos)))
            } else {
                None
            },
            WidgetEvent::Timer => {
                let dir = move_direction(config.keybindings, keys);
                if dir != (MoveDirection { x: 0, y: 0, z: 0 }) {
                    Some(EmceeAction::CameraMove(camera_id, dir))
                } else {
                    None
                }
            },
            _ => None,
        }
    }
}

impl MoveDirection {
    /// How far a step in this direction rises: forward and up both lift the
    /// camera, backward and down both lower it, whichever way it looks.
    pub fn rise(self) -> (r: i16)
        ensures
            r == self.z + self.y,
    {
        self.z as i16 + self.y as i16
    }

    /// How far a step in this direction goes sideways, to the right where
    /// positive. This is the part of the step that the camera's yaw turns.
    pub fn strafe(self) -> (r: i16)
        ensures
            r == self.x,
    {
        self.x as i16
    }
}

/// Tells whether `chosen` is the button `button`.
pub fn check_button(chosen: Option<MouseButton>, button: MouseButton) -> (r: bool)
    ensures
        r == is_button(chosen, button),
{
    match chosen {
        Some(b) => b == button,
        None => false,
    }
}

/// The direction that the keys `keys` ask for under the bindings `bindings`.
pub fn direction_of_keys(bindings: &Keybindings, keys: &Vec<Key>) -> (dir: MoveDirection)
    ensures
        dir == move_direction(*bindings, keys@),
        -1 <= dir.x <= 1 && -1 <= dir.y <= 1 && -1 <= dir.z <= 1,
{
    let mut dir = MoveDirection { x: 0, y: 0, z: 0 };
    let mut i: usize = 0;
    while i < keys.len()
        invariant
            i <= keys@.len(),
            dir == move_direction(*bindings, keys@.subrange(0, i as int)),
            -1 <= dir.x <= 1 && -1 <= dir.y <= 1 && -1 <= dir.z <= 1,
        decreases keys@.len() - i,
    {
        let key = keys[i];
        proof {
            let next = keys@.subrange(0, i + 1);
            assert(next.drop_last() =~= keys@.subrange(0, i as int));
            assert(next.last() == key);
        }
        if check_binds(bindings.move_forward, key) {
            dir.z = 1;
        } else if check_binds(bindings.move_backward, key) {
            dir.z = -1;
        } else if check_binds(bindings.move_left, key) {
            dir.x = -1;
        } else if check_binds(bindings.move_right, key) {
            dir.x = 1;
        } else if check_binds(bindings.move_up, key) {
            dir.y = 1;
        } else if check_binds(bindings.move_down, key) {
            dir.y = -1;
        }
        i += 1;
    }
    assert(keys@.subrange(0, keys@.len() as int) =~= keys@);
    dir
}

impl WorldDirectRender {
    /// A view through camera `camera_id` that has rendered nothing yet.
    pub fn new(config: Config, camera_id: CameraID) -> (view: WorldDirectRender)
        ensures
            view.config == config,
            view.camera_id == camera_id,
            view.world_render is None,
    {
        WorldDirectRender { config, camera_id, world_render: None }
    }

    /// The rooms for which the view's renderer holds buffers; none before
    /// the first frame.
    pub open spec fn buffers(&self) -> Seq<RoomID> {
        match self.world_render {
            Some(render) => render.buffers(),
            None => Seq::empty(),
        }
    }

    /// Decides what one frame of the view draws into `viewport_rect`. The
    /// renderer is made on the first call and kept for the following ones.
    pub fn render(&mut self, world: &World, viewport_rect: Viewport) -> (frame: Frame)
        requires
            world.is_renderable(),
            viewport_rect.is_valid(),
        ensures
            final(self).config == old(self).config,
            final(self).camera_id == old(self).camera_id,
            final(self).world_render is Some,
            frame.camera == world.find_camera(old(self).camera_id),
            frame.viewport == viewport_rect,
            frame.commands@ == draw_list(world, old(self).camera_id),
            frame.portals_skipped == skipped_portals(world, old(self).camera_id),
            final(self).buffers() == with_rooms(old(self).buffers(), rooms_drawn(frame.commands@)),
            old(self).buffers().len() <= final(self).buffers().len(),
            frame.allocations@ == final(self).buffers().subrange(
                old(self).buffers().len() as int,
                final(self).buffers().len() as int,
            ),
    {
        let mut render = match self.world_render.take() {
            Some(render) => render,
            None => WorldRender::new(),
        };
        let frame = render.draw_world(world, self.camera_id, viewport_rect);
        self.world_render = Some(render);
        frame
    }

    /// Answers an input event: what becomes of the keyboard focus, and what
    /// the event asks of the view's camera.
    pub fn on_widget_event(&self, event: WidgetEvent, input_state: &InputState) -> (ops: EventOps)
        ensures
            ops.focus == focus_for(self.config, event),
            ops.action == action_for(
                self.config,
                self.camera_id,
                event,
                input_state.mouse_buttons_down_in_widget@,
                input_state.keys_down@,
            ),
    {
        let focus = match event {
            WidgetEvent::MouseDown { button, in_widget } => if in_widget && check_button(
                self.config.camera_move_button,
                button,
            ) {
                Some(FocusChange::Take)
            } else {
                None
            },
            WidgetEvent::MouseUp { button, in_widget } => if in_widget && check_button(
                self.config.camera_move_button,
                button,
            ) {
                Some(FocusChange::Remove)
            } else {
                None
            },
            _ => None,
        };

        let buttons = &input_state.mouse_buttons_down_in_widget;
        let mut held = false;
        let mut i: usize = 0;
        while i < buttons.len() && !held
            invariant
                i <= buttons@.len(),
                held ==> holds_camera(self.config, buttons@),
                !held ==> forall|j: int|
                    0 <= j < i ==> !is_button(self.config.camera_move_button, #[trigger] buttons@[j]),
            decreases buttons@.len() - i,
        {
            if check_button(self.config.camera_move_button, buttons[i]) {
                held = true;
            }
            i += 1;
        }

        let mut action: Option<EmceeAction> = None;
        if held {
            match event {
                WidgetEvent::MouseMove { in_widget, old_pos, new_pos } => {
                    if in_widget {
                        let across: i64 = new_pos.x as i64 - old_pos.x as i64;
                        let along: i64 = new_pos.y as i64 - old_pos.y as i64;
                        let turn = Rotation {
                            pitch: self.config.mouse_sensitivity.times(along),
                            yaw: self.config.mouse_sensitivity.times(across),
                            roll: Angle { microdegrees: 0 },
                        };
                        action = Some(EmceeAction::CameraRotate(self.camera_id, turn));
                    }
                },
                WidgetEvent::Timer => {
                    let dir = direction_of_keys(&self.config.keybindings, &input_state.keys_down);
                    if dir.x != 0 || dir.y != 0 || dir.z != 0 {
                        action = Some(EmceeAction::CameraMove(self.camera_id, dir));
                    }
                },
                _ => {},
            }
        }
        EventOps { action, focus }
    }
}

impl RootGUI {
    /// The interface of an editor that looks through camera
    /// `default_camera`.
    pub fn new(config: Config, default_camera: CameraID) -> (root: RootGUI)
        ensures
            root.world_render.config == config,
            root.world_render.camera_id == default_camera,
            root.world_render.world_render is None,
    {
        RootGUI { world_render: WorldDirectRender::new(config, default_camera) }
    }
}

} // verus!
