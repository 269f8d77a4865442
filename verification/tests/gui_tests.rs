use emcee::angle::{Angle, Rotation};
use emcee::config::{check_binds, Config, Key, Keybindings, MouseButton};
use emcee::gui::{
    check_button, direction_of_keys, EmceeAction, EventOps, FocusChange, InputState,
    MoveDirection, PixelPoint, RootGUI, WidgetEvent, WorldDirectRender,
};
use emcee::ids::{CameraID, RoomID};
use emcee::render::DrawCommand;
use emcee::scalar::Scalar;
use emcee::server::world::{Room, World};
use emcee::space::{RoomDims, Viewport};

fn view() -> WorldDirectRender {
    WorldDirectRender::new(Config::default(), CameraID(7))
}

fn state(buttons: Vec<MouseButton>, keys: Vec<Key>) -> InputState {
    InputState { mouse_buttons_down_in_widget: buttons, keys_down: keys }
}

fn held(keys: Vec<Key>) -> InputState {
    state(vec![MouseButton::Right], keys)
}

fn dir(x: i8, y: i8, z: i8) -> MoveDirection {
    MoveDirection { x, y, z }
}

fn mouse_move(in_widget: bool, from: (i32, i32), to: (i32, i32)) -> WidgetEvent {
    WidgetEvent::MouseMove {
        in_widget,
        old_pos: PixelPoint { x: from.0, y: from.1 },
        new_pos: PixelPoint { x: to.0, y: to.1 },
    }
}

#[test]
fn the_default_config() {
    let config = Config::default();
    assert_eq!(config.mouse_sensitivity, Angle { microdegrees: 500_000 });
    assert_eq!(config.camera_move_button, Some(MouseButton::Right));
    assert_eq!(config.refresh_rate, 1_000_000_000 / 60);
    assert_eq!(config.keybindings, Keybindings::default());
}

#[test]
fn the_default_keybindings() {
    let keys = Keybindings::default();
    assert_eq!(keys.move_forward, Some(Key::W));
    assert_eq!(keys.move_backward, Some(Key::S));
    assert_eq!(keys.move_left, Some(Key::A));
    assert_eq!(keys.move_right, Some(Key::D));
    assert_eq!(keys.move_up, Some(Key::LShift));
    assert_eq!(keys.move_down, Some(Key::LCtrl));
}

#[test]
fn a_binding_binds_its_key_only() {
    assert!(check_binds(Some(Key::W), Key::W));
    assert!(!check_binds(Some(Key::W), Key::S));
    assert!(!check_binds(None, Key::W));
    assert!(check_binds(Some(Key::Other(40)), Key::Other(40)));
    assert!(!check_binds(Some(Key::Other(40)), Key::Other(41)));
    assert!(check_button(Some(MouseButton::Right), MouseButton::Right));
    assert!(!check_button(Some(MouseButton::Right), MouseButton::Left));
    assert!(!check_button(None, MouseButton::Left));
    assert!(check_button(Some(MouseButton::Other(4)), MouseButton::Other(4)));
}

#[test]
fn the_camera_button_takes_and_gives_back_the_focus() {
    let down = WidgetEvent::MouseDown { button: MouseButton::Right, in_widget: true };
    let up = WidgetEvent::MouseUp { button: MouseButton::Right, in_widget: true };
    let ops = view().on_widget_event(down, &state(vec![], vec![]));
    assert_eq!(ops, EventOps { action: None, focus: Some(FocusChange::Take) });
    let ops = view().on_widget_event(up, &state(vec![], vec![]));
    assert_eq!(ops, EventOps { action: None, focus: Some(FocusChange::Remove) });
}

#[test]
fn other_buttons_and_clicks_outside_leave_the_focus() {
    let events = [
        WidgetEvent::MouseDown { button: MouseButton::Left, in_widget: true },
        WidgetEvent::MouseUp { button: MouseButton::Middle, in_widget: true },
        WidgetEvent::MouseDown { button: MouseButton::Right, in_widget: false },
        WidgetEvent::MouseUp { button: MouseButton::Right, in_widget: false },
        WidgetEvent::Timer,
        WidgetEvent::Other,
        mouse_move(true, (0, 0), (1, 1)),
    ];
    for event in events {
        assert_eq!(view().on_widget_event(event, &state(vec![], vec![])).focus, None);
    }
    let mut unbound = view();
    unbound.config.camera_move_button = None;
    let down = WidgetEvent::MouseDown { button: MouseButton::Right, in_widget: true };
    assert_eq!(unbound.on_widget_event(down, &held(vec![])).focus, None);
}

#[test]
fn the_mouse_turns_the_camera_while_the_button_is_held() {
    let ops = view().on_widget_event(mouse_move(true, (10, 20), (14, 17)), &held(vec![]));
    assert_eq!(
        ops.action,
        Some(EmceeAction::CameraRotate(
            CameraID(7),
            Rotation {
                pitch: Angle { microdegrees: -1_500_000 },
                yaw: Angle { microdegrees: 2_000_000 },
                roll: Angle { microdegrees: 0 },
            }
        ))
    );
    assert_eq!(ops.focus, None);
}

#[test]
fn the_mouse_does_nothing_without_the_button_or_outside_the_widget() {
    let moved = mouse_move(true, (10, 20), (14, 17));
    assert_eq!(view().on_widget_event(moved, &state(vec![], vec![])).action, None);
    assert_eq!(
        view().on_widget_event(moved, &state(vec![MouseButton::Left], vec![])).action,
        None
    );
    let outside = mouse_move(false, (10, 20), (14, 17));
    assert_eq!(view().on_widget_event(outside, &held(vec![])).action, None);
    let mut unbound = view();
    unbound.config.camera_move_button = None;
    assert_eq!(unbound.on_widget_event(moved, &held(vec![])).action, None);
}

#[test]
fn the_button_may_be_any_of_those_held() {
    let buttons = vec![MouseButton::Left, MouseButton::Other(5), MouseButton::Right];
    let ops = view().on_widget_event(mouse_move(true, (0, 0), (1, 0)), &state(buttons, vec![]));
    assert!(matches!(ops.action, Some(EmceeAction::CameraRotate(..))));
}

#[test]
fn a_mouse_move_across_the_whole_range_saturates() {
    let mut fast = view();
    fast.config.mouse_sensitivity = Angle { microdegrees: i64::MAX };
    let ops = fast.on_widget_event(
        mouse_move(true, (i32::MIN, i32::MAX), (i32::MAX, i32::MIN)),
        &held(vec![]),
    );
    assert_eq!(
        ops.action,
        Some(EmceeAction::CameraRotate(
            CameraID(7),
            Rotation {
                pitch: Angle { microdegrees: i64::MIN },
                yaw: Angle { microdegrees: i64::MAX },
                roll: Angle { microdegrees: 0 },
            }
        ))
    );
}

#[test]
fn the_keys_move_the_camera_on_a_tick() {
    let cases: Vec<(Vec<Key>, MoveDirection)> = vec![
        (vec![Key::W], dir(0, 0, 1)),
        (vec![Key::S], dir(0, 0, -1)),
        (vec![Key::A], dir(-1, 0, 0)),
        (vec![Key::D], dir(1, 0, 0)),
        (vec![Key::LShift], dir(0, 1, 0)),
        (vec![Key::LCtrl], dir(0, -1, 0)),
        (vec![Key::W, Key::D, Key::LShift], dir(1, 1, 1)),
        (vec![Key::W, Key::S], dir(0, 0, -1)),
        (vec![Key::S, Key::W], dir(0, 0, 1)),
        (vec![Key::A, Key::Other(3), Key::LCtrl, Key::D], dir(1, -1, 0)),
    ];
    for (keys, expected) in cases {
        let ops = view().on_widget_event(WidgetEvent::Timer, &held(keys.clone()));
        assert_eq!(ops.action, Some(EmceeAction::CameraMove(CameraID(7), expected)), "{:?}", keys);
        assert_eq!(ops.focus, None);
        assert_eq!(direction_of_keys(&Keybindings::default(), &keys), expected);
    }
}

#[test]
fn a_tick_without_bound_keys_or_without_the_button_does_nothing() {
    assert_eq!(view().on_widget_event(WidgetEvent::Timer, &held(vec![])).action, None);
    assert_eq!(
        view().on_widget_event(WidgetEvent::Timer, &held(vec![Key::Other(1)])).action,
        None
    );
    assert_eq!(
        view().on_widget_event(WidgetEvent::Timer, &state(vec![], vec![Key::W])).action,
        None
    );
    assert_eq!(view().on_widget_event(WidgetEvent::Other, &held(vec![Key::W])).action, None);
}

#[test]
fn of_two_bindings_of_one_key_the_first_decides() {
    let bindings = Keybindings {
        move_forward: Some(Key::W),
        move_backward: Some(Key::W),
        move_left: None,
        move_right: Some(Key::Other(9)),
        move_up: Some(Key::Other(9)),
        move_down: None,
    };
    assert_eq!(direction_of_keys(&bindings, &vec![Key::W]), dir(0, 0, 1));
    assert_eq!(direction_of_keys(&bindings, &vec![Key::Other(9)]), dir(1, 0, 0));
    assert_eq!(direction_of_keys(&bindings, &vec![Key::A]), dir(0, 0, 0));
    assert_eq!(direction_of_keys(&bindings, &vec![]), dir(0, 0, 0));
}

#[test]
fn the_view_makes_its_renderer_on_the_first_frame() {
    let side = Scalar::from_bits(128.0f32.to_bits());
    let mut world = World::new_empty();
    let camera = world.cameras[0].id;
    world.insert_room(Room {
        id: RoomID(1),
        dims: RoomDims { width: side, depth: side, height: side },
        portals: Vec::new(),
    });
    let mut root = RootGUI::new(Config::default(), camera);
    assert!(root.world_render.world_render.is_none());
    assert_eq!(root.world_render.camera_id, camera);
    assert_eq!(root.world_render.config, Config::default());
    let viewport = Viewport { x: 0, y: 0, width: 4, height: 3 };
    let first = root.world_render.render(&world, viewport);
    assert_eq!(first.commands.len(), 1);
    assert!(matches!(first.commands[0], DrawCommand::ActiveRoom { room: RoomID(1), .. }));
    assert_eq!(first.allocations, vec![RoomID(1)]);
    assert!(root.world_render.world_render.is_some());
    let second = root.world_render.render(&world, viewport);
    assert_eq!(second.commands, first.commands);
    assert_eq!(second.allocations, Vec::<RoomID>::new());
    assert_eq!(root.world_render.world_render.as_ref().unwrap().buffer_count(), 1);
}

#[test]
fn viewports_need_a_pixel_each_way() {
    assert!(Viewport { x: 0, y: 0, width: 1, height: 1 }.check_valid());
    assert!(Viewport { x: 5, y: 6, width: 800, height: 600 }.check_valid());
    assert!(!Viewport { x: 0, y: 0, width: 800, height: 0 }.check_valid());
    assert!(!Viewport { x: 0, y: 0, width: 0, height: 600 }.check_valid());
}
