//! The settings of the editor: how fast the mouse turns the camera, which
//! button holds the camera, and which keys move it.

use vstd::prelude::*;
use crate::angle::Angle;

verus! {

/// A key of the keyboard: one of the keys that are bound by default, or
/// another key by its code.
#[derive(Clone, Copy, Debug, PartialEq, Eq, Hash, Structural)]
pub enum Key {
    W,
    A,
    S,
    D,
    LShift,
    LCtrl,
    Other(u32),
}

/// A button of the mouse.
#[derive(Clone, Copy, Debug, PartialEq, Eq, Hash, Structural)]
pub enum MouseButton {
    Left,
    Right,
    Middle,
    Other(u8),
}

/// The key that an action is bound to, if it is bound.
pub type Keybind = Option<Key>;

/// The default turn of the camera per pixel of mouse travel: half a degree,
/// in millionths of a degree.
pub const DEFAULT_MOUSE_SENSITIVITY: i64 = 500_000;

/// The default time between two frames: a sixtieth of a second, in whole
/// nanoseconds.
pub const DEFAULT_REFRESH_RATE: u64 = 16_666_666;

/// The settings of the editor.
#[derive(Debug, Clone, Copy, PartialEq, Eq)]
pub struct Config {
    /// The turn of the camera per pixel of mouse travel.
    pub mouse_sensitivity: Angle,
    /// The button that must be held down for the mouse and the keys to move
    /// the camera.
    pub camera_move_button: Option<MouseButton>,
    /// The time between two frames, in nanoseconds.
    pub refresh_rate: u64,
    pub keybindings: Keybindings,
}

/// The keys that move the camera.
#[derive(Debug, Clone, Copy, PartialEq, Eq)]
pub struct Keybindings {
    pub move_forward: Keybind,
    pub move_backward: Keybind,
    pub move_left: Keybind,
    pub move_right: Keybind,
    pub move_up: Keybind,
    pub move_down: Keybind,
}

/// Whether `binding` binds `key`.
pub open spec fn binds(binding: Keybind, key: Key) -> bool {
    binding == Some(key)
}

/// Tells whether `binding` binds `key`.
pub fn check_binds(binding: Keybind, key: Key) -> (r: bool)
    ensures
        r == binds(binding, key),
{
    match binding {
        Some(bound) => bound == key,
        None => false,
    }
}

impl Default for Config {
    /// Half a degree per pixel, the right button, sixty frames a second and
    /// the default keys.
    fn default() -> (config: Config)
        ensures
            config.mouse_sensitivity.microdegrees == DEFAULT_MOUSE_SENSITIVITY,
            config.camera_move_button == Some(MouseButton::Right),
            config.refresh_rate == DEFAULT_REFRESH_RATE,
            config.keybindings.move_forward == Some(Key::W),
            config.keybindings.move_backward == Some(Key::S),
            config.keybindings.move_left == Some(Key::A),
            config.keybindings.move_right == Some(Key::D),
            config.keybindings.move_up == Some(Key::LShift),
            config.keybindings.move_down == Some(Key::LCtrl),
    {
        Config {
            mouse_sensitivity: Angle { microdegrees: DEFAULT_MOUSE_SENSITIVITY },
            camera_move_button: Some(MouseButton::Right),
            refresh_rate: DEFAULT_REFRESH_RATE,
            keybindings: Keybindings::default(),
        }
    }
}

impl Default for Keybindings {
    /// W and S for forward and backward, A and D for left and right, the
    /// left shift and control keys for up and down.
    fn default() -> (keys: Keybindings)
        ensures
            keys.move_forward == Some(Key::W),
            keys.move_backward == Some(Key::S),
            keys.move_left == Some(Key::A),
            keys.move_right == Some(Key::D),
            keys.move_up == Some(Key::LShift),
            keys.move_down == Some(Key::LCtrl),
    {
        Keybindings {
            move_forward: Some(Key::W),
            move_backward: Some(Key::S),
            move_left: Some(Key::A),
            move_right: Some(Key::D),
            move_up: Some(Key::LShift),
            move_down: Some(Key::LCtrl),
        }
    }
}

} // verus!
