//! What a device is used for, by kind of device.

use vstd::prelude::*;

verus! {

/// How the keyboard should be used if connected
#[derive(Copy, Clone, Debug, PartialEq, Eq, Structural)]
pub enum KeyboardMode {
    /// Keyboard controls focus
    Focus,
    /// Keyboard controls user actions
    Action,
    /// Keyboard controls typing
    Typing,
}

/// How the gamepad should be used if connected
#[derive(Copy, Clone, Debug, PartialEq, Eq, Structural)]
pub enum GamepadMode {
    /// Gamepad controls the GUI
    Focus,
    /// Gamepad controls user actions
    Action,
    /// Gamepad controls typing via on-screen keyboard
    Typing,
}

/// How the pointer should be used if connected
#[derive(Copy, Clone, Debug, PartialEq, Eq, Structural)]
pub enum PointerMode {
    /// Get where on the screen the pointer is
    Position,
    /// Get movement of the pointer
    Delta,
    /// Pointer controls typing via on-screen keyboard
    Typing,
}

} // verus!
