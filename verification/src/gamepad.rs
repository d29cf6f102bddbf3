//! Events of a game controller.

use vstd::prelude::*;

verus! {

/// W3 Standard gamepad events for PC-style games. `F` is the type in which
/// the position of a trigger or of a stick is measured.
#[derive(Copy, Clone, Debug, PartialEq)]
pub enum GameInput<F> {
    /// G Key or Forward Button/Press Start Button
    Menu,
    /// Escape Key or Back Button/Hold Start Button
    Pause,
    /// Left Click/Enter Key or A/Circle Button
    A(bool),
    /// Shift Key or B Button
    B(bool),
    /// Right Click or X/Y/Square Button
    H(bool),
    /// Space Key or X/Y/Triangle Button
    V(bool),
    /// D-Pad or Arrow Key Up or R Key
    Up(bool),
    /// D-Pad or Arrow Key Down or F Key
    Down(bool),
    /// D-Pad or Arrow Key Left or Scroll Down
    Left(bool),
    /// D-Pad or Arrow Key Right or Scroll Up
    Right(bool),
    /// Ctrl Key or Left Bumper Trigger
    TriggerL(F),
    /// Alt Key or Right Bumper Trigger
    TriggerR(F),
    /// U Key or Left Bumper Button
    BumperL(bool),
    /// E Key or Right Bumper Button
    BumperR(bool),
    /// Tab Key or Left Joystick Push
    JoyPush(bool),
    /// Middle Click or Right Joystick Push
    CamPush(bool),
    /// A/D Keys Axis or Left Joystick X
    JoyX(F),
    /// W/S Keys Axis or Left Joystick Y
    JoyY(F),
    /// Mouse X delta or Right Joystick X
    CamX(F),
    /// Mouse Y delta or Right Joystick Y
    CamY(F),
    /// Inventory slot jumping (only available via number keys 1-10(11-,12=))
    Slot(u8),
}

} // verus!
