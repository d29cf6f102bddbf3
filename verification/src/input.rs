//! The events that the library delivers.

use vstd::prelude::*;
use crate::btn::Btn;
use crate::gamepad::GameInput;
use crate::key::{Key, Mod};

verus! {

/// Input event from any human interface device. `F` is the type in which
/// positions and distances are measured; the library hands such a measure on
/// and never looks into it.
#[derive(Debug, PartialEq)]
#[non_exhaustive]
pub enum Input<F> {
    /// User inputted text.
    Text(char),
    /// A key on the keyboard was pressed or released.
    Key(Mod, Key, bool),
    /// Pointer button was pressed or released (Left click, Tap).
    Click(Mod, Btn, bool),
    /// The pointer has left the window.
    PointerLeave,
    /// Request to shift the viewport in the X dimension (relative coordinates).
    ScrollX(Mod, F),
    /// Request to shift the viewport in the Y dimension (relative coordinates).
    ScrollY(Mod, F),
    /// The pointer was moved in the X dimension (absolute coordinates).
    PointerX(F),
    /// The pointer was moved in the Y dimension (absolute coordinates).
    PointerY(F),
    /// Touchscreen was touched with one finger.
    Touch(bool),
    /// Touchscreen was touched with two fingers.
    Pinch(bool),
    /// Pinch width has changed.
    PinchW(F),
    /// Pinch height has changed.
    PinchH(F),
    /// Rotation Amount
    PinchZ(F),
    /// A controller was plugged into the slot (true) or unplugged from it
    /// (false).
    Controller(usize, bool),
    /// The controller in the slot had a button pressed or released, or a
    /// stick or trigger moved.
    Game(usize, GameInput<F>),
    /// The home button of the first player's controller was pressed during
    /// gameplay: the request to leave.
    Exit,
}

} // verus!
