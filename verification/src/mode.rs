//! The input mode of each kind of device.

use vstd::prelude::*;

verus! {

/// How the keyboard/gamepad/pointer should be used if connected
#[derive(Copy, Clone, Debug, PartialEq, Eq, Structural)]
pub enum Mode {
    /// Device controls (usually graphical) user interface
    Ui,
    /// Device controls game actions
    Game,
    /// Device controls text input
    Text,
}

impl Mode {
    /// The number under which a mode is stored.
    pub open spec fn spec_code(self) -> u8 {
        match self {
            Mode::Ui => 0,
            Mode::Game => 1,
            Mode::Text => 2,
        }
    }

    /// The number under which this mode is stored.
    #[verifier::when_used_as_spec(spec_code)]
    pub fn code(self) -> (c: u8)
        ensures
            c == self.spec_code(),
            c <= 2,
    {
        match self {
            Mode::Ui => 0,
            Mode::Game => 1,
            Mode::Text => 2,
        }
    }
}

/// The input modes of the keyboard, the gamepad and the pointer, each stored
/// as its number.
#[derive(Copy, Clone, Debug)]
pub struct Modes {
    keyboard: u8,
    gamepad: u8,
    pointer: u8,
}

impl Modes {
    /// Each stored number is the number of a mode.
    #[verifier::type_invariant]
    pub closed spec fn wf(self) -> bool {
        self.keyboard <= 2 && self.gamepad <= 2 && self.pointer <= 2
    }

    /// The mode of the keyboard.
    pub closed spec fn keyboard(self) -> Mode {
        spec_mode(self.keyboard)
    }

    /// The mode of the gamepad.
    pub closed spec fn gamepad(self) -> Mode {
        spec_mode(self.gamepad)
    }

    /// The mode of the pointer.
    pub closed spec fn pointer(self) -> Mode {
        spec_mode(self.pointer)
    }

    /// The modes that hold until others are set: the keyboard controls text
    /// input, the gamepad game actions and the pointer the user interface.
    pub fn new() -> (modes: Modes)
        ensures
            modes.keyboard() == Mode::Text,
            modes.gamepad() == Mode::Game,
            modes.pointer() == Mode::Ui,
    {
        Modes { keyboard: Mode::Text.code(), gamepad: Mode::Game.code(), pointer: Mode::Ui.code() }
    }
}

impl Default for Modes {
    /// The modes that hold until others are set.
    fn default() -> (modes: Modes)
        ensures
            modes.keyboard() == Mode::Text,
            modes.gamepad() == Mode::Game,
            modes.pointer() == Mode::Ui,
    {
        Modes::new()
    }
}

/// The mode that is stored as `value`.
pub open spec fn spec_mode(value: u8) -> Mode
    recommends
        value <= 2,
{
    if value == 0 {
        Mode::Ui
    } else if value == 1 {
        Mode::Game
    } else {
        Mode::Text
    }
}

/// Set the input mode for the different types of input devices.
pub fn set_mode(modes: &mut Modes, keyboard: Mode, gamepad: Mode, pointer: Mode)
    ensures
        final(modes).keyboard() == keyboard,
        final(modes).gamepad() == gamepad,
        final(modes).pointer() == pointer,
{
    *modes = Modes { keyboard: keyboard.code(), gamepad: gamepad.code(), pointer: pointer.code() };
}

/// The mode with the given number. Only 0, 1 and 2 are numbers of modes.
pub fn mode(value: u8) -> (m: Mode)
    requires
        value <= 2,
    ensures
        m == spec_mode(value),
        m.spec_code() == value,
{
    match value {
        0 => Mode::Ui,
        1 => Mode::Game,
        _ => Mode::Text,
    }
}

/// Get the current input mode of the keyboard.
pub fn mode_keyboard(modes: &Modes) -> (m: Mode)
    ensures
        m == modes.keyboard(),
{
    proof {
        use_type_invariant(modes);
    }
    mode(modes.keyboard)
}

/// Get the current input mode of the gamepad.
pub fn mode_gamepad(modes: &Modes) -> (m: Mode)
    ensures
        m == modes.gamepad(),
{
    proof {
        use_type_invariant(modes);
    }
    mode(modes.gamepad)
}

/// Get the current input mode of the pointer.
pub fn mode_pointer(modes: &Modes) -> (m: Mode)
    ensures
        m == modes.pointer(),
{
    proof {
        use_type_invariant(modes);
    }
    mode(modes.pointer)
}

} // verus!
