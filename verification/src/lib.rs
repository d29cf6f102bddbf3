//! Normalisation of keyboard, pointer and game-controller input into one
//! stream of events.
//!
//! The crate holds the pure part of the work: the event vocabulary, the
//! translation of platform key codes, the suppression of repeated key
//! transitions, the bookkeeping of controller slots and the rules by which the
//! sources are merged. Every function is specified and verified; waiting on
//! devices is left to the caller.

pub mod btn;
pub mod debounce;
pub mod gamepad;
pub mod input;
pub mod input_mode;
pub mod key;
pub mod listener;
pub mod mode;
pub mod slots;
pub mod text;
pub mod translate;

pub use btn::Btn;
pub use debounce::KeyState;
pub use gamepad::GameInput;
pub use input::Input;
pub use input_mode::{GamepadMode, KeyboardMode, PointerMode};
pub use key::{Key, Mod, ModFlags};
pub use listener::{arbitrate, Arrival, ListenError, Listener, PadEvent, Source};
pub use mode::{mode_gamepad, mode_keyboard, mode_pointer, set_mode, Mode, Modes};
pub use slots::{Home, SlotTable};
pub use translate::{ModProbe, WheelUnit};
