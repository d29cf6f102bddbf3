//! Translation of what the platform reports of a key or a button into the
//! library's own vocabulary.

use vstd::prelude::*;
use crate::btn::Btn;
use crate::key::{Key, Mod, ModFlags};
use crate::text::{equal, starts_with};

verus! {

/// The modifiers that are live on the device when an event is delivered, as
/// the platform reports them.
#[derive(Copy, Clone, Debug, PartialEq, Eq, Structural)]
pub struct ModProbe {
    /// The control key is held down.
    pub ctrl: bool,
    /// The meta (command, super) key is held down.
    pub meta: bool,
    /// The alt key is held down.
    pub alt: bool,
    /// The shift key is held down.
    pub shift: bool,
}

impl ModProbe {
    /// The flags that the probe stands for: control and meta are one flag,
    /// and a probe never reports FN.
    pub open spec fn flags(self) -> ModFlags {
        ModFlags { shift: self.shift, ctrl: self.ctrl || self.meta, alt: self.alt, func: false }
    }

    /// Whether a modifier is live that turns a key into a command of the
    /// system: control, meta or alt.
    pub open spec fn system(self) -> bool {
        self.ctrl || self.meta || self.alt
    }
}

/// The table of the platform's key codes: the key that a code names, and the
/// modifiers that the code itself implies. A code outside the table has no
/// entry.
pub open spec fn spec_keycode(code: Seq<char>) -> Option<(Key, Mod)> {
    if code == "Digit0"@ || code == "Numpad0"@ {
        Some((Key::Zero, Mod::new()))
    } else if code == "Digit1"@ || code == "Numpad1"@ {
        Some((Key::One, Mod::new()))
    } else if code == "Digit2"@ || code == "Numpad2"@ {
        Some((Key::Two, Mod::new()))
    } else if code == "Digit3"@ || code == "Numpad3"@ {
        Some((Key::Three, Mod::new()))
    } else if code == "Digit4"@ || code == "Numpad4"@ {
        Some((Key::Four, Mod::new()))
    } else if code == "Digit5"@ || code == "Numpad5"@ {
        Some((Key::Five, Mod::new()))
    } else if code == "Digit6"@ || code == "Numpad6"@ {
        Some((Key::Six, Mod::new()))
    } else if code == "Digit7"@ || code == "Numpad7"@ {
        Some((Key::Seven, Mod::new()))
    } else if code == "Digit8"@ || code == "Numpad8"@ {
        Some((Key::Eight, Mod::new()))
    } else if code == "Digit9"@ || code == "Numpad9"@ {
        Some((Key::Nine, Mod::new()))
    } else if code == "Enter"@ || code == "NumpadEnter"@ {
        Some((Key::Enter, Mod::new()))
    } else if code == "KeyA"@ {
        Some((Key::A, Mod::new()))
    } else if code == "KeyB"@ {
        Some((Key::B, Mod::new()))
    } else if code == "KeyC"@ {
        Some((Key::C, Mod::new()))
    } else if code == "KeyD"@ {
        Some((Key::D, Mod::new()))
    } else if code == "KeyE"@ {
        Some((Key::E, Mod::new()))
    } else if code == "KeyF"@ {
        Some((Key::F, Mod::new()))
    } else if code == "KeyG"@ {
        Some((Key::G, Mod::new()))
    } else if code == "KeyH"@ {
        Some((Key::H, Mod::new()))
    } else if code == "KeyI"@ {
        Some((Key::I, Mod::new()))
    } else if code == "KeyJ"@ {
        Some((Key::J, Mod::new()))
    } else if code == "KeyK"@ {
        Some((Key::K, Mod::new()))
    } else if code == "KeyL"@ {
        Some((Key::L, Mod::new()))
    } else if code == "KeyM"@ {
        Some((Key::M, Mod::new()))
    } else if code == "KeyN"@ {
        Some((Key::N, Mod::new()))
    } else if code == "KeyO"@ {
        Some((Key::O, Mod::new()))
    } else if code == "KeyP"@ {
        Some((Key::P, Mod::new()))
    } else if code == "KeyQ"@ {
        Some((Key::Q, Mod::new()))
    } else if code == "KeyR"@ {
        Some((Key::R, Mod::new()))
    } else if code == "KeyS"@ {
        Some((Key::S, Mod::new()))
    } else if code == "KeyT"@ {
        Some((Key::T, Mod::new()))
    } else if code == "KeyU"@ {
        Some((Key::U, Mod::new()))
    } else if code == "KeyV"@ {
        Some((Key::V, Mod::new()))
    } else if code == "KeyW"@ {
        Some((Key::W, Mod::new()))
    } else if code == "KeyX"@ {
        Some((Key::X, Mod::new()))
    } else if code == "KeyY"@ {
        Some((Key::Y, Mod::new()))
    } else if code == "KeyZ"@ {
        Some((Key::Z, Mod::new()))
    } else if code == "ArrowUp"@ {
        Some((Key::Up, Mod::new()))
    } else if code == "ArrowDown"@ {
        Some((Key::Down, Mod::new()))
    } else if code == "ArrowLeft"@ {
        Some((Key::Left, Mod::new()))
    } else if code == "ArrowRight"@ {
        Some((Key::Right, Mod::new()))
    } else if code == "Space"@ {
        Some((Key::Space, Mod::new()))
    } else if code == "Tab"@ {
        Some((Key::Tab, Mod::new()))
    } else if code == "Backspace"@ {
        Some((Key::Delete, Mod::new()))
    } else if code == "Delete"@ {
        Some((Key::Del, Mod::new()))
    } else if code == "Escape"@ {
        Some((Key::Esc, Mod::new()))
    } else if code == "Minus"@ {
        Some((Key::Minus, Mod::new()))
    } else if code == "Equal"@ {
        Some((Key::Equal, Mod::new()))
    } else if code == "Insert"@ {
        Some((Key::Insert, Mod::new()))
    } else if code == "PageUp"@ {
        Some((Key::PageUp, Mod::new()))
    } else if code == "PageDown"@ {
        Some((Key::PageDown, Mod::new()))
    } else if code == "Home"@ {
        Some((Key::Home, Mod::new()))
    } else if code == "End"@ {
        Some((Key::End, Mod::new()))
    } else if code == "Backslash"@ {
        Some((Key::Backslash, Mod::new()))
    } else if code == "BracketLeft"@ {
        Some((Key::BracketOpen, Mod::new()))
    } else if code == "BracketRight"@ {
        Some((Key::BracketClose, Mod::new()))
    } else if code == "Quote"@ {
        Some((Key::Apostrophe, Mod::new()))
    } else if code == "Semicolon"@ {
        Some((Key::Semicolon, Mod::new()))
    } else if code == "Slash"@ {
        Some((Key::Slash, Mod::new()))
    } else if code == "Period"@ || code == "NumpadDecimal"@ {
        Some((Key::Period, Mod::new()))
    } else if code == "Comma"@ {
        Some((Key::Comma, Mod::new()))
    } else if code == "Pause"@ {
        Some((Key::Pause, Mod::new()))
    } else if code == "ContextMenu"@ {
        Some((Key::Menu, Mod::new()))
    } else if code == "Backquote"@ {
        Some((Key::Backtick, Mod::new()))
    } else if code == "F1"@ {
        Some((Key::F1, Mod::new()))
    } else if code == "F2"@ {
        Some((Key::F2, Mod::new()))
    } else if code == "F3"@ {
        Some((Key::F3, Mod::new()))
    } else if code == "F4"@ {
        Some((Key::F4, Mod::new()))
    } else if code == "F5"@ {
        Some((Key::F5, Mod::new()))
    } else if code == "F6"@ {
        Some((Key::F6, Mod::new()))
    } else if code == "F7"@ {
        Some((Key::F7, Mod::new()))
    } else if code == "F8"@ {
        Some((Key::F8, Mod::new()))
    } else if code == "F9"@ {
        Some((Key::F9, Mod::new()))
    } else if code == "F10"@ {
        Some((Key::F10, Mod::new()))
    } else if code == "F11"@ {
        Some((Key::F11, Mod::new()))
    } else if code == "F12"@ {
        Some((Key::F12, Mod::new()))
    } else if code == "NumpadDivide"@ {
        Some((Key::Slash, Mod::new()))
    } else if code == "NumpadMultiply"@ {
        Some((Key::Eight, Mod::new().add_shift()))
    } else if code == "NumpadSubtract"@ {
        Some((Key::Minus, Mod::new()))
    } else if code == "NumpadAdd"@ {
        Some((Key::Equal, Mod::new().add_shift()))
    } else if code == "NumLock"@ {
        Some((Key::Num, Mod::new()))
    } else if code == "CapsLock"@ {
        Some((Key::Caps, Mod::new()))
    } else if code == "ScrollLock"@ {
        Some((Key::Scroll, Mod::new()))
    } else if code == "ShiftLeft"@ {
        Some((Key::LShift, Mod::new()))
    } else if code == "ShiftRight"@ {
        Some((Key::RShift, Mod::new()))
    } else if code == "ControlLeft"@ || code == "MetaLeft"@ || code == "OSLeft"@ {
        Some((Key::LCtrl, Mod::new()))
    } else if code == "ControlRight"@ || code == "MetaRight"@ || code == "OSRight"@ {
        Some((Key::RCtrl, Mod::new()))
    } else if code == "AltLeft"@ {
        Some((Key::LAlt, Mod::new()))
    } else if code == "AltRight"@ {
        Some((Key::RAlt, Mod::new()))
    } else {
        None
    }
}

/// Converter from the platform's key codes to keys: the entry of `code` in the
/// table, or `None` for a code that the table does not hold.
pub fn keycode(code: &str) -> (entry: Option<(Key, Mod)>)
    ensures
        entry == spec_keycode(code@),
{
    if equal(code, "Digit0") || equal(code, "Numpad0") {
        return Some((Key::Zero, Mod::new()));
    }
    if equal(code, "Digit1") || equal(code, "Numpad1") {
        return Some((Key::One, Mod::new()));
    }
    if equal(code, "Digit2") || equal(code, "Numpad2") {
        return Some((Key::Two, Mod::new()));
    }
    if equal(code, "Digit3") || equal(code, "Numpad3") {
        return Some((Key::Three, Mod::new()));
    }
    if equal(code, "Digit4") || equal(code, "Numpad4") {
        return Some((Key::Four, Mod::new()));
    }
    if equal(code, "Digit5") || equal(code, "Numpad5") {
        return Some((Key::Five, Mod::new()));
    }
    if equal(code, "Digit6") || equal(code, "Numpad6") {
        return Some((Key::Six, Mod::new()));
    }
    if equal(code, "Digit7") || equal(code, "Numpad7") {
        return Some((Key::Seven, Mod::new()));
    }
    if equal(code, "Digit8") || equal(code, "Numpad8") {
        return Some((Key::Eight, Mod::new()));
    }
    if equal(code, "Digit9") || equal(code, "Numpad9") {
        return Some((Key::Nine, Mod::new()));
    }
    if equal(code, "Enter") || equal(code, "NumpadEnter") {
        return Some((Key::Enter, Mod::new()));
    }
    if equal(code, "KeyA") {
        return Some((Key::A, Mod::new()));
    }
    if equal(code, "KeyB") {
        return Some((Key::B, Mod::new()));
    }
    if equal(code, "KeyC") {
        return Some((Key::C, Mod::new()));
    }
    if equal(code, "KeyD") {
        return Some((Key::D, Mod::new()));
    }
    if equal(code, "KeyE") {
        return Some((Key::E, Mod::new()));
    }
    if equal(code, "KeyF") {
        return Some((Key::F, Mod::new()));
    }
    if equal(code, "KeyG") {
        return Some((Key::G, Mod::new()));
    }
    if equal(code, "KeyH") {
        return Some((Key::H, Mod::new()));
    }
    if equal(code, "KeyI") {
        return Some((Key::I, Mod::new()));
    }
    if equal(code, "KeyJ") {
        return Some((Key::J, Mod::new()));
    }
    if equal(code, "KeyK") {
        return Some((Key::K, Mod::new()));
    }
    if equal(code, "KeyL") {
        return Some((Key::L, Mod::new()));
    }
    if equal(code, "KeyM") {
        return Some((Key::M, Mod::new()));
    }
    if equal(code, "KeyN") {
        return Some((Key::N, Mod::new()));
    }
    if equal(code, "KeyO") {
        return Some((Key::O, Mod::new()));
    }
    if equal(code, "KeyP") {
        return Some((Key::P, Mod::new()));
    }
    if equal(code, "KeyQ") {
        return Some((Key::Q, Mod::new()));
    }
    if equal(code, "KeyR") {
        return Some((Key::R, Mod::new()));
    }
    if equal(code, "KeyS") {
        return Some((Key::S, Mod::new()));
    }
    if equal(code, "KeyT") {
        return Some((Key::T, Mod::new()));
    }
    if equal(code, "KeyU") {
        return Some((Key::U, Mod::new()));
    }
    if equal(code, "KeyV") {
        return Some((Key::V, Mod::new()));
    }
    if equal(code, "KeyW") {
        return Some((Key::W, Mod::new()));
    }
    if equal(code, "KeyX") {
        return Some((Key::X, Mod::new()));
    }
    if equal(code, "KeyY") {
        return Some((Key::Y, Mod::new()));
    }
    if equal(code, "KeyZ") {
        return Some((Key::Z, Mod::new()));
    }
    if equal(code, "ArrowUp") {
        return Some((Key::Up, Mod::new()));
    }
    if equal(code, "ArrowDown") {
        return Some((Key::Down, Mod::new()));
    }
    if equal(code, "ArrowLeft") {
        return Some((Key::Left, Mod::new()));
    }
    if equal(code, "ArrowRight") {
        return Some((Key::Right, Mod::new()));
    }
    if equal(code, "Space") {
        return Some((Key::Space, Mod::new()));
    }
    if equal(code, "Tab") {
        return Some((Key::Tab, Mod::new()));
    }
    if equal(code, "Backspace") {
        return Some((Key::Delete, Mod::new()));
    }
    if equal(code, "Delete") {
        return Some((Key::Del, Mod::new()));
    }
    if equal(code, "Escape") {
        return Some((Key::Esc, Mod::new()));
    }
    if equal(code, "Minus") {
        return Some((Key::Minus, Mod::new()));
    }
    if equal(code, "Equal") {
        return Some((Key::Equal, Mod::new()));
    }
    if equal(code, "Insert") {
        return Some((Key::Insert, Mod::new()));
    }
    if equal(code, "PageUp") {
        return Some((Key::PageUp, Mod::new()));
    }
    if equal(code, "PageDown") {
        return Some((Key::PageDown, Mod::new()));
    }
    if equal(code, "Home") {
        return Some((Key::Home, Mod::new()));
    }
    if equal(code, "End") {
        return Some((Key::End, Mod::new()));
    }
    if equal(code, "Backslash") {
        return Some((Key::Backslash, Mod::new()));
    }
    if equal(code, "BracketLeft") {
        return Some((Key::BracketOpen, Mod::new()));
    }
    if equal(code, "BracketRight") {
        return Some((Key::BracketClose, Mod::new()));
    }
    if equal(code, "Quote") {
        return Some((Key::Apostrophe, Mod::new()));
    }
    if equal(code, "Semicolon") {
        return Some((Key::Semicolon, Mod::new()));
    }
    if equal(code, "Slash") {
        return Some((Key::Slash, Mod::new()));
    }
    if equal(code, "Period") || equal(code, "NumpadDecimal") {
        return Some((Key::Period, Mod::new()));
    }
    if equal(code, "Comma") {
        return Some((Key::Comma, Mod::new()));
    }
    if equal(code, "Pause") {
        return Some((Key::Pause, Mod::new()));
    }
    if equal(code, "ContextMenu") {
        return Some((Key::Menu, Mod::new()));
    }
    if equal(code, "Backquote") {
        return Some((Key::Backtick, Mod::new()));
    }
    if equal(code, "F1") {
        return Some((Key::F1, Mod::new()));
    }
    if equal(code, "F2") {
        return Some((Key::F2, Mod::new()));
    }
    if equal(code, "F3") {
        return Some((Key::F3, Mod::new()));
    }
    if equal(code, "F4") {
        return Some((Key::F4, Mod::new()));
    }
    if equal(code, "F5") {
        return Some((Key::F5, Mod::new()));
    }
    if equal(code, "F6") {
        return Some((Key::F6, Mod::new()));
    }
    if equal(code, "F7") {
        return Some((Key::F7, Mod::new()));
    }
    if equal(code, "F8") {
        return Some((Key::F8, Mod::new()));
    }
    if equal(code, "F9") {
        return Some((Key::F9, Mod::new()));
    }
    if equal(code, "F10") {
        return Some((Key::F10, Mod::new()));
    }
    if equal(code, "F11") {
        return Some((Key::F11, Mod::new()));
    }
    if equal(code, "F12") {
        return Some((Key::F12, Mod::new()));
    }
    if equal(code, "NumpadDivide") {
        return Some((Key::Slash, Mod::new()));
    }
    if equal(code, "NumpadMultiply") {
        return Some((Key::Eight, Mod::new().add_shift()));
    }
    if equal(code, "NumpadSubtract") {
        return Some((Key::Minus, Mod::new()));
    }
    if equal(code, "NumpadAdd") {
        return Some((Key::Equal, Mod::new().add_shift()));
    }
    if equal(code, "NumLock") {
        return Some((Key::Num, Mod::new()));
    }
    if equal(code, "CapsLock") {
        return Some((Key::Caps, Mod::new()));
    }
    if equal(code, "ScrollLock") {
        return Some((Key::Scroll, Mod::new()));
    }
    if equal(code, "ShiftLeft") {
        return Some((Key::LShift, Mod::new()));
    }
    if equal(code, "ShiftRight") {
        return Some((Key::RShift, Mod::new()));
    }
    if equal(code, "ControlLeft") || equal(code, "MetaLeft") || equal(code, "OSLeft") {
        return Some((Key::LCtrl, Mod::new()));
    }
    if equal(code, "ControlRight") || equal(code, "MetaRight") || equal(code, "OSRight") {
        return Some((Key::RCtrl, Mod::new()));
    }
    if equal(code, "AltLeft") {
        return Some((Key::LAlt, Mod::new()));
    }
    if equal(code, "AltRight") {
        return Some((Key::RAlt, Mod::new()));
    }
    None
}

/// Whether the key that `code` names puts a character into a text field when
/// the platform handles it by default: the digits, the keypad, the letters,
/// the space bar and the punctuation keys.
pub open spec fn spec_is_printing(code: Seq<char>) -> bool {
    "Digit"@.is_prefix_of(code) || "Numpad"@.is_prefix_of(code) || "Key"@.is_prefix_of(code)
        || code == "Space"@
        || code == "Minus"@
        || code == "Equal"@
        || code == "Backslash"@
        || code == "BracketRight"@
        || code == "BracketLeft"@
        || code == "Quote"@
        || code == "Semicolon"@
        || code == "Slash"@
        || code == "Period"@
        || code == "Comma"@
        || code == "Backquote"@
}

/// Whether default handling of the key would produce text.
pub fn is_printing(code: &str) -> (printing: bool)
    ensures
        printing == spec_is_printing(code@),
{
    starts_with(code, "Digit") || starts_with(code, "Numpad") || starts_with(code, "Key")
        || equal(code, "Space")
        || equal(code, "Minus")
        || equal(code, "Equal")
        || equal(code, "Backslash")
        || equal(code, "BracketRight")
        || equal(code, "BracketLeft")
        || equal(code, "Quote")
        || equal(code, "Semicolon")
        || equal(code, "Slash")
        || equal(code, "Period")
        || equal(code, "Comma")
        || equal(code, "Backquote")
}

/// A modifier state with the live modifiers of a probe added: control for
/// control or meta, alt and shift.
pub open spec fn spec_key_modifier(mods: Mod, probe: ModProbe) -> Mod {
    let with_ctrl = if probe.ctrl || probe.meta {
        mods.add_ctrl()
    } else {
        mods
    };
    let with_alt = if probe.alt {
        with_ctrl.add_alt()
    } else {
        with_ctrl
    };
    if probe.shift {
        with_alt.add_shift()
    } else {
        with_alt
    }
}

/// The live modifiers are joined to those that a state already holds, and
/// none is lost.
pub proof fn lemma_key_modifier(mods: Mod, probe: ModProbe)
    ensures
        spec_key_modifier(mods, probe)@ == mods@.union(probe.flags()),
        mods.wf() ==> spec_key_modifier(mods, probe).wf(),
{
    Mod::lemma_add_flags(mods);
    Mod::lemma_add_flags(mods.add_ctrl());
    let with_ctrl = if probe.ctrl || probe.meta {
        mods.add_ctrl()
    } else {
        mods
    };
    Mod::lemma_add_flags(with_ctrl);
    Mod::lemma_add_flags(with_ctrl.add_alt());
}

/// The modifier state of a pointer event: what the probe reports, and no
/// more.
pub fn ptr_modifier(probe: ModProbe) -> (mods: Mod)
    ensures
        mods == spec_key_modifier(Mod::new(), probe),
        mods@ == probe.flags(),
{
    proof {
        lemma_key_modifier(Mod::new(), probe);
        Mod::lemma_add_flags(Mod::new());
    }
    let mut mods = Mod::new();
    if probe.ctrl || probe.meta {
        mods = mods.add_ctrl();
    }
    if probe.alt {
        mods = mods.add_alt();
    }
    if probe.shift {
        mods = mods.add_shift();
    }
    mods
}

/// Adds the live modifiers of a key event to `mods`, and tells whether one of
/// them is a system modifier.
pub fn key_modifier(probe: ModProbe, mods: &mut Mod) -> (system: bool)
    ensures
        *final(mods) == spec_key_modifier(*old(mods), probe),
        final(mods)@ == old(mods)@.union(probe.flags()),
        system == probe.system(),
{
    proof {
        lemma_key_modifier(*mods, probe);
    }
    let ctrl = probe.ctrl || probe.meta;
    if ctrl {
        *mods = mods.add_ctrl();
    }
    if probe.alt {
        *mods = mods.add_alt();
    }
    if probe.shift {
        *mods = mods.add_shift();
    }
    ctrl || probe.alt
}

/// What a key code and the live modifiers translate to: the key of the table,
/// with the modifiers that the code implies and those that are live.
pub open spec fn spec_translate(code: Seq<char>, probe: ModProbe) -> Option<(Key, Mod)> {
    match spec_keycode(code) {
        Some((key, implied)) => Some((key, spec_key_modifier(implied, probe))),
        None => None,
    }
}

/// Translates a key event of the platform. A code that the table does not
/// hold gives `None`: such keys are dropped, not reported.
pub fn translate(code: &str, probe: ModProbe) -> (out: Option<(Key, Mod)>)
    ensures
        out == spec_translate(code@, probe),
        out is Some <==> spec_keycode(code@) is Some,
        out matches Some((_, mods)) ==> spec_keycode(code@) matches Some((_, implied)) && mods@
            == implied@.union(probe.flags()),
{
    match keycode(code) {
        Some((key, implied)) => {
            let mut mods = implied;
            let _ = key_modifier(probe, &mut mods);
            Some((key, mods))
        },
        None => None,
    }
}

/// Whether the platform's default handling of a key event has to be
/// cancelled when the event is taken as input: always, unless the key would
/// produce text and no system modifier is live.
pub open spec fn spec_cancels_default(code: Seq<char>, probe: ModProbe) -> bool {
    !spec_is_printing(code) || probe.system()
}

/// Whether the caller has to cancel the platform's default handling of a key
/// event.
pub fn cancels_default(code: &str, probe: ModProbe) -> (cancel: bool)
    ensures
        cancel == spec_cancels_default(code@, probe),
{
    !is_printing(code) || probe.ctrl || probe.meta || probe.alt
}

/// The pointer button that the platform numbers `native`: 0 is the main
/// button, 1 the middle one, 2 the secondary one, 3 and 4 the buttons that go
/// back and forward. The platform has no other numbers.
pub open spec fn spec_button(native: i16) -> Option<Btn> {
    if native == 0 {
        Some(Btn::Left)
    } else if native == 1 {
        Some(Btn::Middle)
    } else if native == 2 {
        Some(Btn::Right)
    } else if native == 3 {
        Some(Btn::Back)
    } else if native == 4 {
        Some(Btn::Next)
    } else {
        None
    }
}

/// Translates the platform's number of a pointer button.
pub fn button(native: i16) -> (btn: Option<Btn>)
    ensures
        btn == spec_button(native),
{
    match native {
        0 => Some(Btn::Left),
        1 => Some(Btn::Middle),
        2 => Some(Btn::Right),
        3 => Some(Btn::Back),
        4 => Some(Btn::Next),
        _ => None,
    }
}

/// The unit in which the platform gives the distance of a wheel event.
#[derive(Copy, Clone, Debug, PartialEq, Eq, Structural)]
pub enum WheelUnit {
    /// Pixels.
    Pixel,
    /// Lines of text.
    Line,
    /// Pages: the height of the viewport.
    Page,
}

/// The height of a line of text in pixels, by which a distance in lines is
/// multiplied.
pub const LINE_PIXELS: u32 = 16;

/// The unit that the platform's delta mode names: 0 for pixels, 1 for lines,
/// 2 for pages. The platform has no other modes.
pub fn wheel_unit(mode: u32) -> (unit: Option<WheelUnit>)
    ensures
        mode == 0 ==> unit == Some(WheelUnit::Pixel),
        mode == 1 ==> unit == Some(WheelUnit::Line),
        mode == 2 ==> unit == Some(WheelUnit::Page),
        mode > 2 ==> unit is None,
{
    match mode {
        0 => Some(WheelUnit::Pixel),
        1 => Some(WheelUnit::Line),
        2 => Some(WheelUnit::Page),
        _ => None,
    }
}

} // verus!
