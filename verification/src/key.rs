//! Keys and the modifiers held with them.

use vstd::prelude::*;

verus! {

/// Bit of the SHIFT modifier.
const MOD_SHIFT: u8 = 0b0000_0001;

/// Bit of the CTRL (or CMD) modifier.
const MOD_CTRL: u8 = 0b0000_0010;

/// Bit of the ALT (or OPTION) modifier.
const MOD_ALT: u8 = 0b0000_0100;

/// Bit of the FN modifier.
const MOD_FN: u8 = 0b0000_1000;

/// What a modifier state says: for each of the four modifiers whether it is
/// held down.
pub struct ModFlags {
    /// SHIFT is held down.
    pub shift: bool,
    /// CTRL or CMD is held down.
    pub ctrl: bool,
    /// ALT or OPTION is held down.
    pub alt: bool,
    /// FN is held down.
    pub func: bool,
}

impl ModFlags {
    /// No modifier is held down.
    pub open spec fn none() -> ModFlags {
        ModFlags { shift: false, ctrl: false, alt: false, func: false }
    }

    /// Every modifier that is held down in `self` or in `other`.
    pub open spec fn union(self, other: ModFlags) -> ModFlags {
        ModFlags {
            shift: self.shift || other.shift,
            ctrl: self.ctrl || other.ctrl,
            alt: self.alt || other.alt,
            func: self.func || other.func,
        }
    }
}

/// Modifier state.
#[derive(Copy, Clone, Debug, PartialEq, Eq, Structural)]
pub struct Mod(u8);

impl View for Mod {
    type V = ModFlags;

    closed spec fn view(&self) -> ModFlags {
        ModFlags {
            shift: self.0 & MOD_SHIFT != 0,
            ctrl: self.0 & MOD_CTRL != 0,
            alt: self.0 & MOD_ALT != 0,
            func: self.0 & MOD_FN != 0,
        }
    }
}

/// How setting one modifier bit acts on all four.
proof fn lemma_set_bits(x: u8)
    by (bit_vector)
    ensures
        (x | 1) & 1 != 0 && ((x | 1) & 2 != 0) == (x & 2 != 0) && ((x | 1) & 4 != 0) == (x & 4
            != 0) && ((x | 1) & 8 != 0) == (x & 8 != 0),
        (x | 2) & 2 != 0 && ((x | 2) & 1 != 0) == (x & 1 != 0) && ((x | 2) & 4 != 0) == (x & 4
            != 0) && ((x | 2) & 8 != 0) == (x & 8 != 0),
        (x | 4) & 4 != 0 && ((x | 4) & 1 != 0) == (x & 1 != 0) && ((x | 4) & 2 != 0) == (x & 2
            != 0) && ((x | 4) & 8 != 0) == (x & 8 != 0),
        (x | 8) & 8 != 0 && ((x | 8) & 1 != 0) == (x & 1 != 0) && ((x | 8) & 2 != 0) == (x & 2
            != 0) && ((x | 8) & 4 != 0) == (x & 4 != 0),
        x < 16 ==> (x | 1) < 16 && (x | 2) < 16 && (x | 4) < 16 && (x | 8) < 16,
{
}

/// A state below 16 is fixed by its four bits.
proof fn lemma_bits_fix_state(x: u8, y: u8)
    by (bit_vector)
    requires
        x < 16,
        y < 16,
        (x & 1 != 0) == (y & 1 != 0),
        (x & 2 != 0) == (y & 2 != 0),
        (x & 4 != 0) == (y & 4 != 0),
        (x & 8 != 0) == (y & 8 != 0),
    ensures
        x == y,
{
}

impl Mod {
    /// Only the four modifier bits are ever set.
    #[verifier::type_invariant]
    pub closed spec fn wf(self) -> bool {
        self.0 < 16
    }

    /// Check if no modifiers are held down.
    pub fn none(self) -> (b: bool)
        ensures
            b == (self@ == ModFlags::none()),
    {
        proof {
            use_type_invariant(self);
            assert(0u8 & 1 == 0 && 0u8 & 2 == 0 && 0u8 & 4 == 0 && 0u8 & 8 == 0) by (bit_vector);
            if !self@.shift && !self@.ctrl && !self@.alt && !self@.func {
                lemma_bits_fix_state(self.0, 0);
            }
        }
        self.0 == 0
    }

    /// Check if SHIFT is held down.
    pub fn shift(self) -> (b: bool)
        ensures
            b == self@.shift,
    {
        (self.0 & MOD_SHIFT) != 0
    }

    /// Check if CTRL or CMD is held down.
    pub fn ctrl(self) -> (b: bool)
        ensures
            b == self@.ctrl,
    {
        (self.0 & MOD_CTRL) != 0
    }

    /// Check if ALT or OPTION is held down.
    pub fn alt(self) -> (b: bool)
        ensures
            b == self@.alt,
    {
        (self.0 & MOD_ALT) != 0
    }

    /// Check if FN is held down.
    pub fn func(self) -> (b: bool)
        ensures
            b == self@.func,
    {
        (self.0 & MOD_FN) != 0
    }

    /// The state in which no modifier is held down.
    pub closed spec fn spec_new() -> Mod {
        Mod(0)
    }

    /// No modifiers.
    #[verifier::when_used_as_spec(spec_new)]
    pub fn new() -> (m: Mod)
        ensures
            m == Mod::spec_new(),
            m@ == ModFlags::none(),
    {
        assert(0u8 & 1 == 0 && 0u8 & 2 == 0 && 0u8 & 4 == 0 && 0u8 & 8 == 0) by (bit_vector);
        Mod(0)
    }

    /// This state with SHIFT added.
    pub closed spec fn spec_add_shift(self) -> Mod {
        Mod(self.0 | MOD_SHIFT)
    }

    /// Add shift key.
    #[verifier::when_used_as_spec(spec_add_shift)]
    pub fn add_shift(self) -> (m: Mod)
        ensures
            m == self.spec_add_shift(),
            m@ == (ModFlags { shift: true, ..self@ }),
    {
        proof {
            use_type_invariant(self);
            lemma_set_bits(self.0);
        }
        Mod(self.0 | MOD_SHIFT)
    }

    /// This state with CTRL added.
    pub closed spec fn spec_add_ctrl(self) -> Mod {
        Mod(self.0 | MOD_CTRL)
    }

    /// Add control key.
    #[verifier::when_used_as_spec(spec_add_ctrl)]
    pub fn add_ctrl(self) -> (m: Mod)
        ensures
            m == self.spec_add_ctrl(),
            m@ == (ModFlags { ctrl: true, ..self@ }),
    {
        proof {
            use_type_invariant(self);
            lemma_set_bits(self.0);
        }
        Mod(self.0 | MOD_CTRL)
    }

    /// This state with ALT added.
    pub closed spec fn spec_add_alt(self) -> Mod {
        Mod(self.0 | MOD_ALT)
    }

    /// Add alt key.
    #[verifier::when_used_as_spec(spec_add_alt)]
    pub fn add_alt(self) -> (m: Mod)
        ensures
            m == self.spec_add_alt(),
            m@ == (ModFlags { alt: true, ..self@ }),
    {
        proof {
            use_type_invariant(self);
            lemma_set_bits(self.0);
        }
        Mod(self.0 | MOD_ALT)
    }

    /// This state with FN added.
    pub closed spec fn spec_add_func(self) -> Mod {
        Mod(self.0 | MOD_FN)
    }

    /// Add function key.
    #[verifier::when_used_as_spec(spec_add_func)]
    pub fn add_func(self) -> (m: Mod)
        ensures
            m == self.spec_add_func(),
            m@ == (ModFlags { func: true, ..self@ }),
    {
        proof {
            use_type_invariant(self);
            lemma_set_bits(self.0);
        }
        Mod(self.0 | MOD_FN)
    }

    /// The text that names a modifier state: control, alt and shift in that
    /// order, joined by " + ". Control alone hides shift, and FN is never
    /// named.
    pub open spec fn spec_label(flags: ModFlags) -> Seq<char> {
        if flags.ctrl {
            if flags.alt {
                if flags.shift {
                    "Ctrl + Alt + Shift"@
                } else {
                    "Ctrl + Alt"@
                }
            } else {
                "Ctrl"@
            }
        } else if flags.alt {
            if flags.shift {
                "Alt + Shift"@
            } else {
                "Alt"@
            }
        } else if flags.shift {
            "Shift"@
        } else {
            "None"@
        }
    }

    /// The name of this modifier state, for display.
    pub fn label(self) -> (s: &'static str)
        ensures
            s@ == Mod::spec_label(self@),
    {
        if self.ctrl() {
            if self.alt() {
                if self.shift() {
                    "Ctrl + Alt + Shift"
                } else {
                    "Ctrl + Alt"
                }
            } else {
                "Ctrl"
            }
        } else if self.alt() {
            if self.shift() {
                "Alt + Shift"
            } else {
                "Alt"
            }
        } else if self.shift() {
            "Shift"
        } else {
            "None"
        }
    }

    /// Adding a modifier twice is adding it once.
    pub proof fn lemma_add_idempotent(m: Mod)
        ensures
            m.add_shift().add_shift() == m.add_shift(),
            m.add_ctrl().add_ctrl() == m.add_ctrl(),
            m.add_alt().add_alt() == m.add_alt(),
            m.add_func().add_func() == m.add_func(),
    {
        let x = m.0;
        assert((x | 1) | 1 == x | 1 && (x | 2) | 2 == x | 2 && (x | 4) | 4 == x | 4 && (x | 8) | 8
            == x | 8) by (bit_vector);
    }

    /// What the new state and each added modifier answer to the four queries,
    /// and that they are well formed.
    pub proof fn lemma_add_flags(m: Mod)
        ensures
            Mod::new()@ == ModFlags::none(),
            Mod::new().wf(),
            m.add_shift()@ == (ModFlags { shift: true, ..m@ }),
            m.add_ctrl()@ == (ModFlags { ctrl: true, ..m@ }),
            m.add_alt()@ == (ModFlags { alt: true, ..m@ }),
            m.add_func()@ == (ModFlags { func: true, ..m@ }),
            m.wf() ==> m.add_shift().wf() && m.add_ctrl().wf() && m.add_alt().wf()
                && m.add_func().wf(),
    {
        lemma_set_bits(m.0);
        assert(0u8 & 1 == 0 && 0u8 & 2 == 0 && 0u8 & 4 == 0 && 0u8 & 8 == 0) by (bit_vector);
    }

    /// Two modifier states that answer the four queries alike are equal.
    pub proof fn lemma_view_injective(a: Mod, b: Mod)
        requires
            a.wf(),
            b.wf(),
            a@ == b@,
        ensures
            a == b,
    {
        lemma_bits_fix_state(a.0, b.0);
    }
}

impl Default for Mod {
    /// No modifiers.
    fn default() -> (m: Mod)
        ensures
            m@ == ModFlags::none(),
    {
        Mod::new()
    }
}

/// Input keycode for a key on a keyboard.
#[derive(Debug, Copy, Clone, PartialEq, Eq, Structural)]
#[non_exhaustive]
pub enum Key {
    /// The Escape Key
    Esc,
    /// Numeric 1 on either top row or numpad.
    One,
    /// Numeric 2 on either top row or numpad.
    Two,
    /// Numeric 3 on either top row or numpad.
    Three,
    /// Numeric 4 on either top row or numpad.
    Four,
    /// Numeric 5 on either top row or numpad.
    Five,
    /// Numeric 6 on either top row or numpad.
    Six,
    /// Numeric 7 on either top row or numpad.
    Seven,
    /// Numeric 8 on either top row or numpad.
    Eight,
    /// Numeric 9 on either top row or numpad.
    Nine,
    /// Numeric 0 on either top row or numpad.
    Zero,
    /// Minus / Underscore Key
    Minus,
    /// Equal Sign / Plus Key
    Equal,
    /// Backslash / Pipe Key
    Backslash,
    /// Backtick / Tilde Key
    Backtick,
    /// Tab
    Tab,
    /// Q (may be named by a different glyph depending on language of user).
    Q,
    /// W (may be named by a different glyph depending on language of user).
    W,
    /// E (may be named by a different glyph depending on language of user).
    E,
    /// R (may be named by a different glyph depending on language of user).
    R,
    /// T (may be named by a different glyph depending on language of user).
    T,
    /// Y (may be named by a different glyph depending on language of user).
    Y,
    /// U (may be named by a different glyph depending on language of user).
    U,
    /// I (may be named by a different glyph depending on language of user).
    I,
    /// O (may be named by a different glyph depending on language of user).
    O,
    /// P (may be named by a different glyph depending on language of user).
    P,
    /// [ (may be named by a different glyph depending on language of user).
    BracketOpen,
    /// ] (may be named by a different glyph depending on language of user).
    BracketClose,
    /// Backspace / Delete key.
    Delete,
    /// Key Caps or Caps Lock Key
    Caps,
    /// A (may be named by a different glyph depending on language of user).
    A,
    /// S (may be named by a different glyph depending on language of user).
    S,
    /// D (may be named by a different glyph depending on language of user).
    D,
    /// F (may be named by a different glyph depending on language of user).
    F,
    /// G (may be named by a different glyph depending on language of user).
    G,
    /// H (may be named by a different glyph depending on language of user).
    H,
    /// J (may be named by a different glyph depending on language of user).
    J,
    /// K (may be named by a different glyph depending on language of user).
    K,
    /// L (may be named by a different glyph depending on language of user).
    L,
    /// ; (may be named by a different glyph depending on language of user).
    Semicolon,
    /// ' (may be named by a different glyph depending on language of user).
    Apostrophe,
    /// Return / Enter Key
    Enter,
    /// Left Shift Key
    LShift,
    /// Z (may be named by a different glyph depending on language of user).
    Z,
    /// X (may be named by a different glyph depending on language of user).
    X,
    /// C (may be named by a different glyph depending on language of user).
    C,
    /// V (may be named by a different glyph depending on language of user).
    V,
    /// B (may be named by a different glyph depending on language of user).
    B,
    /// N (may be named by a different glyph depending on language of user).
    N,
    /// M (may be named by a different glyph depending on language of user).
    M,
    /// , (may be named by a different glyph depending on language of user).
    Comma,
    /// . (may be named by a different glyph depending on language of user).
    Period,
    /// / (may be named by a different glyph depending on language of user).
    Slash,
    /// Right Shift Key
    RShift,
    /// Up Arrow
    Up,
    /// Left control
    LCtrl,
    /// Left alt
    LAlt,
    /// Space (or Left Thumb Button)
    Space,
    /// Thumb Key (Alt Gr or Right Thumb Button)
    Thumb,
    /// Right Alt
    RAlt,
    /// Right Control
    RCtrl,
    /// Left Arrow Key
    Left,
    /// Down Arrow Key
    Down,
    /// Right Arrow Key
    Right,
    /// The Power Key
    Power,
    /// F1 Key
    F1,
    /// F2 Key
    F2,
    /// F3 Key
    F3,
    /// F4 Key
    F4,
    /// F5 Key
    F5,
    /// F6 Key
    F6,
    /// F7 Key
    F7,
    /// F8 Key
    F8,
    /// F9 Key
    F9,
    /// F10 Key
    F10,
    /// F11 Key
    F11,
    /// F12 Key
    F12,
    /// Print Screen / Screenshot Key
    Screenshot,
    /// Insert Key
    Insert,
    /// Next Media Track Key
    Next,
    /// Toggle Microphone
    Microphone,
    /// Web Launcher (WWW Key)
    Web,
    /// E-mail Launcher (Mail Key)
    Email,
    /// Audio Player Launcher
    Player,
    /// Calculator Launcher
    Calculator,
    /// The Del/Delete Key
    Del,
    /// Previous Media Track Key
    Prev,
    /// Airplane Mode
    Airplane,
    /// Scroll Lock
    Scroll,
    /// Display Toggle
    Display,
    /// Korean Han Key
    Han,
    /// Korean Hanja Key
    Hanja,
    /// Kana Toggle Key
    Kana,
    /// Convert Key
    Convert,
    /// Non-Convert Key
    NonConvert,
    /// Numpad Enter Key
    NumEnter,
    /// Mute Key
    Mute,
    /// Volume Down Key
    Quieter,
    /// Volume Up Key
    Louder,
    /// Brightness Down Key
    Dimmer,
    /// Brightness Up Key
    Brighter,
    /// Num Lock
    Num,
    /// Context Menu
    Menu,
    /// Break Key
    Break,
    /// Clear Key
    Clear,
    /// Pause
    Pause,
    /// Page Up
    PageUp,
    /// Multimedia Track Play Key
    Play,
    /// Multimedia Track Stop Key
    Stop,
    /// Home
    Home,
    /// Page Down
    PageDown,
    /// End
    End,
}

impl Key {
    /// The number that identifies a key. The keys that a keyboard reaches
    /// through its FN layer have the numbers from 64 on.
    pub open spec fn spec_code(self) -> u8 {
        match self {
            Key::Esc => 0x00,
            Key::One => 0x01,
            Key::Two => 0x02,
            Key::Three => 0x03,
            Key::Four => 0x04,
            Key::Five => 0x05,
            Key::Six => 0x06,
            Key::Seven => 0x07,
            Key::Eight => 0x08,
            Key::Nine => 0x09,
            Key::Zero => 0x0A,
            Key::Minus => 0x0B,
            Key::Equal => 0x0C,
            Key::Backslash => 0x0D,
            Key::Backtick => 0x0E,
            Key::Tab => 0x0F,
            Key::Q => 0x10,
            Key::W => 0x11,
            Key::E => 0x12,
            Key::R => 0x13,
            Key::T => 0x14,
            Key::Y => 0x15,
            Key::U => 0x16,
            Key::I => 0x17,
            Key::O => 0x18,
            Key::P => 0x19,
            Key::BracketOpen => 0x1A,
            Key::BracketClose => 0x1B,
            Key::Delete => 0x1C,
            Key::Caps => 0x1D,
            Key::A => 0x1E,
            Key::S => 0x1F,
            Key::D => 0x20,
            Key::F => 0x21,
            Key::G => 0x22,
            Key::H => 0x23,
            Key::J => 0x24,
            Key::K => 0x25,
            Key::L => 0x26,
            Key::Semicolon => 0x27,
            Key::Apostrophe => 0x28,
            Key::Enter => 0x29,
            Key::LShift => 0x2A,
            Key::Z => 0x2B,
            Key::X => 0x2C,
            Key::C => 0x2D,
            Key::V => 0x2E,
            Key::B => 0x2F,
            Key::N => 0x30,
            Key::M => 0x31,
            Key::Comma => 0x32,
            Key::Period => 0x33,
            Key::Slash => 0x34,
            Key::RShift => 0x35,
            Key::Up => 0x36,
            Key::LCtrl => 0x37,
            Key::LAlt => 0x38,
            Key::Space => 0x39,
            Key::Thumb => 0x3A,
            Key::RAlt => 0x3B,
            Key::RCtrl => 0x3C,
            Key::Left => 0x3D,
            Key::Down => 0x3E,
            Key::Right => 0x3F,
            Key::Power => 0x40,
            Key::F1 => 0x41,
            Key::F2 => 0x42,
            Key::F3 => 0x43,
            Key::F4 => 0x44,
            Key::F5 => 0x45,
            Key::F6 => 0x46,
            Key::F7 => 0x47,
            Key::F8 => 0x48,
            Key::F9 => 0x49,
            Key::F10 => 0x4A,
            Key::F11 => 0x4B,
            Key::F12 => 0x4C,
            Key::Screenshot => 0x4D,
            Key::Insert => 0x4E,
            Key::Next => 0x4F,
            Key::Microphone => 0x50,
            Key::Web => 0x51,
            Key::Email => 0x52,
            Key::Player => 0x59,
            Key::Calculator => 0x5B,
            Key::Del => 0x5C,
            Key::Prev => 0x5D,
            Key::Airplane => 0x5E,
            Key::Scroll => 0x5F,
            Key::Display => 0x60,
            Key::Han => 0x63,
            Key::Hanja => 0x64,
            Key::Kana => 0x65,
            Key::Convert => 0x67,
            Key::NonConvert => 0x68,
            Key::NumEnter => 0x69,
            Key::Mute => 0x6B,
            Key::Quieter => 0x6C,
            Key::Louder => 0x6D,
            Key::Dimmer => 0x6E,
            Key::Brighter => 0x6F,
            Key::Num => 0x70,
            Key::Menu => 0x71,
            Key::Break => 0x72,
            Key::Clear => 0x73,
            Key::Pause => 0x74,
            Key::PageUp => 0x76,
            Key::Play => 0x79,
            Key::Stop => 0x7A,
            Key::Home => 0x7D,
            Key::PageDown => 0x7E,
            Key::End => 0x7F,
        }
    }

    /// The stable small number of this key.
    #[verifier::when_used_as_spec(spec_code)]
    pub fn code(self) -> (c: u8)
        ensures
            c == self.spec_code(),
            c < 128,
    {
        match self {
            Key::Esc => 0x00,
            Key::One => 0x01,
            Key::Two => 0x02,
            Key::Three => 0x03,
            Key::Four => 0x04,
            Key::Five => 0x05,
            Key::Six => 0x06,
            Key::Seven => 0x07,
            Key::Eight => 0x08,
            Key::Nine => 0x09,
            Key::Zero => 0x0A,
            Key::Minus => 0x0B,
            Key::Equal => 0x0C,
            Key::Backslash => 0x0D,
            Key::Backtick => 0x0E,
            Key::Tab => 0x0F,
            Key::Q => 0x10,
            Key::W => 0x11,
            Key::E => 0x12,
            Key::R => 0x13,
            Key::T => 0x14,
            Key::Y => 0x15,
            Key::U => 0x16,
            Key::I => 0x17,
            Key::O => 0x18,
            Key::P => 0x19,
            Key::BracketOpen => 0x1A,
            Key::BracketClose => 0x1B,
            Key::Delete => 0x1C,
            Key::Caps => 0x1D,
            Key::A => 0x1E,
            Key::S => 0x1F,
            Key::D => 0x20,
            Key::F => 0x21,
            Key::G => 0x22,
            Key::H => 0x23,
            Key::J => 0x24,
            Key::K => 0x25,
            Key::L => 0x26,
            Key::Semicolon => 0x27,
            Key::Apostrophe => 0x28,
            Key::Enter => 0x29,
            Key::LShift => 0x2A,
            Key::Z => 0x2B,
            Key::X => 0x2C,
            Key::C => 0x2D,
            Key::V => 0x2E,
            Key::B => 0x2F,
            Key::N => 0x30,
            Key::M => 0x31,
            Key::Comma => 0x32,
            Key::Period => 0x33,
            Key::Slash => 0x34,
            Key::RShift => 0x35,
            Key::Up => 0x36,
            Key::LCtrl => 0x37,
            Key::LAlt => 0x38,
            Key::Space => 0x39,
            Key::Thumb => 0x3A,
            Key::RAlt => 0x3B,
            Key::RCtrl => 0x3C,
            Key::Left => 0x3D,
            Key::Down => 0x3E,
            Key::Right => 0x3F,
            Key::Power => 0x40,
            Key::F1 => 0x41,
            Key::F2 => 0x42,
            Key::F3 => 0x43,
            Key::F4 => 0x44,
            Key::F5 => 0x45,
            Key::F6 => 0x46,
            Key::F7 => 0x47,
            Key::F8 => 0x48,
            Key::F9 => 0x49,
            Key::F10 => 0x4A,
            Key::F11 => 0x4B,
            Key::F12 => 0x4C,
            Key::Screenshot => 0x4D,
            Key::Insert => 0x4E,
            Key::Next => 0x4F,
            Key::Microphone => 0x50,
            Key::Web => 0x51,
            Key::Email => 0x52,
            Key::Player => 0x59,
            Key::Calculator => 0x5B,
            Key::Del => 0x5C,
            Key::Prev => 0x5D,
            Key::Airplane => 0x5E,
            Key::Scroll => 0x5F,
            Key::Display => 0x60,
            Key::Han => 0x63,
            Key::Hanja => 0x64,
            Key::Kana => 0x65,
            Key::Convert => 0x67,
            Key::NonConvert => 0x68,
            Key::NumEnter => 0x69,
            Key::Mute => 0x6B,
            Key::Quieter => 0x6C,
            Key::Louder => 0x6D,
            Key::Dimmer => 0x6E,
            Key::Brighter => 0x6F,
            Key::Num => 0x70,
            Key::Menu => 0x71,
            Key::Break => 0x72,
            Key::Clear => 0x73,
            Key::Pause => 0x74,
            Key::PageUp => 0x76,
            Key::Play => 0x79,
            Key::Stop => 0x7A,
            Key::Home => 0x7D,
            Key::PageDown => 0x7E,
            Key::End => 0x7F,
        }
    }

    /// Two keys with one number are one key.
    pub proof fn lemma_code_injective(a: Key, b: Key)
        requires
            a.spec_code() == b.spec_code(),
        ensures
            a == b,
    {
    }
}

} // verus!
