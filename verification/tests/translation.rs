use human::translate::{
    button, cancels_default, is_printing, key_modifier, keycode, ptr_modifier, translate,
    wheel_unit, LINE_PIXELS,
};
use human::{Btn, Key, Mod, ModProbe, WheelUnit};

fn probe(ctrl: bool, meta: bool, alt: bool, shift: bool) -> ModProbe {
    ModProbe { ctrl, meta, alt, shift }
}

fn idle() -> ModProbe {
    probe(false, false, false, false)
}

const TABLE: [&str; 105] = [
    "Digit0", "Numpad0", "Digit1", "Numpad1", "Digit2", "Numpad2", "Digit3", "Numpad3", "Digit4",
    "Numpad4", "Digit5", "Numpad5", "Digit6", "Numpad6", "Digit7", "Numpad7", "Digit8", "Numpad8",
    "Digit9", "Numpad9", "Enter", "NumpadEnter", "KeyA", "KeyB", "KeyC", "KeyD", "KeyE", "KeyF",
    "KeyG", "KeyH", "KeyI", "KeyJ", "KeyK", "KeyL", "KeyM", "KeyN", "KeyO", "KeyP", "KeyQ", "KeyR",
    "KeyS", "KeyT", "KeyU", "KeyV", "KeyW", "KeyX", "KeyY", "KeyZ", "ArrowUp", "ArrowDown",
    "ArrowLeft", "ArrowRight", "Space", "Tab", "Backspace", "Delete", "Escape", "Minus", "Equal",
    "Insert", "PageUp", "PageDown", "Home", "End", "Backslash", "BracketLeft", "BracketRight",
    "Quote", "Semicolon", "Slash", "Period", "NumpadDecimal", "Comma", "Pause", "ContextMenu",
    "Backquote", "F1", "F2", "F3", "F4", "F5", "F6", "F7", "F8", "F9", "F10", "F11", "F12",
    "NumpadDivide", "NumpadMultiply", "NumpadSubtract", "NumpadAdd", "NumLock", "CapsLock",
    "ScrollLock", "ShiftLeft", "ShiftRight", "ControlLeft", "MetaLeft", "OSLeft", "ControlRight",
    "MetaRight", "OSRight", "AltLeft", "AltRight",
];

#[test]
fn every_code_of_the_table_translates() {
    for code in TABLE.iter() {
        assert!(keycode(code).is_some(), "{}", code);
        assert!(translate(code, idle()).is_some(), "{}", code);
        assert!(translate(code, probe(true, true, true, true)).is_some(), "{}", code);
    }
}

#[test]
fn codes_outside_the_table_are_dropped() {
    for code in ["", "keya", "KEYA", "KeyA ", " KeyA", "Key", "Digit", "Digit10", "F13", "Fn",
        "IntlBackslash", "Lang1", "NumpadEqual", "Numpad", "Unidentified", "KeyÄ", "キー"]
    {
        assert_eq!(keycode(code), None, "{:?}", code);
        assert_eq!(translate(code, probe(true, false, false, true)), None, "{:?}", code);
    }
}

#[test]
fn letters_and_digits() {
    assert_eq!(keycode("KeyA"), Some((Key::A, Mod::new())));
    assert_eq!(keycode("KeyM"), Some((Key::M, Mod::new())));
    assert_eq!(keycode("KeyZ"), Some((Key::Z, Mod::new())));
    assert_eq!(keycode("Digit0"), Some((Key::Zero, Mod::new())));
    assert_eq!(keycode("Numpad0"), Some((Key::Zero, Mod::new())));
    assert_eq!(keycode("Digit1"), Some((Key::One, Mod::new())));
    assert_eq!(keycode("Digit9"), Some((Key::Nine, Mod::new())));
    assert_eq!(keycode("Numpad9"), Some((Key::Nine, Mod::new())));
}

#[test]
fn navigation_and_editing_keys() {
    assert_eq!(keycode("Enter"), Some((Key::Enter, Mod::new())));
    assert_eq!(keycode("NumpadEnter"), Some((Key::Enter, Mod::new())));
    assert_eq!(keycode("ArrowUp"), Some((Key::Up, Mod::new())));
    assert_eq!(keycode("ArrowDown"), Some((Key::Down, Mod::new())));
    assert_eq!(keycode("ArrowLeft"), Some((Key::Left, Mod::new())));
    assert_eq!(keycode("ArrowRight"), Some((Key::Right, Mod::new())));
    assert_eq!(keycode("Backspace"), Some((Key::Delete, Mod::new())));
    assert_eq!(keycode("Delete"), Some((Key::Del, Mod::new())));
    assert_eq!(keycode("Escape"), Some((Key::Esc, Mod::new())));
    assert_eq!(keycode("Home"), Some((Key::Home, Mod::new())));
    assert_eq!(keycode("End"), Some((Key::End, Mod::new())));
    assert_eq!(keycode("PageUp"), Some((Key::PageUp, Mod::new())));
    assert_eq!(keycode("PageDown"), Some((Key::PageDown, Mod::new())));
    assert_eq!(keycode("Insert"), Some((Key::Insert, Mod::new())));
    assert_eq!(keycode("Tab"), Some((Key::Tab, Mod::new())));
    assert_eq!(keycode("Space"), Some((Key::Space, Mod::new())));
    assert_eq!(keycode("ContextMenu"), Some((Key::Menu, Mod::new())));
    assert_eq!(keycode("Pause"), Some((Key::Pause, Mod::new())));
}

#[test]
fn punctuation_keys() {
    assert_eq!(keycode("Minus"), Some((Key::Minus, Mod::new())));
    assert_eq!(keycode("Equal"), Some((Key::Equal, Mod::new())));
    assert_eq!(keycode("Backslash"), Some((Key::Backslash, Mod::new())));
    assert_eq!(keycode("BracketLeft"), Some((Key::BracketOpen, Mod::new())));
    assert_eq!(keycode("BracketRight"), Some((Key::BracketClose, Mod::new())));
    assert_eq!(keycode("Quote"), Some((Key::Apostrophe, Mod::new())));
    assert_eq!(keycode("Semicolon"), Some((Key::Semicolon, Mod::new())));
    assert_eq!(keycode("Slash"), Some((Key::Slash, Mod::new())));
    assert_eq!(keycode("Period"), Some((Key::Period, Mod::new())));
    assert_eq!(keycode("NumpadDecimal"), Some((Key::Period, Mod::new())));
    assert_eq!(keycode("Comma"), Some((Key::Comma, Mod::new())));
    assert_eq!(keycode("Backquote"), Some((Key::Backtick, Mod::new())));
}

#[test]
fn function_keys() {
    assert_eq!(keycode("F1"), Some((Key::F1, Mod::new())));
    assert_eq!(keycode("F2"), Some((Key::F2, Mod::new())));
    assert_eq!(keycode("F9"), Some((Key::F9, Mod::new())));
    assert_eq!(keycode("F10"), Some((Key::F10, Mod::new())));
    assert_eq!(keycode("F11"), Some((Key::F11, Mod::new())));
    assert_eq!(keycode("F12"), Some((Key::F12, Mod::new())));
}

#[test]
fn keypad_operators_imply_shift_where_the_main_block_needs_it() {
    assert_eq!(keycode("NumpadMultiply"), Some((Key::Eight, Mod::new().add_shift())));
    assert_eq!(keycode("NumpadAdd"), Some((Key::Equal, Mod::new().add_shift())));
    assert_eq!(keycode("NumpadDivide"), Some((Key::Slash, Mod::new())));
    assert_eq!(keycode("NumpadSubtract"), Some((Key::Minus, Mod::new())));
}

#[test]
fn locks_and_modifier_keys() {
    assert_eq!(keycode("NumLock"), Some((Key::Num, Mod::new())));
    assert_eq!(keycode("CapsLock"), Some((Key::Caps, Mod::new())));
    assert_eq!(keycode("ScrollLock"), Some((Key::Scroll, Mod::new())));
    assert_eq!(keycode("ShiftLeft"), Some((Key::LShift, Mod::new())));
    assert_eq!(keycode("ShiftRight"), Some((Key::RShift, Mod::new())));
    assert_eq!(keycode("ControlLeft"), Some((Key::LCtrl, Mod::new())));
    assert_eq!(keycode("MetaLeft"), Some((Key::LCtrl, Mod::new())));
    assert_eq!(keycode("OSLeft"), Some((Key::LCtrl, Mod::new())));
    assert_eq!(keycode("ControlRight"), Some((Key::RCtrl, Mod::new())));
    assert_eq!(keycode("MetaRight"), Some((Key::RCtrl, Mod::new())));
    assert_eq!(keycode("OSRight"), Some((Key::RCtrl, Mod::new())));
    assert_eq!(keycode("AltLeft"), Some((Key::LAlt, Mod::new())));
    assert_eq!(keycode("AltRight"), Some((Key::RAlt, Mod::new())));
}

#[test]
fn live_modifiers_join_the_implied_ones() {
    assert_eq!(translate("KeyA", idle()), Some((Key::A, Mod::new())));
    assert_eq!(
        translate("KeyA", probe(true, false, false, false)),
        Some((Key::A, Mod::new().add_ctrl()))
    );
    assert_eq!(
        translate("KeyA", probe(false, false, true, true)),
        Some((Key::A, Mod::new().add_alt().add_shift()))
    );
    assert_eq!(
        translate("NumpadMultiply", probe(false, false, true, false)),
        Some((Key::Eight, Mod::new().add_shift().add_alt()))
    );
    assert_eq!(
        translate("NumpadAdd", probe(false, false, false, true)),
        Some((Key::Equal, Mod::new().add_shift()))
    );
}

#[test]
fn control_and_meta_are_one_modifier() {
    let ctrl = translate("KeyC", probe(true, false, false, false));
    let meta = translate("KeyC", probe(false, true, false, false));
    let both = translate("KeyC", probe(true, true, false, false));
    assert_eq!(ctrl, Some((Key::C, Mod::new().add_ctrl())));
    assert_eq!(meta, ctrl);
    assert_eq!(both, ctrl);
}

#[test]
fn pointer_modifiers_come_from_the_probe_alone() {
    assert_eq!(ptr_modifier(idle()), Mod::new());
    assert_eq!(ptr_modifier(probe(true, false, false, false)), Mod::new().add_ctrl());
    assert_eq!(ptr_modifier(probe(false, true, false, false)), Mod::new().add_ctrl());
    assert_eq!(ptr_modifier(probe(false, false, true, false)), Mod::new().add_alt());
    assert_eq!(ptr_modifier(probe(false, false, false, true)), Mod::new().add_shift());
    let all = ptr_modifier(probe(true, true, true, true));
    assert!(all.ctrl() && all.alt() && all.shift() && !all.func());
}

#[test]
fn key_modifiers_are_added_and_system_modifiers_reported() {
    let mut mods = Mod::new().add_shift();
    assert!(!key_modifier(idle(), &mut mods));
    assert_eq!(mods, Mod::new().add_shift());

    let mut mods = Mod::new();
    assert!(!key_modifier(probe(false, false, false, true), &mut mods));
    assert_eq!(mods, Mod::new().add_shift());

    let mut mods = Mod::new();
    assert!(key_modifier(probe(true, false, false, false), &mut mods));
    assert_eq!(mods, Mod::new().add_ctrl());

    let mut mods = Mod::new();
    assert!(key_modifier(probe(false, true, false, false), &mut mods));
    assert_eq!(mods, Mod::new().add_ctrl());

    let mut mods = Mod::new().add_func();
    assert!(key_modifier(probe(false, false, true, false), &mut mods));
    assert_eq!(mods, Mod::new().add_func().add_alt());
}

#[test]
fn printing_keys() {
    for code in ["Digit0", "Digit9", "Numpad5", "NumpadEnter", "NumpadAdd", "KeyA", "KeyZ",
        "Space", "Minus", "Equal", "Backslash", "BracketRight", "BracketLeft", "Quote",
        "Semicolon", "Slash", "Period", "Comma", "Backquote", "Digit", "Key", "Numpad",
        "KeyÄ", "DigitX"]
    {
        assert!(is_printing(code), "{}", code);
    }
}

#[test]
fn keys_that_do_not_print() {
    for code in ["", "Enter", "Tab", "Escape", "Backspace", "Delete", "ArrowUp", "F1", "F12",
        "ShiftLeft", "ControlLeft", "AltRight", "MetaLeft", "CapsLock", "NumLock", "Home",
        "PageDown", "ContextMenu", "space", "Ke", "Digi", "Numpa", "xKeyA", "Spacebar",
        "Period "]
    {
        assert!(!is_printing(code), "{}", code);
    }
}

#[test]
fn default_is_cancelled_unless_the_key_prints_plainly() {
    assert!(!cancels_default("KeyA", idle()));
    assert!(!cancels_default("KeyA", probe(false, false, false, true)));
    assert!(cancels_default("KeyA", probe(true, false, false, false)));
    assert!(cancels_default("KeyA", probe(false, true, false, false)));
    assert!(cancels_default("KeyA", probe(false, false, true, false)));
    assert!(cancels_default("Tab", idle()));
    assert!(cancels_default("F5", idle()));
    assert!(cancels_default("Unidentified", idle()));
    assert!(!cancels_default("Space", idle()));
}

#[test]
fn pointer_buttons() {
    assert_eq!(button(0), Some(Btn::Left));
    assert_eq!(button(1), Some(Btn::Middle));
    assert_eq!(button(2), Some(Btn::Right));
    assert_eq!(button(3), Some(Btn::Back));
    assert_eq!(button(4), Some(Btn::Next));
    assert_eq!(button(5), None);
    assert_eq!(button(-1), None);
    assert_eq!(button(i16::MAX), None);
    assert_eq!(button(i16::MIN), None);
}

#[test]
fn wheel_units() {
    assert_eq!(wheel_unit(0), Some(WheelUnit::Pixel));
    assert_eq!(wheel_unit(1), Some(WheelUnit::Line));
    assert_eq!(wheel_unit(2), Some(WheelUnit::Page));
    assert_eq!(wheel_unit(3), None);
    assert_eq!(wheel_unit(u32::MAX), None);
    assert_eq!(LINE_PIXELS, 16);
}
