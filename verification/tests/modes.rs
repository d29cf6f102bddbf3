use human::mode::mode;
use human::{mode_gamepad, mode_keyboard, mode_pointer, set_mode, Mode, Modes};

#[test]
fn modes_at_the_start() {
    let modes = Modes::new();
    assert_eq!(mode_keyboard(&modes), Mode::Text);
    assert_eq!(mode_gamepad(&modes), Mode::Game);
    assert_eq!(mode_pointer(&modes), Mode::Ui);
    let modes = Modes::default();
    assert_eq!(mode_keyboard(&modes), Mode::Text);
    assert_eq!(mode_gamepad(&modes), Mode::Game);
    assert_eq!(mode_pointer(&modes), Mode::Ui);
}

#[test]
fn set_modes_are_read_back() {
    let mut modes = Modes::new();
    set_mode(&mut modes, Mode::Game, Mode::Ui, Mode::Text);
    assert_eq!(mode_keyboard(&modes), Mode::Game);
    assert_eq!(mode_gamepad(&modes), Mode::Ui);
    assert_eq!(mode_pointer(&modes), Mode::Text);
    set_mode(&mut modes, Mode::Ui, Mode::Ui, Mode::Ui);
    assert_eq!(mode_keyboard(&modes), Mode::Ui);
    assert_eq!(mode_gamepad(&modes), Mode::Ui);
    assert_eq!(mode_pointer(&modes), Mode::Ui);
}

#[test]
fn mode_numbers() {
    assert_eq!(Mode::Ui.code(), 0);
    assert_eq!(Mode::Game.code(), 1);
    assert_eq!(Mode::Text.code(), 2);
    assert_eq!(mode(0), Mode::Ui);
    assert_eq!(mode(1), Mode::Game);
    assert_eq!(mode(2), Mode::Text);
}
