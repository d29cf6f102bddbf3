use human::{
    arbitrate, Arrival, Btn, GameInput, Input, Key, ListenError, Listener, Mod, ModProbe,
    PadEvent, Source,
};

type Events = Listener<&'static str, f32>;

fn idle() -> ModProbe {
    ModProbe { ctrl: false, meta: false, alt: false, shift: false }
}

fn with_pads(names: &[&'static str]) -> Events {
    let mut listener = Listener::new();
    for name in names {
        listener.step(Arrival::Connect(*name));
    }
    listener
}

#[test]
fn end_to_end_scenario() {
    let mut listener = Events::new();
    listener.key("KeyA", idle(), true);
    assert_eq!(listener.step(Arrival::Platform), Some(Input::Key(Mod::new(), Key::A, true)));
    listener.key("KeyA", idle(), true);
    assert_eq!(listener.step(Arrival::Platform), None);
    listener.key("KeyA", idle(), false);
    assert_eq!(listener.step(Arrival::Platform), Some(Input::Key(Mod::new(), Key::A, false)));
    assert_eq!(listener.step(Arrival::Platform), None);
}

#[test]
fn home_button_exit() {
    let mut listener = with_pads(&["red", "green"]);
    assert_eq!(listener.step(Arrival::Pad(0, PadEvent::Home(true))), Some(Input::Exit));
    assert_eq!(listener.step(Arrival::Pad(1, PadEvent::Home(true))), None);
    assert_eq!(listener.controller(0), Some(&"red"));
    assert_eq!(listener.controller(1), Some(&"green"));

    listener.set_renumbering(true);
    assert_eq!(listener.step(Arrival::Pad(0, PadEvent::Home(true))), None);
    assert_eq!(listener.controller(0), Some(&"green"));
    assert_eq!(listener.controller(1), Some(&"red"));
    assert_eq!(listener.step(Arrival::Pad(1, PadEvent::Home(true))), None);
    assert_eq!(listener.controller(0), Some(&"green"));
    assert_eq!(listener.controller(1), Some(&"red"));
}

#[test]
fn release_of_the_home_button_delivers_nothing() {
    let mut listener = with_pads(&["red"]);
    assert_eq!(listener.step(Arrival::Pad(0, PadEvent::Home(false))), None);
    listener.set_renumbering(true);
    assert_eq!(listener.step(Arrival::Pad(0, PadEvent::Home(false))), None);
    assert_eq!(listener.controller(0), Some(&"red"));
}

#[test]
fn only_one_consumer_at_a_time() {
    let mut listener = Events::new();
    assert_eq!(listener.begin(), Ok(()));
    assert_eq!(listener.begin(), Err(ListenError::InUse));
    assert_eq!(listener.begin(), Err(ListenError::InUse));
    listener.finish();
    assert_eq!(listener.begin(), Ok(()));
    listener.finish();
    listener.finish();
    assert_eq!(listener.begin(), Ok(()));
}

#[test]
fn hub_goes_first() {
    assert_eq!(arbitrate(true, Some(3), true), Some(Source::Hub));
    assert_eq!(arbitrate(true, None, false), Some(Source::Hub));
    assert_eq!(arbitrate(false, Some(3), true), Some(Source::Pad(3)));
    assert_eq!(arbitrate(false, Some(0), false), Some(Source::Pad(0)));
    assert_eq!(arbitrate(false, None, true), Some(Source::Platform));
    assert_eq!(arbitrate(false, None, false), None);
}

#[test]
fn unknown_keys_leave_no_event() {
    let mut listener = Events::new();
    assert!(listener.key("Unidentified", idle(), true));
    assert!(!listener.has_pending());
    assert_eq!(listener.take(), None);
    listener.key("KeyB", idle(), true);
    listener.key("Unidentified", idle(), true);
    assert_eq!(listener.take(), Some(Input::Key(Mod::new(), Key::B, true)));
}

#[test]
fn key_events_carry_the_live_modifiers() {
    let mut listener = Events::new();
    let probe = ModProbe { ctrl: false, meta: true, alt: false, shift: true };
    assert!(listener.key("KeyS", probe, true));
    assert_eq!(
        listener.take(),
        Some(Input::Key(Mod::new().add_ctrl().add_shift(), Key::S, true))
    );
    assert!(!listener.key("NumpadAdd", idle(), true));
    assert_eq!(listener.take(), Some(Input::Key(Mod::new().add_shift(), Key::Equal, true)));
    // The keypad's plus is the key of the equal sign: it is held now.
    listener.key("Equal", idle(), true);
    assert_eq!(listener.take(), None);
}

#[test]
fn a_second_event_replaces_the_one_that_waits() {
    let mut listener = Events::new();
    listener.key("KeyA", idle(), true);
    listener.key("KeyB", idle(), true);
    assert!(listener.has_pending());
    assert_eq!(listener.take(), Some(Input::Key(Mod::new(), Key::B, true)));
    assert!(!listener.has_pending());
    // The press of A was taken in, though its event was lost.
    listener.key("KeyA", idle(), true);
    assert_eq!(listener.take(), None);

    assert_eq!(listener.offer(Input::PointerX(0.25)), None);
    assert_eq!(listener.offer(Input::PointerY(0.5)), Some(Input::PointerX(0.25)));
    assert_eq!(listener.offer(Input::Text('x')), Some(Input::PointerY(0.5)));
    assert_eq!(listener.take(), Some(Input::Text('x')));
    assert_eq!(listener.take(), None);
}

#[test]
fn clicks() {
    let mut listener = Events::new();
    assert!(listener.click(0, idle(), true));
    assert_eq!(listener.take(), Some(Input::Click(Mod::new(), Btn::Left, true)));
    assert!(listener.click(0, idle(), false));
    assert_eq!(listener.take(), Some(Input::Click(Mod::new(), Btn::Left, false)));
    let probe = ModProbe { ctrl: true, meta: false, alt: true, shift: false };
    assert!(listener.click(2, probe, true));
    assert_eq!(
        listener.take(),
        Some(Input::Click(Mod::new().add_ctrl().add_alt(), Btn::Right, true))
    );
    assert!(listener.click(1, idle(), true));
    assert_eq!(listener.take(), Some(Input::Click(Mod::new(), Btn::Middle, true)));
    assert!(listener.click(3, idle(), true));
    assert_eq!(listener.take(), Some(Input::Click(Mod::new(), Btn::Back, true)));
    assert!(listener.click(4, idle(), true));
    assert_eq!(listener.take(), Some(Input::Click(Mod::new(), Btn::Next, true)));
    assert!(!listener.click(5, idle(), true));
    assert_eq!(listener.take(), None);
    // Clicks are not debounced.
    assert!(listener.click(0, idle(), true));
    assert!(listener.click(0, idle(), true));
    assert_eq!(listener.take(), Some(Input::Click(Mod::new(), Btn::Left, true)));
}

#[test]
fn controllers_come_and_go() {
    let mut listener = Events::new();
    assert_eq!(listener.step(Arrival::Connect("red")), Some(Input::Controller(0, true)));
    assert_eq!(listener.connect("green"), Input::Controller(1, true));
    assert_eq!(listener.connect("blue"), Input::Controller(2, true));
    assert_eq!(
        listener.step(Arrival::Pad(1, PadEvent::Disconnect)),
        Some(Input::Controller(1, false))
    );
    assert_eq!(listener.controller(1), None);
    assert_eq!(listener.step(Arrival::Pad(1, PadEvent::Disconnect)), None);
    assert_eq!(listener.step(Arrival::Pad(7, PadEvent::Disconnect)), None);
    assert_eq!(listener.step(Arrival::Connect("white")), Some(Input::Controller(1, true)));
    assert_eq!(listener.controller(0), Some(&"red"));
    assert_eq!(listener.controller(1), Some(&"white"));
    assert_eq!(listener.controller(2), Some(&"blue"));
    assert_eq!(listener.controller(3), None);
}

#[test]
fn game_events_name_their_slot() {
    let mut listener = with_pads(&["red", "green"]);
    assert_eq!(
        listener.step(Arrival::Pad(1, PadEvent::Game(GameInput::A(true)))),
        Some(Input::Game(1, GameInput::A(true)))
    );
    assert_eq!(
        listener.pad(0, PadEvent::Game(GameInput::JoyX(-0.5))),
        Some(Input::Game(0, GameInput::JoyX(-0.5)))
    );
    assert_eq!(listener.pad(2, PadEvent::Game(GameInput::Menu)), None);
    listener.pad(0, PadEvent::Disconnect);
    assert_eq!(listener.pad(0, PadEvent::Game(GameInput::Menu)), None);
    assert_eq!(listener.pad(0, PadEvent::Home(true)), None);
    assert_eq!(
        listener.pad(1, PadEvent::Game(GameInput::Slot(3))),
        Some(Input::Game(1, GameInput::Slot(3)))
    );
}

#[test]
fn renumbering_through_the_listener() {
    let mut listener = with_pads(&["red", "green", "blue"]);
    listener.pad(1, PadEvent::Disconnect);
    assert_eq!(listener.rumble_targets(None), vec![0, 2]);
    assert_eq!(listener.rumble_targets(Some(1)), Vec::<usize>::new());
    listener.set_renumbering(true);
    assert_eq!(listener.controller(0), Some(&"red"));
    assert_eq!(listener.controller(1), Some(&"blue"));
    assert_eq!(listener.controller(2), None);
    assert_eq!(listener.rumble_targets(None), vec![0, 1]);
    assert_eq!(
        listener.step(Arrival::Pad(0, PadEvent::Disconnect)),
        Some(Input::Controller(0, false))
    );
    assert_eq!(listener.controller(0), Some(&"blue"));
    assert_eq!(listener.controller(1), None);
    *listener.controller_mut(0).unwrap() = "navy";
    assert_eq!(listener.controller(0), Some(&"navy"));
    assert!(listener.controller_mut(1).is_none());
}

#[test]
fn keys_and_controllers_do_not_disturb_each_other() {
    let mut listener = with_pads(&["red"]);
    listener.key("KeyA", idle(), true);
    assert_eq!(listener.step(Arrival::Pad(0, PadEvent::Home(true))), Some(Input::Exit));
    assert!(listener.has_pending());
    assert_eq!(listener.step(Arrival::Connect("green")), Some(Input::Controller(1, true)));
    assert_eq!(listener.step(Arrival::Platform), Some(Input::Key(Mod::new(), Key::A, true)));
    assert_eq!(listener.begin(), Ok(()));
    listener.key("KeyA", idle(), false);
    assert_eq!(listener.begin(), Err(ListenError::InUse));
    assert_eq!(listener.take(), Some(Input::Key(Mod::new(), Key::A, false)));
}
