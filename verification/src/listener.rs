//! The merging of the input sources into one stream of events.
//!
//! Three sources feed the listener: the hub, which announces new
//! controllers; the controllers in their slots; and the platform, whose
//! callbacks leave at most one event waiting. The listener decides which
//! source is served first and what, if anything, an arrival delivers. The
//! waiting itself is the caller's.

use vstd::prelude::*;
use crate::debounce::{pressed, released, KeyState};
use crate::gamepad::GameInput;
use crate::input::Input;
use crate::key::{Key, Mod};
use crate::slots::{
    first_free, present, spec_connect, spec_disconnect, spec_home, spec_home_slots, Home,
    SlotTable,
};
use crate::translate::{
    button, cancels_default, ptr_modifier, spec_button, spec_cancels_default, spec_key_modifier,
    spec_translate, translate, ModProbe,
};

verus! {

/// Why a consumer is turned away.
#[derive(Copy, Clone, Debug, PartialEq, Eq, Structural)]
pub enum ListenError {
    /// Another consumer is waiting for the next event.
    InUse,
}

/// What a controller reports.
#[derive(Debug, PartialEq)]
pub enum PadEvent<F> {
    /// The controller was unplugged.
    Disconnect,
    /// The home button was pressed (true) or released (false).
    Home(bool),
    /// The forward (start) button was pressed or released.
    Menu(bool),
    /// The back (select) button was pressed or released.
    Pause(bool),
    /// Another button or an axis changed.
    Game(GameInput<F>),
}

/// A source of events.
#[derive(Copy, Clone, Debug, PartialEq, Eq, Structural)]
pub enum Source {
    /// The hub, which announces new controllers.
    Hub,
    /// The controller in a slot.
    Pad(usize),
    /// The callbacks of the platform.
    Platform,
}

/// What a source has handed over.
#[derive(Debug)]
pub enum Arrival<H, F> {
    /// The hub announced a new controller.
    Connect(H),
    /// The controller in a slot reported an event.
    Pad(usize, PadEvent<F>),
    /// The platform has left an event waiting.
    Platform,
}

/// The source to serve among those that are ready. The hub goes first: a
/// controller must have its slot before any input is read that names the
/// slot. Then come the controllers, then the platform.
pub open spec fn spec_arbitrate(hub: bool, pad: Option<usize>, platform: bool) -> Option<Source> {
    if hub {
        Some(Source::Hub)
    } else if pad is Some {
        Some(Source::Pad(pad->0))
    } else if platform {
        Some(Source::Platform)
    } else {
        None
    }
}

/// Chooses the source to serve: `hub` and `platform` say whether that source
/// is ready, `pad` names a slot whose controller is ready. Where no source is
/// ready there is none to serve, and the consumer waits.
pub fn arbitrate(hub: bool, pad: Option<usize>, platform: bool) -> (source: Option<Source>)
    ensures
        source == spec_arbitrate(hub, pad, platform),
{
    if hub {
        Some(Source::Hub)
    } else if let Some(slot) = pad {
        Some(Source::Pad(slot))
    } else if platform {
        Some(Source::Platform)
    } else {
        None
    }
}

/// What a listener holds, as a value of mathematics.
#[verifier::ext_equal]
pub struct ListenerView<H, F> {
    /// The slots of the controllers.
    pub slots: Seq<Option<H>>,
    /// Whether the slots are renumbered when a controller leaves.
    pub renumbering: bool,
    /// The keys that are held down.
    pub held: Set<Key>,
    /// The event of the platform that waits to be delivered.
    pub pending: Option<Input<F>>,
    /// Whether a consumer waits for the next event.
    pub polling: bool,
}

impl<H, F> ListenerView<H, F> {
    /// The listener after a key event of the platform. A code that is not
    /// known, and a transition that changes nothing, leave no event; any
    /// other replaces the event that waits.
    pub open spec fn key(self, code: Seq<char>, probe: ModProbe, down: bool) -> Self {
        match spec_translate(code, probe) {
            Some((key, mods)) => {
                let (held, changed) = if down {
                    pressed(self.held, key)
                } else {
                    released(self.held, key)
                };
                ListenerView {
                    held,
                    pending: if changed {
                        Some(Input::Key(mods, key, down))
                    } else {
                        self.pending
                    },
                    ..self
                }
            },
            None => self,
        }
    }

    /// The listener after a button event of the pointer. A button that is
    /// not known leaves no event.
    pub open spec fn click(self, native: i16, probe: ModProbe, down: bool) -> Self {
        match spec_button(native) {
            Some(btn) => ListenerView {
                pending: Some(Input::Click(spec_key_modifier(Mod::new(), probe), btn, down)),
                ..self
            },
            None => self,
        }
    }

    /// The listener after the platform has left `input`: it replaces the
    /// event that waits.
    pub open spec fn offer(self, input: Input<F>) -> Self {
        ListenerView { pending: Some(input), ..self }
    }

    /// The listener after a controller has taken the slot `slot`.
    pub open spec fn connect(self, slot: int, handle: H) -> Self {
        ListenerView { slots: spec_connect(self.slots, slot, handle), ..self }
    }

    /// The listener after an event of the controller in `slot`.
    pub open spec fn pad(self, slot: int, event: PadEvent<F>) -> Self {
        match event {
            PadEvent::Disconnect => ListenerView {
                slots: spec_disconnect(self.slots, self.renumbering, slot),
                ..self
            },
            PadEvent::Home(true) => ListenerView {
                slots: spec_home_slots(self.slots, self.renumbering, slot),
                ..self
            },
            _ => self,
        }
    }

    /// What an event of the controller in `slot` delivers. A slot without a
    /// controller delivers nothing. The home button delivers the request to
    /// leave where the slot rules give it that meaning, and nothing else. The
    /// forward and back buttons deliver their event when they are pressed,
    /// and nothing when they are released.
    pub open spec fn pad_input(self, slot: usize, event: PadEvent<F>) -> Option<Input<F>> {
        if !present(self.slots, slot as int) {
            None
        } else {
            match event {
                PadEvent::Disconnect => Some(Input::Controller(slot, false)),
                PadEvent::Home(down) => if down && spec_home(
                    self.slots,
                    self.renumbering,
                    slot as int,
                ) == Home::Exit {
                    Some(Input::Exit)
                } else {
                    None
                },
                PadEvent::Menu(down) => if down {
                    Some(Input::Game(slot, GameInput::Menu))
                } else {
                    None
                },
                PadEvent::Pause(down) => if down {
                    Some(Input::Game(slot, GameInput::Pause))
                } else {
                    None
                },
                PadEvent::Game(input) => Some(Input::Game(slot, input)),
            }
        }
    }

    /// The home button delivers the request to leave exactly when it is
    /// pressed during gameplay on the first slot, and a controller sits
    /// there. During gameplay it changes no slot; while renumbering it moves
    /// its controller to the back.
    pub proof fn lemma_home(self, slot: usize)
        ensures
            self.pad_input(slot, PadEvent::Home(true)) == Some(Input::<F>::Exit) <==> (
            !self.renumbering && slot == 0 && present(self.slots, 0)),
            self.pad_input(slot, PadEvent::Home(false)) is None,
            self.pad(slot as int, PadEvent::Home(false)) == self,
            !self.renumbering ==> self.pad(slot as int, PadEvent::Home(true)) == self,
            self.renumbering && present(self.slots, slot as int) ==> self.pad(
                slot as int,
                PadEvent::Home(true),
            ).slots == self.slots.remove(slot as int).push(self.slots[slot as int]),
    {
    }
}

/// The decisions of the single place at which an application waits for input.
pub struct Listener<H, F> {
    slots: SlotTable<H>,
    keys: KeyState,
    pending: Option<Input<F>>,
    polling: bool,
}

impl<H, F> View for Listener<H, F> {
    type V = ListenerView<H, F>;

    closed spec fn view(&self) -> ListenerView<H, F> {
        ListenerView {
            slots: self.slots@,
            renumbering: self.slots.renumbering(),
            held: self.keys@,
            pending: self.pending,
            polling: self.polling,
        }
    }
}

impl<H, F> Listener<H, F> {
    /// A listener without controllers, keys or events, for gameplay, on
    /// which nobody waits.
    pub fn new() -> (listener: Listener<H, F>)
        ensures
            listener@ == (ListenerView::<H, F> {
                slots: Seq::empty(),
                renumbering: false,
                held: Set::empty(),
                pending: None,
                polling: false,
            }),
    {
        Listener { slots: SlotTable::new(), keys: KeyState::new(), pending: None, polling: false }
    }

    /// Registers the consumer that is about to wait. Only one may wait at a
    /// time: while one does, another is turned away and nothing changes.
    pub fn begin(&mut self) -> (admitted: Result<(), ListenError>)
        ensures
            old(self)@.polling ==> admitted == Err::<(), ListenError>(ListenError::InUse)
                && final(self)@ == old(self)@,
            !old(self)@.polling ==> admitted is Ok && final(self)@ == (ListenerView {
                polling: true,
                ..old(self)@
            }),
    {
        if self.polling {
            Err(ListenError::InUse)
        } else {
            self.polling = true;
            Ok(())
        }
    }

    /// Releases the place of the consumer: when its wait has ended with an
    /// event, and when it was given up before one came.
    pub fn finish(&mut self)
        ensures
            final(self)@ == (ListenerView { polling: false, ..old(self)@ }),
    {
        self.polling = false;
    }

    /// Whether an event of the platform waits to be delivered.
    pub fn has_pending(&self) -> (waiting: bool)
        ensures
            waiting == self@.pending is Some,
    {
        self.pending.is_some()
    }

    /// Takes in a key event of the platform: `code` names the key, `probe`
    /// has the live modifiers, `down` tells a press from a release. The
    /// result tells whether the caller has to cancel the platform's default
    /// handling of the event.
    pub fn key(&mut self, code: &str, probe: ModProbe, down: bool) -> (cancel: bool)
        ensures
            final(self)@ == old(self)@.key(code@, probe, down),
            cancel == spec_cancels_default(code@, probe),
    {
        if let Some((key, mods)) = translate(code, probe) {
            let changed = if down {
                self.keys.press(key)
            } else {
                self.keys.release(key)
            };
            if changed {
                self.pending = Some(Input::Key(mods, key, down));
            }
        }
        cancels_default(code, probe)
    }

    /// Takes in a button event of the pointer. The result tells whether the
    /// button is known, and so whether an event waits because of it.
    pub fn click(&mut self, native: i16, probe: ModProbe, down: bool) -> (known: bool)
        ensures
            final(self)@ == old(self)@.click(native, probe, down),
            known == spec_button(native) is Some,
    {
        match button(native) {
            Some(btn) => {
                self.pending = Some(Input::Click(ptr_modifier(probe), btn, down));
                true
            },
            None => false,
        }
    }

    /// Takes in an event that the platform has made itself: text, a movement
    /// of the pointer, a scroll or a touch. It replaces the event that waits,
    /// which is returned.
    pub fn offer(&mut self, input: Input<F>) -> (lost: Option<Input<F>>)
        ensures
            final(self)@ == old(self)@.offer(input),
            lost == old(self)@.pending,
    {
        let lost = self.pending.take();
        self.pending = Some(input);
        lost
    }

    /// Takes the event of the platform that waits, if there is one.
    pub fn take(&mut self) -> (input: Option<Input<F>>)
        ensures
            input == old(self)@.pending,
            final(self)@ == (ListenerView { pending: None, ..old(self)@ }),
    {
        self.pending.take()
    }

    /// Gives a new controller its slot and delivers the news of it.
    pub fn connect(&mut self, handle: H) -> (input: Input<F>)
        ensures
            input matches Input::Controller(slot, true) && first_free(old(self)@.slots, slot as int)
                && final(self)@ == old(self)@.connect(slot as int, handle),
    {
        let slot = self.slots.connect(handle);
        Input::Controller(slot, true)
    }

    /// Takes in an event of the controller in a slot, and returns what it
    /// delivers. A controller that was unplugged leaves the table.
    pub fn pad(&mut self, slot: usize, event: PadEvent<F>) -> (input: Option<Input<F>>)
        ensures
            final(self)@ == old(self)@.pad(slot as int, event),
            input == old(self)@.pad_input(slot, event),
    {
        match event {
            PadEvent::Disconnect => {
                match self.slots.disconnect(slot) {
                    Some(_) => Some(Input::Controller(slot, false)),
                    None => None,
                }
            },
            PadEvent::Home(down) => {
                if down {
                    match self.slots.home(slot) {
                        Home::Exit => Some(Input::Exit),
                        _ => None,
                    }
                } else {
                    None
                }
            },
            PadEvent::Menu(down) => {
                if down && self.slots.get(slot).is_some() {
                    Some(Input::Game(slot, GameInput::Menu))
                } else {
                    None
                }
            },
            PadEvent::Pause(down) => {
                if down && self.slots.get(slot).is_some() {
                    Some(Input::Game(slot, GameInput::Pause))
                } else {
                    None
                }
            },
            PadEvent::Game(input) => {
                if self.slots.get(slot).is_some() {
                    Some(Input::Game(slot, input))
                } else {
                    None
                }
            },
        }
    }

    /// One turn of the wait: takes in what a source has handed over and
    /// returns the event to deliver. `None` means that the arrival delivers
    /// nothing, and the wait goes on.
    pub fn step(&mut self, arrival: Arrival<H, F>) -> (input: Option<Input<F>>)
        ensures
            match arrival {
                Arrival::Connect(handle) => input matches Some(Input::Controller(slot, true))
                    && first_free(old(self)@.slots, slot as int) && final(self)@ == old(
                    self,
                )@.connect(slot as int, handle),
                Arrival::Pad(slot, event) => final(self)@ == old(self)@.pad(slot as int, event)
                    && input == old(self)@.pad_input(slot, event),
                Arrival::Platform => input == old(self)@.pending && final(self)@ == (ListenerView {
                    pending: None,
                    ..old(self)@
                }),
            },
    {
        match arrival {
            Arrival::Connect(handle) => Some(self.connect(handle)),
            Arrival::Pad(slot, event) => self.pad(slot, event),
            Arrival::Platform => self.take(),
        }
    }

    /// Chooses how slots are numbered: see [`SlotTable::set_renumbering`].
    pub fn set_renumbering(&mut self, on: bool)
        ensures
            final(self)@ == (ListenerView {
                renumbering: on,
                slots: if on && !old(self)@.renumbering {
                    crate::slots::compact(old(self)@.slots)
                } else {
                    old(self)@.slots
                },
                ..old(self)@
            }),
    {
        self.slots.set_renumbering(on);
    }

    /// The slots to which a rumble goes: see [`SlotTable::rumble_targets`].
    pub fn rumble_targets(&self, slot: Option<usize>) -> (targets: Vec<usize>)
        ensures
            targets@ == crate::slots::spec_rumble_targets(self@.slots, slot),
    {
        self.slots.rumble_targets(slot)
    }

    /// The controller in a slot, if there is one.
    pub fn controller(&self, slot: usize) -> (handle: Option<&H>)
        ensures
            present(self@.slots, slot as int) ==> handle == Some(&self@.slots[slot as int]->0),
            !present(self@.slots, slot as int) ==> handle is None,
    {
        self.slots.get(slot)
    }

    /// The controller in a slot, to be used and changed in its place, if
    /// there is one.
    pub fn controller_mut(&mut self, slot: usize) -> (handle: Option<&mut H>)
        ensures
            match handle {
                Some(h) => present(old(self)@.slots, slot as int) && *h == old(
                    self,
                )@.slots[slot as int]->0 && final(self)@ == (ListenerView {
                    slots: old(self)@.slots.update(slot as int, Some(*final(h))),
                    ..old(self)@
                }),
                None => !present(old(self)@.slots, slot as int) && final(self)@ == old(self)@,
            },
    {
        self.slots.get_mut(slot)
    }
}

impl<H, F> Default for Listener<H, F> {
    /// A listener without controllers, keys or events, on which nobody waits.
    fn default() -> (listener: Listener<H, F>)
        ensures
            listener@ == (ListenerView::<H, F> {
                slots: Seq::empty(),
                renumbering: false,
                held: Set::empty(),
                pending: None,
                polling: false,
            }),
    {
        Listener::new()
    }
}

} // verus!
