//! Typed, checked events and the blocking receive-and-dispatch loop.
//!
//! A delivered record carries a type tag and payload slots whose meaning
//! depends on that tag; reading a payload slot under the wrong tag is
//! undefined in the native representation. [`Event`] is the checked view:
//! every payload accessor verifies the tag first and reports "absent"
//! otherwise. [`EventHandler`] selects which event classes are delivered
//! and performs the blocking receive; the loop-controlling decisions live
//! in [`handle_event`], a pure function over an explicit [`LoopState`].

use vstd::prelude::*;

use crate::backend::BUTTON_PRESS;
use crate::backend::BUTTON_PRESS_MASK;
use crate::backend::Backend;
use crate::backend::Call;
use crate::backend::EXPOSE;
use crate::backend::EXPOSURE_MASK;
use crate::backend::KEY_PRESS;
use crate::backend::KEY_PRESS_MASK;
use crate::backend::KEY_RELEASE;
use crate::backend::KEY_RELEASE_MASK;
use crate::backend::RawEvent;
use crate::backend::effective_input_mask;
use crate::display::Display;
use crate::window::Window;

verus! {

/// The event classes an [`EventHandler`] registers interest in: exposure,
/// key press, key release, and button press.
pub const INPUT_EVENT_MASK: i64 = EXPOSURE_MASK | KEY_PRESS_MASK | KEY_RELEASE_MASK
    | BUTTON_PRESS_MASK;

/// Key code that ends the loop on its own.
pub const QUIT_KEY: u32 = 24;

/// Key code that ends the loop only while the modifier is held.
pub const SECONDARY_QUIT_KEY: u32 = 54;

/// Key code of the modifier tracked by the loop state.
pub const MODIFIER_KEY: u32 = 37;

/// The kind of a delivered event: the closed set of tags this library
/// distinguishes. Tags it does not decode fall under `Other`.
#[derive(Clone, Copy, PartialEq, Eq, Structural, Debug)]
pub enum EventKind {
    /// Part of the window must be repainted.
    Exposure,
    /// A key went down; a key code is present.
    KeyPress,
    /// A key went up; a key code is present.
    KeyRelease,
    /// A pointer button went down.
    ButtonPress,
    /// Any tag this library does not decode.
    Other,
}

/// One delivered event: a checked view over the raw record. The payload
/// accessors read the key-code slot only under the matching tag and report
/// `None` otherwise, so no caller can observe the slot under a tag that
/// does not define it.
#[derive(Clone, Copy, PartialEq, Eq, Structural, Debug)]
pub struct Event {
    raw: RawEvent,
}

impl Event {
    /// The record's type tag.
    pub closed spec fn tag(&self) -> i32 {
        self.raw.event_type
    }

    /// The record's key-code slot, defined only under a key tag.
    pub closed spec fn code_slot(&self) -> u32 {
        self.raw.keycode
    }

    /// The kind the tag denotes.
    pub open spec fn spec_kind(&self) -> EventKind {
        if self.tag() == KEY_PRESS {
            EventKind::KeyPress
        } else if self.tag() == KEY_RELEASE {
            EventKind::KeyRelease
        } else if self.tag() == BUTTON_PRESS {
            EventKind::ButtonPress
        } else if self.tag() == EXPOSE {
            EventKind::Exposure
        } else {
            EventKind::Other
        }
    }

    /// The key code when the record is a key press, absent otherwise.
    pub open spec fn spec_key_press_code(&self) -> Option<u32> {
        if self.tag() == KEY_PRESS {
            Some(self.code_slot())
        } else {
            None
        }
    }

    /// The key code when the record is a key release, absent otherwise.
    pub open spec fn spec_key_release_code(&self) -> Option<u32> {
        if self.tag() == KEY_RELEASE {
            Some(self.code_slot())
        } else {
            None
        }
    }

    /// Wrap one raw record in the checked view.
    pub fn new(raw: RawEvent) -> (e: Event)
        ensures
            e.tag() == raw.event_type,
            e.code_slot() == raw.keycode,
    {
        Event { raw }
    }

    /// The record's type tag.
    pub fn get_type(&self) -> (t: i32)
        ensures
            t == self.tag(),
    {
        self.raw.event_type
    }

    /// The kind the tag denotes.
    pub fn kind(&self) -> (k: EventKind)
        ensures
            k == self.spec_kind(),
    {
        let t = self.raw.event_type;
        if t == KEY_PRESS {
            EventKind::KeyPress
        } else if t == KEY_RELEASE {
            EventKind::KeyRelease
        } else if t == BUTTON_PRESS {
            EventKind::ButtonPress
        } else if t == EXPOSE {
            EventKind::Exposure
        } else {
            EventKind::Other
        }
    }

    /// The key code, checked: present exactly when the tag says key press.
    pub fn get_key_press_code(&self) -> (r: Option<u32>)
        ensures
            r == self.spec_key_press_code(),
    {
        if self.raw.event_type != KEY_PRESS {
            return None;
        }
        Some(self.raw.keycode)
    }

    /// The key code, checked: present exactly when the tag says key
    /// release.
    pub fn get_key_release_code(&self) -> (r: Option<u32>)
        ensures
            r == self.spec_key_release_code(),
    {
        if self.raw.event_type != KEY_RELEASE {
            return None;
        }
        Some(self.raw.keycode)
    }
}

/// Tag and payload agree for every event: each key-code accessor yields a
/// value exactly under its own tag, and under every other kind — key
/// press, key release, exposure, button press or anything else — the
/// mismatched accessors report absent.
pub proof fn lemma_tag_payload_consistency(e: Event)
    ensures
        e.spec_kind() == EventKind::KeyPress ==> e.spec_key_press_code() == Some(e.code_slot())
            && e.spec_key_release_code() is None,
        e.spec_kind() == EventKind::KeyRelease ==> e.spec_key_release_code() == Some(
            e.code_slot(),
        ) && e.spec_key_press_code() is None,
        e.spec_kind() != EventKind::KeyPress ==> e.spec_key_press_code() is None,
        e.spec_kind() != EventKind::KeyRelease ==> e.spec_key_release_code() is None,
{
}

/// The loop-controlling state the event handler mutates and the
/// surrounding loop reads: whether the loop keeps running, and whether the
/// modifier key is currently held.
#[derive(Clone, Copy, PartialEq, Eq, Structural, Debug)]
pub struct LoopState {
    /// The loop keeps calling for events while this holds.
    pub running: bool,
    /// The modifier key is down and has not been released.
    pub modifier_held: bool,
}

impl LoopState {
    /// The state a loop starts in: running, modifier not held.
    pub fn new() -> (s: LoopState)
        ensures
            s.running,
            !s.modifier_held,
    {
        LoopState { running: true, modifier_held: false }
    }
}

/// What one event does to the loop state: the quit key stops the loop; the
/// secondary quit key stops it only while the modifier is held; pressing
/// the modifier holds it and releasing the modifier clears it; every other
/// event leaves the state unchanged.
pub open spec fn handle_event_spec(s: LoopState, e: Event) -> LoopState {
    let pressed = match e.spec_key_press_code() {
        Some(code) => if code == QUIT_KEY {
            LoopState { running: false, ..s }
        } else if code == SECONDARY_QUIT_KEY {
            if s.modifier_held {
                LoopState { running: false, ..s }
            } else {
                s
            }
        } else if code == MODIFIER_KEY {
            LoopState { modifier_held: true, ..s }
        } else {
            s
        },
        None => s,
    };
    match e.spec_key_release_code() {
        Some(code) => if code == MODIFIER_KEY {
            LoopState { modifier_held: false, ..pressed }
        } else {
            pressed
        },
        None => pressed,
    }
}

/// Apply one event to the loop state, exactly as [`handle_event_spec`]
/// says.
pub fn handle_event(state: &mut LoopState, e: &Event)
    ensures
        *final(state) == handle_event_spec(*old(state), *e),
{
    match e.get_key_press_code() {
        Some(code) => {
            if code == QUIT_KEY {
                state.running = false;
            } else if code == SECONDARY_QUIT_KEY {
                if state.modifier_held {
                    state.running = false;
                }
            } else if code == MODIFIER_KEY {
                state.modifier_held = true;
            }
        },
        None => {},
    }
    match e.get_key_release_code() {
        Some(code) => {
            if code == MODIFIER_KEY {
                state.modifier_held = false;
            }
        },
        None => {},
    }
}

/// The dispatcher: binds a session and a window, selects which event
/// classes are delivered for that pair, and performs the blocking receive.
/// It owns no handle itself. It is a machine of two states: idle when
/// constructed, listening once the input classes have been selected.
pub struct EventHandler {
    display: u64,
    window: u64,
    listening: bool,
}

impl EventHandler {
    /// The handle of the bound session.
    pub closed spec fn display_id(&self) -> u64 {
        self.display
    }

    /// The handle of the bound window.
    pub closed spec fn window_id(&self) -> u64 {
        self.window
    }

    /// Whether the input classes have been selected since construction.
    pub closed spec fn spec_listening(&self) -> bool {
        self.listening
    }

    /// Whether the input classes have been selected since construction.
    pub fn is_listening(&self) -> (r: bool)
        ensures
            r == self.spec_listening(),
    {
        self.listening
    }

    /// Bind a dispatcher to a session and a window. It starts idle: no
    /// event class is selected yet.
    pub fn new(display: &Display, window: &Window) -> (h: EventHandler)
        ensures
            h.display_id() == display.id(),
            h.window_id() == window.id(),
            !h.spec_listening(),
    {
        EventHandler { display: display.id_value(), window: window.id_value(), listening: false }
    }

    /// Register interest in the exposure, key-press, key-release and
    /// button-press classes for the bound window, moving the dispatcher to
    /// its listening state. May be called again: each call re-registers
    /// the same mask, so the mask in force is [`INPUT_EVENT_MASK`]
    /// afterwards no matter how often it ran before.
    pub fn select_input<B: Backend>(&mut self, backend: &mut B)
        ensures
            final(self).display_id() == old(self).display_id(),
            final(self).window_id() == old(self).window_id(),
            final(self).spec_listening(),
            final(backend).calls() == old(backend).calls().push(
                (Call::SelectInput {
                    display: old(self).display_id(),
                    window: old(self).window_id(),
                    mask: INPUT_EVENT_MASK,
                }),
            ),
            effective_input_mask(
                final(backend).calls(),
                old(self).display_id(),
                old(self).window_id(),
            ) == INPUT_EVENT_MASK,
    {
        backend.select_input(self.display, self.window, INPUT_EVENT_MASK);
        self.listening = true;
    }

    /// Block until the native side delivers one event, wrap it in the
    /// checked view, and apply it to the loop state before returning — one
    /// call, one event, one handler application. Blocks indefinitely when
    /// nothing arrives; termination is the surrounding loop's business,
    /// which reads the state this call updated.
    pub fn next<B: Backend>(&mut self, backend: &mut B, state: &mut LoopState) -> (e: Event)
        ensures
            *final(self) == *old(self),
            final(backend).calls() == old(backend).calls().push(
                (Call::NextEvent {
                    display: old(self).display_id(),
                    delivered: RawEvent { event_type: e.tag(), keycode: e.code_slot() },
                }),
            ),
            *final(state) == handle_event_spec(*old(state), e),
    {
        let raw = backend.next_event(self.display);
        let e = Event::new(raw);
        handle_event(state, &e);
        e
    }
}

} // verus!
