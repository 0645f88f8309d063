//! Which keys and which pointer button are held, as told by the events of
//! the window system.

use std::collections::HashSet;
use vstd::prelude::*;

verus! {

broadcast use vstd::std_specs::hash::group_hash_axioms;

/// An event of the window system, reduced to what the input state reacts to.
#[derive(Clone, Copy, Debug, PartialEq, Eq, Structural)]
pub enum InputEvent {
    /// The key with code `code` went down (`pressed`) or up.
    Key { code: u32, pressed: bool },
    /// A pointer button went down (`pressed`) or up; `primary` tells the
    /// primary button from the others.
    Button { primary: bool, pressed: bool },
    /// Any other event.
    Other,
}

/// The input state as a mathematical value.
pub struct InputState {
    /// Codes of the keys that are held.
    pub keys: Set<u32>,
    /// The primary pointer button is held.
    pub left_mouse_down: bool,
}

/// The state after `event`. An event that the user interface consumed lets
/// go of the primary button before the event itself is looked at, so a
/// consumed press of the primary button still counts as a press.
pub open spec fn state_after(state: InputState, event: InputEvent, consumed: bool) -> InputState {
    let held = state.left_mouse_down && !consumed;
    match event {
        InputEvent::Key { code, pressed } => InputState {
            keys: if pressed {
                state.keys.insert(code)
            } else {
                state.keys.remove(code)
            },
            left_mouse_down: held,
        },
        InputEvent::Button { primary, pressed } => InputState {
            keys: state.keys,
            left_mouse_down: if primary {
                pressed
            } else {
                held
            },
        },
        InputEvent::Other => InputState { keys: state.keys, left_mouse_down: held },
    }
}

/// The state after each event of `events` in turn, the `i`-th of them consumed
/// or not as `consumed[i]` says.
pub open spec fn state_after_all(
    state: InputState,
    events: Seq<InputEvent>,
    consumed: Seq<bool>,
) -> InputState
    decreases events.len(),
{
    if events.len() == 0 {
        state
    } else {
        state_after(
            state_after_all(state, events.drop_last(), consumed.drop_last()),
            events.last(),
            consumed.last(),
        )
    }
}

/// Tracks the keys and the primary pointer button across events.
pub struct EventManager {
    keys_down: HashSet<u32>,
    left_mouse_down: bool,
}

impl View for EventManager {
    type V = InputState;

    closed spec fn view(&self) -> InputState {
        InputState { keys: self.keys_down@, left_mouse_down: self.left_mouse_down }
    }
}

impl EventManager {
    /// Nothing is held.
    pub fn new() -> (manager: EventManager)
        ensures
            manager@.keys == Set::<u32>::empty(),
            !manager@.left_mouse_down,
    {
        EventManager { keys_down: HashSet::new(), left_mouse_down: false }
    }

    /// Whether the key with code `key` is held.
    pub fn is_key_down(&self, key: u32) -> (down: bool)
        ensures
            down == self@.keys.contains(key),
    {
        self.keys_down.contains(&key)
    }

    /// Whether the primary pointer button is held.
    pub fn is_left_mouse_down(&self) -> (down: bool)
        ensures
            down == self@.left_mouse_down,
    {
        self.left_mouse_down
    }

    /// Takes in one event. `consumed` says that the user interface used the
    /// event before.
    pub fn update(&mut self, event: &InputEvent, consumed: bool)
        ensures
            final(self)@ == state_after(old(self)@, *event, consumed),
    {
        if consumed {
            self.left_mouse_down = false;
        }
        match event {
            InputEvent::Key { code, pressed } => {
                if *pressed {
                    self.keys_down.insert(*code);
                } else {
                    self.keys_down.remove(code);
                }
            },
            InputEvent::Button { primary, pressed } => {
                if *primary {
                    self.left_mouse_down = *pressed;
                }
            },
            InputEvent::Other => {},
        }
    }
}

/// Events that are no key events leave the held keys as they are.
pub proof fn lemma_keys_change_on_key_events_only(
    state: InputState,
    event: InputEvent,
    consumed: bool,
)
    requires
        !(event is Key),
    ensures
        state_after(state, event, consumed).keys == state.keys,
{
}

/// A key event decides its own key and no other: its key is held after it
/// exactly if the event was a press, and every other key exactly if it was
/// held before.
pub proof fn lemma_key_event_is_local(
    state: InputState,
    code: u32,
    pressed: bool,
    consumed: bool,
    other: u32,
)
    requires
        other != code,
    ensures
        state_after(state, InputEvent::Key { code, pressed }, consumed).keys.contains(other)
            == state.keys.contains(other),
        state_after(state, InputEvent::Key { code, pressed }, consumed).keys.contains(code)
            == pressed,
{
}

/// Whether `key` is held after `events`, where `before` says whether it was
/// held at the start: the last event that names the key decides.
pub open spec fn held_after(before: bool, events: Seq<InputEvent>, key: u32) -> bool
    decreases events.len(),
{
    if events.len() == 0 {
        before
    } else {
        match events.last() {
            InputEvent::Key { code, pressed } if code == key => pressed,
            _ => held_after(before, events.drop_last(), key),
        }
    }
}

/// After any run of events a key is held exactly if the last event that
/// concerned it was a press, or, where none concerned it, if it was held at
/// the start.
pub proof fn lemma_key_follows_last_event(
    state: InputState,
    events: Seq<InputEvent>,
    consumed: Seq<bool>,
    key: u32,
)
    requires
        events.len() == consumed.len(),
    ensures
        state_after_all(state, events, consumed).keys.contains(key) == held_after(
            state.keys.contains(key),
            events,
            key,
        ),
    decreases events.len(),
{
    if events.len() > 0 {
        lemma_key_follows_last_event(state, events.drop_last(), consumed.drop_last(), key);
    }
}

/// A consumed event lets go of the primary button, unless the event is
/// itself a press of it.
pub proof fn lemma_consumed_event_releases_button(state: InputState, event: InputEvent)
    requires
        event != (InputEvent::Button { primary: true, pressed: true }),
    ensures
        !state_after(state, event, true).left_mouse_down,
{
}

} // verus!
