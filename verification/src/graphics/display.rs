//! What the display front-end shares with the engine: the size of the
//! picture, and the keys that the front-end watches.

use vstd::prelude::*;

verus! {

/// The width of the picture in pixels.
pub const DISPLAY_WIDTH_PIXELS: usize = 160;

/// The height of the picture in pixels.
pub const DISPLAY_HEIGHT_PIXELS: usize = 144;

/// The size of a picture in pixels.
#[derive(Clone, Copy, Debug, PartialEq, Eq, Structural)]
pub struct Dims {
    pub width: usize,
    pub height: usize,
}

impl Default for Dims {
    fn default() -> (dims: Dims)
        ensures
            dims == (Dims { width: 160, height: 144 }),
    {
        Dims { width: DISPLAY_WIDTH_PIXELS, height: DISPLAY_HEIGHT_PIXELS }
    }
}

/// A key that the front-end watches.
#[derive(Clone, Copy, Debug, PartialEq, Eq, Structural)]
pub enum Key {
    Q,
    H,
    P,
    Space,
}

/// Which of the watched keys are held down.
#[derive(Clone, Copy, Debug, PartialEq, Eq, Structural)]
pub struct KeyState {
    pub q: bool,
    pub p: bool,
    pub h: bool,
    pub space: bool,
}

/// A change in the state of a key.
#[derive(Clone, Copy, Debug, PartialEq, Eq, Structural)]
pub enum EventKind {
    KeyDown(Key),
    KeyUp(Key),
}

/// Something that happened at the display.
#[derive(Clone, Copy, Debug, PartialEq, Eq, Structural)]
pub struct Event {
    pub kind: EventKind,
}

/// The event for a key whose recorded state is `recorded` and which the
/// window now reports as held (`down`) or not: none when the two agree,
/// else a key-down where the record says held, and a key-up where it does
/// not.
pub open spec fn key_event(key: Key, recorded: bool, down: bool) -> Seq<Event> {
    if down == recorded {
        Seq::<Event>::empty()
    } else if recorded {
        seq![Event { kind: EventKind::KeyDown(key) }]
    } else {
        seq![Event { kind: EventKind::KeyUp(key) }]
    }
}

impl KeyState {
    pub fn default() -> (state: KeyState)
        ensures
            state == (KeyState { q: false, p: false, h: false, space: false }),
    {
        KeyState { q: false, p: false, h: false, space: false }
    }

    /// The events that the keys give rise to when the window reports them
    /// as `now`, in the order H, Space, P, Q.
    pub open spec fn events_for(self, now: KeyState) -> Seq<Event> {
        key_event(Key::H, self.h, now.h) + key_event(Key::Space, self.space, now.space)
            + key_event(Key::P, self.p, now.p) + key_event(Key::Q, self.q, now.q)
    }

    /// Compares the recorded state of the keys with what the window
    /// reports now and lists an event for every key that differs.
    pub fn get_events(&self, now: &KeyState) -> (events: Vec<Event>)
        ensures
            events@ == self.events_for(*now),
    {
        let mut events: Vec<Event> = Vec::new();
        if now.h != self.h {
            let kind = if self.h {
                EventKind::KeyDown(Key::H)
            } else {
                EventKind::KeyUp(Key::H)
            };
            events.push(Event { kind });
        }
        assert(events@ =~= key_event(Key::H, self.h, now.h));
        if now.space != self.space {
            let kind = if self.space {
                EventKind::KeyDown(Key::Space)
            } else {
                EventKind::KeyUp(Key::Space)
            };
            events.push(Event { kind });
        }
        assert(events@ =~= key_event(Key::H, self.h, now.h) + key_event(
            Key::Space,
            self.space,
            now.space,
        ));
        if now.p != self.p {
            let kind = if self.p {
                EventKind::KeyDown(Key::P)
            } else {
                EventKind::KeyUp(Key::P)
            };
            events.push(Event { kind });
        }
        assert(events@ =~= key_event(Key::H, self.h, now.h) + key_event(
            Key::Space,
            self.space,
            now.space,
        ) + key_event(Key::P, self.p, now.p));
        if now.q != self.q {
            let kind = if self.q {
                EventKind::KeyDown(Key::Q)
            } else {
                EventKind::KeyUp(Key::Q)
            };
            events.push(Event { kind });
        }
        assert(events@ =~= self.events_for(*now));
        events
    }
}

} // verus!
