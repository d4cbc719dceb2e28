//! Per-frame input snapshots. A fixed table binds the tracked keys to
//! platform key codes; each frame the pending platform events are folded into
//! the keys' held state, this frame's presses and releases, and the quit flag.

use vstd::prelude::*;

verus! {

/// The keys that the engine tracks.
#[derive(Clone, Copy, Debug, PartialEq, Eq, Structural)]
pub enum Key {
    Escape,
    Up,
    Down,
    Left,
    Right,
    Space,
}

/// Number of tracked keys.
pub const KEY_COUNT: usize = 6;

/// Position of each key in a snapshot.
pub open spec fn slot_of(k: Key) -> int {
    match k {
        Key::Escape => 0,
        Key::Up => 1,
        Key::Down => 2,
        Key::Left => 3,
        Key::Right => 4,
        Key::Space => 5,
    }
}

/// The binding table: the platform key code of each tracked key.
pub open spec fn code_of(k: Key) -> i32 {
    match k {
        Key::Escape => 27,
        Key::Up => 0x4000_0052,
        Key::Down => 0x4000_0051,
        Key::Left => 0x4000_0050,
        Key::Right => 0x4000_004f,
        Key::Space => 32,
    }
}

/// The tracked key bound to `code`, if any.
pub open spec fn key_of_code(code: i32) -> Option<Key> {
    if code == code_of(Key::Escape) {
        Some(Key::Escape)
    } else if code == code_of(Key::Up) {
        Some(Key::Up)
    } else if code == code_of(Key::Down) {
        Some(Key::Down)
    } else if code == code_of(Key::Left) {
        Some(Key::Left)
    } else if code == code_of(Key::Right) {
        Some(Key::Right)
    } else if code == code_of(Key::Space) {
        Some(Key::Space)
    } else {
        None
    }
}

/// Position of `k` in a snapshot.
pub fn slot(k: Key) -> (r: usize)
    ensures
        r == slot_of(k),
        r < KEY_COUNT,
{
    match k {
        Key::Escape => 0,
        Key::Up => 1,
        Key::Down => 2,
        Key::Left => 3,
        Key::Right => 4,
        Key::Space => 5,
    }
}

/// Platform key code bound to `k`.
pub fn key_code(k: Key) -> (r: i32)
    ensures
        r == code_of(k),
{
    match k {
        Key::Escape => 27,
        Key::Up => 0x4000_0052,
        Key::Down => 0x4000_0051,
        Key::Left => 0x4000_0050,
        Key::Right => 0x4000_004f,
        Key::Space => 32,
    }
}

/// The tracked key bound to `code`, or `None` for a key that is not tracked.
pub fn key_for_code(code: i32) -> (r: Option<Key>)
    ensures
        r == key_of_code(code),
        r matches Some(k) ==> code_of(k) == code,
        r is None ==> forall|k: Key| code_of(k) != code,
{
    let keys = [Key::Escape, Key::Up, Key::Down, Key::Left, Key::Right, Key::Space];
    let mut i: usize = 0;
    while i < KEY_COUNT
        invariant
            i <= KEY_COUNT,
            keys@ == seq![Key::Escape, Key::Up, Key::Down, Key::Left, Key::Right, Key::Space],
            forall|j: int| 0 <= j < i ==> code_of(#[trigger] keys@[j]) != code,
        decreases KEY_COUNT - i,
    {
        if key_code(keys[i]) == code {
            return Some(keys[i]);
        }
        i = i + 1;
    }
    assert forall|k: Key| code_of(k) != code by {
        assert(code_of(keys@[slot_of(k)]) != code);
    }
    None
}

/// One platform input record, as the engine sees it.
#[derive(Clone, Copy, Debug, PartialEq, Eq, Structural)]
pub enum InputEvent {
    /// A key went down; the platform's key code.
    KeyDown(i32),
    /// A key went up; the platform's key code.
    KeyUp(i32),
    /// The window was closed or the process interrupted.
    Quit,
    /// Anything else.
    Other,
}

/// What a snapshot holds: for each key slot whether it is held, and what
/// happened to it this frame (`Some(true)`: pressed, `Some(false)`: released,
/// `None`: nothing), and whether quitting was asked for this frame.
pub struct EventsModel {
    pub held: Seq<bool>,
    pub now: Seq<Option<bool>>,
    pub quit: bool,
}

/// The snapshot at the start of a frame: keys stay held, nothing has happened.
pub open spec fn fresh_frame(m: EventsModel) -> EventsModel {
    EventsModel { held: m.held, now: Seq::new(KEY_COUNT as nat, |i: int| None), quit: false }
}

/// The snapshot after one more event. A key that goes down while already held
/// (a repeat) is no new press.
pub open spec fn after_event(m: EventsModel, e: InputEvent) -> EventsModel {
    match e {
        InputEvent::KeyDown(c) => match key_of_code(c) {
            Some(k) => EventsModel {
                held: m.held.update(slot_of(k), true),
                now: if m.held[slot_of(k)] {
                    m.now
                } else {
                    m.now.update(slot_of(k), Some(true))
                },
                quit: m.quit,
            },
            None => m,
        },
        InputEvent::KeyUp(c) => match key_of_code(c) {
            Some(k) => EventsModel {
                held: m.held.update(slot_of(k), false),
                now: m.now.update(slot_of(k), Some(false)),
                quit: m.quit,
            },
            None => m,
        },
        InputEvent::Quit => EventsModel { quit: true, ..m },
        InputEvent::Other => m,
    }
}

/// The snapshot after a frame whose pending events were `evs`, in order.
pub open spec fn after_frame(m: EventsModel, evs: Seq<InputEvent>) -> EventsModel
    decreases evs.len(),
{
    if evs.len() == 0 {
        fresh_frame(m)
    } else {
        after_event(after_frame(m, evs.drop_last()), evs.last())
    }
}

/// The input snapshot of one frame.
#[derive(Debug)]
pub struct Events {
    held: Vec<bool>,
    now: Vec<Option<bool>>,
    quit: bool,
}

impl Events {
    pub closed spec fn model(self) -> EventsModel {
        EventsModel { held: self.held@, now: self.now@, quit: self.quit }
    }

    pub open spec fn wf(self) -> bool {
        self.model().held.len() == KEY_COUNT && self.model().now.len() == KEY_COUNT
    }

    /// A snapshot with no key held and nothing happened.
    pub fn new() -> (r: Events)
        ensures
            r.wf(),
            r.model() == (EventsModel {
                held: Seq::new(KEY_COUNT as nat, |i: int| false),
                now: Seq::new(KEY_COUNT as nat, |i: int| None),
                quit: false,
            }),
    {
        let r = Events { held: vec![false; KEY_COUNT], now: vec![None; KEY_COUNT], quit: false };
        assert(r.held@ =~= Seq::new(KEY_COUNT as nat, |i: int| false));
        assert(r.now@ =~= Seq::new(KEY_COUNT as nat, |i: int| None));
        r
    }

    /// Starts a new frame and folds in its pending platform events, in order.
    pub fn pump(&mut self, events: &Vec<InputEvent>)
        requires
            old(self).wf(),
        ensures
            final(self).wf(),
            final(self).model() == after_frame(old(self).model(), events@),
    {
        let ghost start = self.model();
        self.now = vec![None; KEY_COUNT];
        self.quit = false;
        assert(events@.take(0) =~= Seq::<InputEvent>::empty());
        assert(self.now@ =~= Seq::new(KEY_COUNT as nat, |i: int| None));
        let mut i: usize = 0;
        while i < events.len()
            invariant
                self.wf(),
                i <= events@.len(),
                self.model() == after_frame(start, events@.take(i as int)),
            decreases events@.len() - i,
        {
            let e = events[i];
            assert(events@.take(i as int + 1).drop_last() =~= events@.take(i as int));
            match e {
                InputEvent::KeyDown(c) => {
                    if let Some(k) = key_for_code(c) {
                        let s = slot(k);
                        if !self.held[s] {
                            self.now.set(s, Some(true));
                        }
                        self.held.set(s, true);
                    }
                },
                InputEvent::KeyUp(c) => {
                    if let Some(k) = key_for_code(c) {
                        let s = slot(k);
                        self.now.set(s, Some(false));
                        self.held.set(s, false);
                    }
                },
                InputEvent::Quit => {
                    self.quit = true;
                },
                InputEvent::Other => {},
            }
            assert(self.model() =~= after_frame(start, events@.take(i as int + 1)));
            i = i + 1;
        }
        assert(events@.take(events@.len() as int) =~= events@);
    }

    /// Whether `k` is held down.
    pub fn is_held(&self, k: Key) -> (r: bool)
        requires
            self.wf(),
        ensures
            r == self.model().held[slot_of(k)],
    {
        self.held[slot(k)]
    }

    /// Whether `k` went down this frame.
    pub fn pressed(&self, k: Key) -> (r: bool)
        requires
            self.wf(),
        ensures
            r == (self.model().now[slot_of(k)] == Some(true)),
    {
        match self.now[slot(k)] {
            Some(b) => b,
            None => false,
        }
    }

    /// Whether `k` went up this frame.
    pub fn released(&self, k: Key) -> (r: bool)
        requires
            self.wf(),
        ensures
            r == (self.model().now[slot_of(k)] == Some(false)),
    {
        match self.now[slot(k)] {
            Some(b) => !b,
            None => false,
        }
    }

    /// Whether quitting was asked for this frame.
    pub fn quit(&self) -> (r: bool)
        ensures
            r == self.model().quit,
    {
        self.quit
    }
}

} // verus!
