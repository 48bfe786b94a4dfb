//! Keyboard input tracking: the current key state, the snapshot taken at the
//! last frame boundary, and the buttons and axes derived from the two.

use vstd::prelude::*;
use vstd::string::StrSliceExecFns;

verus! {

/// A physical input the games can ask about.
#[derive(Clone, Copy, Debug, PartialEq, Eq, Structural)]
pub enum Key {
    Left,
    Right,
    Up,
    Down,
    Space,
    Enter,
    Escape,
    Z,
    X,
    C,
    W,
}

/// A logical axis resolved from one or more keys.
#[derive(Clone, Copy, Debug, PartialEq, Eq, Structural)]
pub enum Axis {
    MoveX,
    MoveY,
    Thrust,
    Rotate,
}

/// The state of one key as seen at read time. It is derived on every query
/// and never stored.
#[derive(Clone, Copy, Debug, PartialEq, Eq, Structural)]
pub struct Button {
    pub is_down: bool,
    pub went_down: bool,
    pub went_up: bool,
}

/// A pointing device sample, in pixels.
#[derive(Clone, Copy, Debug, PartialEq, Eq, Structural)]
pub struct Pointer {
    pub x: i32,
    pub y: i32,
    pub is_down: bool,
}

/// Which keys are held. A key that was never set reads as released.
#[derive(Clone, Copy, Debug, PartialEq, Eq, Structural)]
pub struct KeySet {
    pub left: bool,
    pub right: bool,
    pub up: bool,
    pub down: bool,
    pub space: bool,
    pub enter: bool,
    pub escape: bool,
    pub z: bool,
    pub x: bool,
    pub c: bool,
    pub w: bool,
}

impl KeySet {
    /// Whether `k` is held in this set.
    pub open spec fn contains(self, k: Key) -> bool {
        match k {
            Key::Left => self.left,
            Key::Right => self.right,
            Key::Up => self.up,
            Key::Down => self.down,
            Key::Space => self.space,
            Key::Enter => self.enter,
            Key::Escape => self.escape,
            Key::Z => self.z,
            Key::X => self.x,
            Key::C => self.c,
            Key::W => self.w,
        }
    }

    /// This set with `k` held or released and every other key as it was.
    pub open spec fn with(self, k: Key, held: bool) -> KeySet {
        match k {
            Key::Left => KeySet { left: held, ..self },
            Key::Right => KeySet { right: held, ..self },
            Key::Up => KeySet { up: held, ..self },
            Key::Down => KeySet { down: held, ..self },
            Key::Space => KeySet { space: held, ..self },
            Key::Enter => KeySet { enter: held, ..self },
            Key::Escape => KeySet { escape: held, ..self },
            Key::Z => KeySet { z: held, ..self },
            Key::X => KeySet { x: held, ..self },
            Key::C => KeySet { c: held, ..self },
            Key::W => KeySet { w: held, ..self },
        }
    }

    /// The set in which no key is held.
    pub open spec fn none() -> KeySet {
        KeySet {
            left: false,
            right: false,
            up: false,
            down: false,
            space: false,
            enter: false,
            escape: false,
            z: false,
            x: false,
            c: false,
            w: false,
        }
    }

    /// A set in which no key is held.
    pub fn empty() -> (s: KeySet)
        ensures
            s == KeySet::none(),
            forall|k: Key| !s.contains(k),
    {
        KeySet {
            left: false,
            right: false,
            up: false,
            down: false,
            space: false,
            enter: false,
            escape: false,
            z: false,
            x: false,
            c: false,
            w: false,
        }
    }

    /// Whether `k` is held.
    pub fn get(&self, k: Key) -> (held: bool)
        ensures
            held == self.contains(k),
    {
        match k {
            Key::Left => self.left,
            Key::Right => self.right,
            Key::Up => self.up,
            Key::Down => self.down,
            Key::Space => self.space,
            Key::Enter => self.enter,
            Key::Escape => self.escape,
            Key::Z => self.z,
            Key::X => self.x,
            Key::C => self.c,
            Key::W => self.w,
        }
    }

    /// Holds or releases `k`; every other key stays as it was.
    pub fn set(&mut self, k: Key, held: bool)
        ensures
            *final(self) == old(self).with(k, held),
            final(self).contains(k) == held,
            forall|other: Key| other != k ==> final(self).contains(other) == old(self).contains(other),
    {
        match k {
            Key::Left => { self.left = held; },
            Key::Right => { self.right = held; },
            Key::Up => { self.up = held; },
            Key::Down => { self.down = held; },
            Key::Space => { self.space = held; },
            Key::Enter => { self.enter = held; },
            Key::Escape => { self.escape = held; },
            Key::Z => { self.z = held; },
            Key::X => { self.x = held; },
            Key::C => { self.c = held; },
            Key::W => { self.w = held; },
        }
    }
}

/// One raw transition delivered by the host: the key and whether it is now held.
#[derive(Clone, Copy, Debug, PartialEq, Eq, Structural)]
pub struct KeyEvent {
    pub key: Key,
    pub down: bool,
}

/// The input tracker: the keys held now and the keys that were held when the
/// last frame boundary was taken.
#[derive(Clone, Copy, Debug, PartialEq, Eq, Structural)]
pub struct WebInput {
    pub keys: KeySet,
    pub prev_keys: KeySet,
}

/// The button that a key shows when it is `now` held or not and `before`
/// was so at the last frame boundary.
pub open spec fn button_of(now: bool, before: bool) -> Button {
    Button { is_down: now, went_down: now && !before, went_up: !now && before }
}

/// The value of an axis for a set of held keys: -1, 0 or 1.
pub open spec fn axis_value(keys: KeySet, a: Axis) -> int {
    match a {
        Axis::MoveX => (if keys.contains(Key::Right) { 1int } else { 0int })
            - (if keys.contains(Key::Left) { 1int } else { 0int }),
        Axis::MoveY => (if keys.contains(Key::Up) { 1int } else { 0int })
            - (if keys.contains(Key::Down) { 1int } else { 0int }),
        Axis::Thrust => if keys.contains(Key::Up) || keys.contains(Key::W) { 1int } else { 0int },
        Axis::Rotate => 0int,
    }
}

impl WebInput {
    /// Whether `k` is held now.
    pub open spec fn is_down(self, k: Key) -> bool {
        self.keys.contains(k)
    }

    /// Whether `k` was held at the last frame boundary.
    pub open spec fn was_down(self, k: Key) -> bool {
        self.prev_keys.contains(k)
    }

    /// The tracker after one raw transition.
    pub open spec fn after_key(self, k: Key, down: bool) -> WebInput {
        WebInput { keys: self.keys.with(k, down), prev_keys: self.prev_keys }
    }

    /// The tracker after a frame boundary.
    pub open spec fn after_frame(self) -> WebInput {
        WebInput { keys: self.keys, prev_keys: self.keys }
    }

    /// The tracker after a run of raw transitions, applied in order.
    pub open spec fn after_events(self, events: Seq<KeyEvent>) -> WebInput
        decreases events.len(),
    {
        if events.len() == 0 {
            self
        } else {
            self.after_events(events.drop_last()).after_key(events.last().key, events.last().down)
        }
    }

    /// The button that `k` shows.
    pub open spec fn button(self, k: Key) -> Button {
        button_of(self.is_down(k), self.was_down(k))
    }

    /// The tracker with no key held and an empty snapshot.
    pub open spec fn new_spec() -> WebInput {
        WebInput { keys: KeySet::none(), prev_keys: KeySet::none() }
    }

    /// A tracker with no key held and an empty snapshot.
    pub fn new() -> (input: WebInput)
        ensures
            input == WebInput::new_spec(),
            forall|k: Key| !input.is_down(k) && !input.was_down(k),
            input.keys == KeySet::none(),
            input.prev_keys == KeySet::none(),
    {
        WebInput { keys: KeySet::empty(), prev_keys: KeySet::empty() }
    }

    /// Records a raw transition. The snapshot is not touched.
    pub fn set_key(&mut self, key: Key, down: bool)
        ensures
            *final(self) == old(self).after_key(key, down),
            final(self).is_down(key) == down,
            forall|k: Key| k != key ==> final(self).is_down(k) == old(self).is_down(k),
            forall|k: Key| final(self).was_down(k) == old(self).was_down(k),
    {
        self.keys.set(key, down);
    }

    /// Takes the frame boundary: the snapshot becomes the current state, whole.
    pub fn end_frame(&mut self)
        ensures
            *final(self) == old(self).after_frame(),
            forall|k: Key| final(self).is_down(k) == old(self).is_down(k),
            forall|k: Key| final(self).was_down(k) == old(self).is_down(k),
    {
        self.prev_keys = self.keys;
    }

    /// Derives the button of `k` from the current state and the snapshot.
    pub fn key(&self, k: Key) -> (b: Button)
        ensures
            b == self.button(k),
            b.is_down == self.is_down(k),
            b.went_down == (self.is_down(k) && !self.was_down(k)),
            b.went_up == (!self.is_down(k) && self.was_down(k)),
    {
        let is_down = self.keys.get(k);
        let was_down = self.prev_keys.get(k);
        Button { is_down, went_down: is_down && !was_down, went_up: !is_down && was_down }
    }

    /// Resolves an axis from the keys held now. Opposing keys cancel; an axis
    /// with no key bound to it reads 0.
    pub fn axis(&self, a: Axis) -> (v: i8)
        ensures
            v == axis_value(self.keys, a),
            -1 <= v <= 1,
    {
        match a {
            Axis::MoveX => {
                let left: i8 = if self.key(Key::Left).is_down { -1 } else { 0 };
                let right: i8 = if self.key(Key::Right).is_down { 1 } else { 0 };
                left + right
            },
            Axis::MoveY => {
                let up: i8 = if self.key(Key::Up).is_down { 1 } else { 0 };
                let down: i8 = if self.key(Key::Down).is_down { -1 } else { 0 };
                up + down
            },
            Axis::Thrust => {
                if self.key(Key::Up).is_down || self.key(Key::W).is_down {
                    1
                } else {
                    0
                }
            },
            Axis::Rotate => 0,
        }
    }

    /// No pointing device is tracked.
    pub fn pointer(&self) -> (p: Option<Pointer>)
        ensures
            p is None,
    {
        None
    }
}

/// The key that a host key code stands for, if any. The arrow keys and the
/// letters W, A, S, D both steer.
pub open spec fn key_for_code(code: Seq<char>) -> Option<Key> {
    if code == "ArrowLeft"@ || code == "KeyA"@ {
        Some(Key::Left)
    } else if code == "ArrowRight"@ || code == "KeyD"@ {
        Some(Key::Right)
    } else if code == "ArrowUp"@ || code == "KeyW"@ {
        Some(Key::Up)
    } else if code == "ArrowDown"@ || code == "KeyS"@ {
        Some(Key::Down)
    } else if code == "Space"@ {
        Some(Key::Space)
    } else if code == "Enter"@ {
        Some(Key::Enter)
    } else if code == "Escape"@ {
        Some(Key::Escape)
    } else if code == "KeyZ"@ {
        Some(Key::Z)
    } else if code == "KeyX"@ {
        Some(Key::X)
    } else if code == "KeyC"@ {
        Some(Key::C)
    } else {
        None
    }
}

/// Whether two strings hold the same characters.
pub fn same_text(a: &str, b: &str) -> (same: bool)
    ensures
        same == (a@ == b@),
{
    let n = a.unicode_len();
    if n != b.unicode_len() {
        return false;
    }
    let mut i: usize = 0;
    while i < n
        invariant
            i <= n,
            n == a@.len(),
            n == b@.len(),
            forall|j: int| 0 <= j < i ==> a@[j] == b@[j],
        decreases n - i,
    {
        if a.get_char(i) != b.get_char(i) {
            return false;
        }
        i = i + 1;
    }
    assert(a@ =~= b@);
    true
}

impl WebInput {
    /// Maps a host key code to the key it stands for. A code that stands for
    /// no key gives `None`.
    pub fn map_code(code: &str) -> (k: Option<Key>)
        ensures
            k == key_for_code(code@),
    {
        if same_text(code, "ArrowLeft") || same_text(code, "KeyA") {
            Some(Key::Left)
        } else if same_text(code, "ArrowRight") || same_text(code, "KeyD") {
            Some(Key::Right)
        } else if same_text(code, "ArrowUp") || same_text(code, "KeyW") {
            Some(Key::Up)
        } else if same_text(code, "ArrowDown") || same_text(code, "KeyS") {
            Some(Key::Down)
        } else if same_text(code, "Space") {
            Some(Key::Space)
        } else if same_text(code, "Enter") {
            Some(Key::Enter)
        } else if same_text(code, "Escape") {
            Some(Key::Escape)
        } else if same_text(code, "KeyZ") {
            Some(Key::Z)
        } else if same_text(code, "KeyX") {
            Some(Key::X)
        } else if same_text(code, "KeyC") {
            Some(Key::C)
        } else {
            None
        }
    }
}

/// Setting one key changes that key and no other.
pub proof fn lemma_with_sets_one_key(s: KeySet, k: Key, held: bool, other: Key)
    ensures
        s.with(k, held).contains(other) == (if other == k { held } else { s.contains(other) }),
{
}

/// The last setting of `k` among `events`, if any of them names it.
pub open spec fn last_setting(events: Seq<KeyEvent>, k: Key) -> Option<bool>
    decreases events.len(),
{
    if events.len() == 0 {
        None
    } else if events.last().key == k {
        Some(events.last().down)
    } else {
        last_setting(events.drop_last(), k)
    }
}

/// Raw transitions never touch the snapshot, and the state of a key after a
/// run of them is its last setting in the run, or its earlier state where the
/// run does not name it.
pub proof fn lemma_events_keep_snapshot(start: WebInput, events: Seq<KeyEvent>, k: Key)
    ensures
        start.after_events(events).prev_keys == start.prev_keys,
        start.after_events(events).is_down(k) == match last_setting(events, k) {
            Some(down) => down,
            None => start.is_down(k),
        },
    decreases events.len(),
{
    if events.len() > 0 {
        let earlier = start.after_events(events.drop_last());
        lemma_events_keep_snapshot(start, events.drop_last(), k);
        lemma_with_sets_one_key(earlier.keys, events.last().key, events.last().down, k);
    }
}

/// Between two frame boundaries, whatever raw transitions arrive, a key shows
/// `went_down` exactly if it was released at the first boundary and is held
/// now, and `went_up` exactly if it was held then and is released now: one of
/// the two is set exactly for the keys whose state flipped. Taking the second
/// boundary clears both and keeps the held state.
pub proof fn lemma_edges_are_flips(before: WebInput, events: Seq<KeyEvent>, k: Key)
    ensures
        ({
            let start = before.after_frame();
            let seen = start.after_events(events);
            let b = seen.button(k);
            let next = seen.after_frame().button(k);
            &&& b.is_down == seen.is_down(k)
            &&& b.went_down == (seen.is_down(k) && !start.is_down(k))
            &&& b.went_up == (!seen.is_down(k) && start.is_down(k))
            &&& (b.went_down || b.went_up) == (seen.is_down(k) != start.is_down(k))
            &&& !(b.went_down && b.went_up)
            &&& next.is_down == seen.is_down(k)
            &&& !next.went_down
            &&& !next.went_up
        }),
{
    lemma_events_keep_snapshot(before.after_frame(), events, k);
}

} // verus!
