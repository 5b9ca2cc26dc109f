//! Debounced tracking of the controller's eight buttons.
use vstd::prelude::*;

verus! {

/// The eight buttons of the Game Boy controller.
#[derive(Clone, Copy, PartialEq, Eq, Debug, Hash, Structural)]
pub enum Key {
    A,
    B,
    Select,
    Start,
    Up,
    Down,
    Left,
    Right,
}

/// A button edge to forward to the emulation engine.
#[derive(Clone, Copy, PartialEq, Eq, Debug, Structural)]
pub enum KeyEdge {
    Down(Key),
    Up(Key),
}

/// The edge forwarded when `key`, last known as `was`, is signalled as `pressed`:
/// none when nothing changed.
pub open spec fn edge_for(was: bool, key: Key, pressed: bool) -> Option<KeyEdge> {
    if was == pressed {
        None
    } else if pressed {
        Some(KeyEdge::Down(key))
    } else {
        Some(KeyEdge::Up(key))
    }
}

/// The last signalled state of every button; `true` is pressed.
pub struct KeyStates {
    a: bool,
    b: bool,
    select: bool,
    start: bool,
    up: bool,
    down: bool,
    left: bool,
    right: bool,
}

impl KeyStates {
    pub closed spec fn pressed(&self, key: Key) -> bool {
        match key {
            Key::A => self.a,
            Key::B => self.b,
            Key::Select => self.select,
            Key::Start => self.start,
            Key::Up => self.up,
            Key::Down => self.down,
            Key::Left => self.left,
            Key::Right => self.right,
        }
    }
}

impl View for KeyStates {
    /// Every button is in the domain, mapped to whether it is held.
    type V = Map<Key, bool>;

    closed spec fn view(&self) -> Map<Key, bool> {
        Map::total(|k: Key| self.pressed(k))
    }
}

impl KeyStates {
    /// All eight buttons released.
    pub fn released() -> (r: KeyStates)
        ensures
            r@ == Map::total(|k: Key| false),
    {
        let r = KeyStates {
            a: false,
            b: false,
            select: false,
            start: false,
            up: false,
            down: false,
            left: false,
            right: false,
        };
        assert(r@ =~= Map::total(|k: Key| false));
        r
    }

    /// Whether `key` was last signalled as pressed.
    pub fn is_pressed(&self, key: Key) -> (r: bool)
        ensures
            r == self@[key],
    {
        match key {
            Key::A => self.a,
            Key::B => self.b,
            Key::Select => self.select,
            Key::Start => self.start,
            Key::Up => self.up,
            Key::Down => self.down,
            Key::Left => self.left,
            Key::Right => self.right,
        }
    }

    /// Records `pressed` for `key` and returns the edge to forward, if the
    /// state changed.
    pub fn signal(&mut self, key: Key, pressed: bool) -> (r: Option<KeyEdge>)
        ensures
            final(self)@ == old(self)@.insert(key, pressed),
            r == edge_for(old(self)@[key], key, pressed),
    {
        let was = self.is_pressed(key);
        match key {
            Key::A => self.a = pressed,
            Key::B => self.b = pressed,
            Key::Select => self.select = pressed,
            Key::Start => self.start = pressed,
            Key::Up => self.up = pressed,
            Key::Down => self.down = pressed,
            Key::Left => self.left = pressed,
            Key::Right => self.right = pressed,
        }
        assert(self@ =~= old(self)@.insert(key, pressed));
        if was == pressed {
            None
        } else if pressed {
            Some(KeyEdge::Down(key))
        } else {
            Some(KeyEdge::Up(key))
        }
    }
}

/// The tracked map always holds exactly the eight buttons.
pub proof fn lemma_all_keys_tracked(s: KeyStates)
    ensures
        s@.dom() == Set::<Key>::full(),
{
}

/// Signalling the same state for a key twice in a row forwards nothing the
/// second time and leaves the tracked states as the first call left them.
pub proof fn lemma_repeat_signal_forwards_nothing(m: Map<Key, bool>, key: Key, pressed: bool)
    ensures
        edge_for(m.insert(key, pressed)[key], key, pressed) == None::<KeyEdge>,
        m.insert(key, pressed).insert(key, pressed) == m.insert(key, pressed),
{
    assert(m.insert(key, pressed).insert(key, pressed) =~= m.insert(key, pressed));
}

/// Signalling the opposite of the last signalled state always forwards one
/// edge, so alternating signals forward one edge each.
pub proof fn lemma_change_forwards_edge(m: Map<Key, bool>, key: Key, pressed: bool)
    ensures
        edge_for(m.insert(key, !pressed)[key], key, pressed) == if pressed {
            Some(KeyEdge::Down(key))
        } else {
            Some(KeyEdge::Up(key))
        },
{
}

} // verus!
