use vstd::prelude::*;

verus! {

/// The keys that the game reacts to; every other key is `Other`.
#[derive(Clone, Copy, PartialEq, Eq, Structural, Debug)]
pub enum Key {
    D,
    F,
    J,
    K,
    S,
    W,
    Left,
    Right,
    Up,
    Down,
    Escape,
    Return,
    Space,
    Key0,
    Key9,
    Other,
}

/// A key going down or coming up.
#[derive(Clone, Copy, PartialEq, Eq, Structural, Debug)]
pub struct KeyboardEvent {
    pub key: Key,
    pub is_down: bool,
}

impl KeyboardEvent {
    /// The key of the event.
    pub fn key(&self) -> (k: Key)
        ensures
            k == self.key,
    {
        self.key
    }

    /// Whether the key went down (rather than up).
    pub fn is_down(&self) -> (d: bool)
        ensures
            d == self.is_down,
    {
        self.is_down
    }
}

} // verus!
