use vstd::prelude::*;

verus! {

/// The keyboard keys that the fly camera reacts to; every other key is `Other`.
#[derive(Clone, Copy, Debug, PartialEq, Eq, Structural)]
pub enum Key {
    W,
    S,
    A,
    D,
    Up,
    Down,
    Left,
    Right,
    Space,
    Period,
    RShift,
    Comma,
    LBracket,
    RBracket,
    Q,
    E,
    Z,
    X,
    LShift,
    O,
    Escape,
    Other,
}

/// The mouse buttons that the fly camera reacts to; every other button is `Other`.
#[derive(Clone, Copy, Debug, PartialEq, Eq, Structural)]
pub enum MouseButton {
    Left,
    Right,
    Other,
}

} // verus!
