//! The window events that the game consumes, as plain values.

use vstd::prelude::*;

verus! {

/// A physical key, as far as the game tells keys apart.
#[derive(Debug, Clone, Copy, PartialEq, Eq, Structural)]
pub enum Key {
    ArrowUp,
    ArrowDown,
    ArrowLeft,
    ArrowRight,
    Other,
}

#[derive(Debug, Clone, Copy, PartialEq, Eq, Structural)]
pub enum KeyState {
    Pressed,
    Released,
}

/// The inner size of the window, in pixels.
#[derive(Debug, Clone, Copy, PartialEq, Eq, Structural)]
pub struct WindowSize {
    pub width: u32,
    pub height: u32,
}

impl WindowSize {
    pub fn new(width: u32, height: u32) -> (size: Self)
        ensures
            size == (WindowSize { width, height }),
    {
        Self { width, height }
    }
}

#[derive(Debug, Clone, Copy, PartialEq, Eq, Structural)]
pub enum Event {
    Resized(WindowSize),
    RedrawRequested,
    CloseRequested,
    KeyboardInput { physical_key: Key, state: KeyState, is_synthetic: bool },
    /// Any other event. It still gives the game a chance to tick.
    Other,
}

} // verus!
