//! A grid snake game: the tick-gated game logic and the bookkeeping that
//! decides which GPU buffers a frame has to touch.

pub mod event;
pub mod logic;
pub mod renderer;
