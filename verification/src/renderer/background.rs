//! The quad behind the grid.

use vstd::prelude::*;

use super::{pixels, uniform_upload, Fraction, Upload, BLOCK_SIZE};
use crate::event::WindowSize;
use crate::logic::SnakeGameLogic;

verus! {

/// The share of the window that the grid covers, along each axis.
#[derive(Debug, Clone, Copy, PartialEq, Eq, Structural)]
pub struct BackgroundBuffer {
    pub width_percentage: Fraction,
    pub height_percentage: Fraction,
}

impl BackgroundBuffer {
    /// A grid of `width` by `height` cells covers one block more than its
    /// extent along each axis, the origin's cell being in the middle.
    pub open spec fn covering(width: int, height: int, window: WindowSize) -> BackgroundBuffer {
        BackgroundBuffer {
            width_percentage: Fraction {
                numerator: ((width + 1) * BLOCK_SIZE) as i64,
                denominator: window.width,
            },
            height_percentage: Fraction {
                numerator: ((height + 1) * BLOCK_SIZE) as i64,
                denominator: window.height,
            },
        }
    }

    pub fn from(logic: &SnakeGameLogic, window: &WindowSize) -> (buffer: Self)
        ensures
            buffer == Self::covering(logic@.width, logic@.height, *window),
    {
        let width_pixels: i64 = pixels(logic.width() as i64 + 1);
        let height_pixels: i64 = pixels(logic.height() as i64 + 1);

        Self {
            width_percentage: Fraction { numerator: width_pixels, denominator: window.width },
            height_percentage: Fraction { numerator: height_pixels, denominator: window.height },
        }
    }
}

/// Keeps what the background's uniform buffer holds.
pub struct BackgroundRenderer {
    background: BackgroundBuffer,
}

impl View for BackgroundRenderer {
    type V = BackgroundBuffer;

    /// What was uploaded last.
    closed spec fn view(&self) -> BackgroundBuffer {
        self.background
    }
}

impl BackgroundRenderer {
    pub fn new(logic: &SnakeGameLogic, window: &WindowSize) -> (renderer: Self)
        ensures
            renderer@ == BackgroundBuffer::covering(logic@.width, logic@.height, *window),
    {
        Self { background: BackgroundBuffer::from(logic, window) }
    }

    /// What was uploaded last.
    pub fn background(&self) -> (buffer: &BackgroundBuffer)
        ensures
            *buffer == self@,
    {
        &self.background
    }

    /// Prepares a frame: says whether the buffer has to be written, and
    /// remembers the new contents.
    pub fn draw(&mut self, logic: &SnakeGameLogic, window: &WindowSize) -> (upload: Upload)
        ensures
            final(self)@ == BackgroundBuffer::covering(logic@.width, logic@.height, *window),
            upload == uniform_upload(old(self)@, final(self)@),
    {
        let background = BackgroundBuffer::from(logic, window);
        if self.background != background {
            self.background = background;
            Upload::Write
        } else {
            Upload::Keep
        }
    }
}

} // verus!
