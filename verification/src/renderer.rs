//! What a frame has to upload. The renderer keeps a copy of what the GPU
//! holds, rebuilds it from the game for every frame, and touches a buffer
//! only where the two differ. Shares of the window are kept exact, as pixel
//! counts over the window's size; whoever fills the GPU buffers divides.

use vstd::prelude::*;

use crate::event::{Event, WindowSize};

pub mod background;
pub mod cube;


verus! {

/// The edge of one grid cell, in pixels.
pub const BLOCK_SIZE: u32 = 20;

/// A share of the window along one axis: a length in pixels over the
/// window's length in pixels. Two shares are the same when both parts are.
#[derive(Debug, Clone, Copy, PartialEq, Eq, Structural)]
pub struct Fraction {
    pub numerator: i64,
    pub denominator: u32,
}

/// The length in pixels of a run of `cells` grid cells.
pub fn pixels(cells: i64) -> (length: i64)
    requires
        -0x1_0000_0000 <= cells <= 0x1_0000_0000,
    ensures
        length == cells * BLOCK_SIZE,
{
    assert(cells * BLOCK_SIZE == cells * 20) by (nonlinear_arith)
        requires
            BLOCK_SIZE == 20,
    ;
    cells * 20
}

/// What has to happen to a GPU buffer before the next draw.
#[derive(Debug, Clone, Copy, PartialEq, Eq, Structural)]
pub enum Upload {
    /// The buffer holds what is wanted.
    Keep,
    /// The buffer has the right size: write the new contents into it.
    Write,
    /// The buffer has the wrong size: make a new one with the new contents.
    Recreate,
}

/// What the renderer does on a window event.
#[derive(Debug, Clone, Copy, PartialEq, Eq, Structural)]
pub enum RenderAction {
    Ignore,
    /// Give the surface this size.
    Resize(WindowSize),
    /// Draw a frame.
    Redraw,
}

/// Only events of the renderer's own window count, and of those only a new
/// size and a request to redraw.
pub open spec fn routed(for_this_window: bool, event: Event) -> RenderAction {
    if !for_this_window {
        RenderAction::Ignore
    } else {
        match event {
            Event::Resized(size) => RenderAction::Resize(size),
            Event::RedrawRequested => RenderAction::Redraw,
            _ => RenderAction::Ignore,
        }
    }
}

pub fn window_event(for_this_window: bool, event: &Event) -> (action: RenderAction)
    ensures
        action == routed(for_this_window, *event),
{
    if !for_this_window {
        return RenderAction::Ignore;
    }
    match event {
        Event::Resized(size) => RenderAction::Resize(*size),
        Event::RedrawRequested => RenderAction::Redraw,
        _ => RenderAction::Ignore,
    }
}

/// The upload for a buffer of fixed size: nothing where the contents are
/// those of the last upload, a write in place otherwise.
pub open spec fn uniform_upload<T>(cached: T, fresh: T) -> Upload {
    if cached == fresh {
        Upload::Keep
    } else {
        Upload::Write
    }
}

/// The upload for a buffer of one record per entity: nothing where the
/// records are those of the last upload; a new buffer where their number
/// changed; a write in place otherwise.
pub open spec fn instance_upload<T>(cached: Seq<T>, fresh: Seq<T>) -> Upload {
    if cached == fresh {
        Upload::Keep
    } else if cached.len() != fresh.len() {
        Upload::Recreate
    } else {
        Upload::Write
    }
}

/// A buffer is made anew only when the number of records changes: with the
/// count unchanged the records are at most rewritten in place. And it is
/// always made anew then, since records of another number are other records.
pub proof fn lemma_recreate_iff_count_changes<T>(cached: Seq<T>, fresh: Seq<T>)
    ensures
        instance_upload(cached, fresh) == Upload::Recreate <==> cached.len() != fresh.len(),
        cached.len() == fresh.len() && cached != fresh ==> instance_upload(cached, fresh)
            == Upload::Write,
{
}

} // verus!
