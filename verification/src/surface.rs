//! Decisions of the render loop: which surface format to draw in and what
//! to do with each window event.

use vstd::prelude::*;

verus! {

/// `i` is the index of the first `true` in `srgb`.
pub open spec fn first_srgb(srgb: Seq<bool>, i: int) -> bool {
    0 <= i < srgb.len() && srgb[i] && forall|k: int| 0 <= k < i ==> !srgb[k]
}

/// Picks the surface format among those the surface supports, given for
/// each whether it is an sRGB format: the first sRGB one, or else the first
/// one. There must be at least one format.
pub fn pick_surface_format(srgb: &[bool]) -> (index: usize)
    requires
        srgb@.len() > 0,
    ensures
        index < srgb@.len(),
        (exists|i: int| 0 <= i < srgb@.len() && srgb@[i]) ==> first_srgb(srgb@, index as int),
        (forall|i: int| 0 <= i < srgb@.len() ==> !srgb@[i]) ==> index == 0,
{
    let mut i: usize = 0;
    while i < srgb.len()
        invariant
            i <= srgb@.len(),
            forall|k: int| 0 <= k < i ==> !srgb@[k],
        decreases srgb@.len() - i,
    {
        if srgb[i] {
            return i;
        }
        i = i + 1;
    }
    0
}

/// The window events the render loop tells apart.
#[derive(Debug, Clone, Copy, PartialEq, Eq, Structural)]
pub enum WindowSignal {
    RedrawRequested,
    CloseRequested,
    Other,
}

/// What the render loop does in answer to an event.
#[derive(Debug, Clone, Copy, PartialEq, Eq, Structural)]
pub enum FrameAction {
    /// Draw a frame, present it and ask for the next redraw.
    DrawFrame,
    /// Leave the event loop.
    Exit,
    /// Nothing.
    Ignore,
}

/// The answer to a window event.
pub open spec fn action_for(signal: WindowSignal) -> FrameAction {
    match signal {
        WindowSignal::RedrawRequested => FrameAction::DrawFrame,
        WindowSignal::CloseRequested => FrameAction::Exit,
        WindowSignal::Other => FrameAction::Ignore,
    }
}

/// Decides what the render loop does with a window event.
pub fn on_window_event(signal: WindowSignal) -> (action: FrameAction)
    ensures
        action == action_for(signal),
{
    match signal {
        WindowSignal::RedrawRequested => FrameAction::DrawFrame,
        WindowSignal::CloseRequested => FrameAction::Exit,
        WindowSignal::Other => FrameAction::Ignore,
    }
}

} // verus!
