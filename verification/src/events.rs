//! The decisions of the window event loop, as a pure function from event to
//! action, so that the loop's driver only performs what is decided here.

use vstd::prelude::*;

verus! {

/// An event of the window loop, reduced to the plain values the demo reacts to.
#[derive(PartialEq, Eq, Structural, Clone, Copy, Debug)]
pub enum LoopEvent {
    /// The event loop is shutting down.
    LoopDestroyed,
    /// The window was resized to the given physical width and height.
    Resized(u32, u32),
    /// The user asked to close the window.
    CloseRequested,
    /// Any other event aimed at the window.
    OtherWindow,
    /// The window must be painted again.
    RedrawRequested,
    /// Any other event.
    Other,
}

/// What the loop's driver must do in reaction to one event.
#[derive(PartialEq, Eq, Structural, Clone, Copy, Debug)]
pub enum Action {
    /// Resize the drawing surface to the given physical width and height.
    Resize(u32, u32),
    /// Paint one frame: clear the color buffer, draw the triangle, swap buffers.
    RedrawFrame,
    /// Do nothing.
    Nothing,
}

/// How the loop goes on after one event.
#[derive(PartialEq, Eq, Structural, Clone, Copy, Debug)]
pub enum Flow {
    /// Sleep until the next event arrives.
    Wait,
    /// Leave the loop.
    Exit,
}

/// The demo's reaction to one event: a resize is applied to the surface, a
/// close request ends the loop, a redraw request paints one frame, and every
/// other event is ignored.
pub open spec fn spec_handle_event(e: LoopEvent) -> (Action, Flow) {
    match e {
        LoopEvent::Resized(w, h) => (Action::Resize(w, h), Flow::Wait),
        LoopEvent::CloseRequested => (Action::Nothing, Flow::Exit),
        LoopEvent::RedrawRequested => (Action::RedrawFrame, Flow::Wait),
        _ => (Action::Nothing, Flow::Wait),
    }
}

/// Decide what one event demands of the loop's driver.
pub fn handle_event(e: LoopEvent) -> (r: (Action, Flow))
    ensures
        r == spec_handle_event(e),
{
    match e {
        LoopEvent::Resized(w, h) => (Action::Resize(w, h), Flow::Wait),
        LoopEvent::CloseRequested => (Action::Nothing, Flow::Exit),
        LoopEvent::RedrawRequested => (Action::RedrawFrame, Flow::Wait),
        _ => (Action::Nothing, Flow::Wait),
    }
}

} // verus!
