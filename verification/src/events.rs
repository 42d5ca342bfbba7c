//! Pure decisions of the window event loop.
//!
//! The event loop itself lives with the windowing library in the
//! application shell; what is decided for each event — leave, render,
//! reconfigure, or do nothing — is worked out here, on plain values.

use vstd::prelude::*;

verus! {

/// Frames are capped at twenty per second: a redraw is honored only after
/// this many milliseconds have passed since the last rendered frame.
pub const FRAME_INTERVAL_MILLIS: u64 = 50;

/// A window event, reduced to the plain values the decision reads.
#[derive(Clone, Copy, Debug, PartialEq, Eq, Structural)]
pub enum WindowEvent {
    /// The close button was pressed.
    CloseRequested,
    /// The system asks for a redraw. `window_matches` says whether the
    /// event addresses the window this application opened,
    /// `renderer_ready` whether a renderer has been set up yet, and
    /// `elapsed_millis` counts the time since the last rendered frame.
    RedrawRequested { window_matches: bool, renderer_ready: bool, elapsed_millis: u64 },
    /// The window took a new size, in pixels.
    Resized { width: u32, height: u32 },
    /// Any other event.
    Other,
}

/// What the event loop is to do about an event.
#[derive(Clone, Copy, Debug, PartialEq, Eq, Structural)]
pub enum WindowAction {
    /// Leave the event loop.
    Exit,
    /// Render a frame now, then queue the next redraw.
    RenderAndRequestRedraw,
    /// Skip this frame but queue the next redraw.
    RequestRedrawOnly,
    /// Reconfigure the rendering surface to the new size.
    Reconfigure { width: u32, height: u32 },
    /// Nothing to do.
    Ignore,
}

/// The decision table of the event loop: close requests leave the loop; a
/// redraw for the application's own window renders when a renderer exists
/// and the frame cap allows, and always queues the next redraw; a redraw
/// for a foreign window is ignored; a resize to a non-empty size
/// reconfigures the surface, one to an empty size is ignored.
pub open spec fn decide_window_event(e: WindowEvent) -> WindowAction {
    match e {
        WindowEvent::CloseRequested => WindowAction::Exit,
        WindowEvent::RedrawRequested { window_matches, renderer_ready, elapsed_millis } => {
            if !window_matches {
                WindowAction::Ignore
            } else if renderer_ready && elapsed_millis >= FRAME_INTERVAL_MILLIS {
                WindowAction::RenderAndRequestRedraw
            } else {
                WindowAction::RequestRedrawOnly
            }
        },
        WindowEvent::Resized { width, height } => {
            if width > 0 && height > 0 {
                WindowAction::Reconfigure { width, height }
            } else {
                WindowAction::Ignore
            }
        },
        WindowEvent::Other => WindowAction::Ignore,
    }
}

/// Decides what the event loop does about `event`; see
/// [`decide_window_event`] for the table it follows.
pub fn handle_window_event(event: &WindowEvent) -> (a: WindowAction)
    ensures
        a == decide_window_event(*event),
{
    match *event {
        WindowEvent::CloseRequested => WindowAction::Exit,
        WindowEvent::RedrawRequested { window_matches, renderer_ready, elapsed_millis } => {
            if !window_matches {
                WindowAction::Ignore
            } else if renderer_ready && elapsed_millis >= FRAME_INTERVAL_MILLIS {
                WindowAction::RenderAndRequestRedraw
            } else {
                WindowAction::RequestRedrawOnly
            }
        },
        WindowEvent::Resized { width, height } => {
            if width > 0 && height > 0 {
                WindowAction::Reconfigure { width, height }
            } else {
                WindowAction::Ignore
            }
        },
        WindowEvent::Other => WindowAction::Ignore,
    }
}

} // verus!
