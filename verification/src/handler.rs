//! Window-event handling decisions.
//!
//! The windowing layer owns the event loop; the engine only decides what
//! each incoming window signal should cause.  `EngineHandler` is that
//! decision function: the surrounding loop performs the returned action
//! (closing, resizing, rendering and updating, or forwarding the event to
//! the scene).

use vstd::prelude::*;

use crate::event::WindowEvent;

verus! {

/// A window signal as the event loop sees it, already stripped to the
/// cases the engine reacts to.
#[derive(Clone, Copy, PartialEq, Eq, Structural, Debug)]
pub enum WindowSignal {
    CloseRequested,
    Resized { width: u64, height: u64 },
    RedrawRequested,
    Input { event: WindowEvent },
}

/// What the event loop should do with a window signal.
#[derive(Clone, Copy, PartialEq, Eq, Structural, Debug)]
pub enum HandlerAction {
    /// Leave the event loop.
    Exit,
    /// Resize the drawing surface.
    Resize { width: u64, height: u64 },
    /// Render a frame, then run the scene update.
    RenderAndUpdate,
    /// Hand the event to the scene's components.
    Forward { event: WindowEvent },
    /// The signal concerns another window or nothing at all.
    Ignore,
}

/// The action a signal calls for, given whether it addressed the
/// engine's own window.
pub open spec fn decide_signal(window_matches: bool, signal: WindowSignal) -> HandlerAction {
    if !window_matches {
        HandlerAction::Ignore
    } else {
        match signal {
            WindowSignal::CloseRequested => HandlerAction::Exit,
            WindowSignal::Resized { width, height } => HandlerAction::Resize { width, height },
            WindowSignal::RedrawRequested => HandlerAction::RenderAndUpdate,
            WindowSignal::Input { event } => HandlerAction::Forward { event },
        }
    }
}

/// Decides how the engine reacts to the window's events.
pub struct EngineHandler {}

impl EngineHandler {
    /// A fresh handler.
    pub fn new() -> (r: EngineHandler)
        ensures
            r == (EngineHandler {  }),
    {
        EngineHandler {}
    }

    /// Decide what a window signal should cause.
    pub fn window_event(&self, window_matches: bool, signal: WindowSignal) -> (r: HandlerAction)
        ensures
            r == decide_signal(window_matches, signal),
    {
        if !window_matches {
            return HandlerAction::Ignore;
        }
        match signal {
            WindowSignal::CloseRequested => HandlerAction::Exit,
            WindowSignal::Resized { width, height } => HandlerAction::Resize { width, height },
            WindowSignal::RedrawRequested => HandlerAction::RenderAndUpdate,
            WindowSignal::Input { event } => HandlerAction::Forward { event },
        }
    }
}

} // verus!
