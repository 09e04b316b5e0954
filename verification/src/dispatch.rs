//! The event loop dispatcher's routing table.
//!
//! The single foreground control loop receives native window events and
//! internal wake signals and routes each to one directive: open the first
//! window at loop start, forward close requests, resize the affected
//! surface, or attempt to apply queued batches. The routing itself touches
//! no state; the loop carries each directive out against the controller.

use vstd::prelude::*;
use crate::message::UserWindowEvent;

verus! {

/// One foreground event, as the native event loop hands it to the
/// dispatcher.
#[derive(Clone, Copy, Debug, PartialEq, Eq, Structural)]
pub enum LoopEvent {
    /// The event loop has just started.
    Init,
    /// The user asked to close this window.
    CloseRequested { window: u64 },
    /// This native window has been destroyed.
    Destroyed { window: u64 },
    /// A key was pressed in this window; the flag says whether it matched
    /// the configured quit accelerator.
    KeyboardInput { window: u64, is_quit_chord: bool },
    /// This window was resized.
    Resized { window: u64 },
    /// This window was moved.
    Moved { window: u64 },
    /// A wake signal posted by the worker.
    Wake { signal: UserWindowEvent },
    /// The loop has drained its native events and is about to idle.
    Idle,
    /// Any other native event; the bridge ignores it.
    Other,
}

/// What the foreground loop must do in response to one event. Leaving the
/// loop is never a directive of its own: it is reached only through the
/// quit-on-last-close answer of closing a window.
#[derive(Clone, Copy, Debug, PartialEq, Eq, Structural)]
pub enum LoopDirective {
    /// Construct the first native window and its surface, and register it.
    OpenWindow,
    /// Remove this window from the registry; exit if it was the last one and
    /// the quit-on-last-close policy is enabled.
    CloseWindow { window: u64 },
    /// Forward the size change to this window's surface.
    ResizeSurface { window: u64 },
    /// If the readiness flag is set, drain the edit queue and apply every
    /// drained batch, in order.
    TryApply,
    /// Nothing to do.
    Continue,
}

/// The dispatcher's routing table: which directive answers which event.
/// A close request, a destroyed notification and a quit chord each close
/// that one window and no other — close requests are honored
/// unconditionally, and the loop ends only when the last window's closure
/// says so; both a worker wake signal and an idle tick trigger an apply
/// attempt.
pub open spec fn route_spec(ev: LoopEvent) -> LoopDirective {
    match ev {
        LoopEvent::Init => LoopDirective::OpenWindow,
        LoopEvent::CloseRequested { window } => LoopDirective::CloseWindow { window },
        LoopEvent::Destroyed { window } => LoopDirective::CloseWindow { window },
        LoopEvent::KeyboardInput { window, is_quit_chord } => if is_quit_chord {
            LoopDirective::CloseWindow { window }
        } else {
            LoopDirective::Continue
        },
        LoopEvent::Resized { window } => LoopDirective::ResizeSurface { window },
        LoopEvent::Moved { window } => LoopDirective::ResizeSurface { window },
        LoopEvent::Wake { signal } => LoopDirective::TryApply,
        LoopEvent::Idle => LoopDirective::TryApply,
        LoopEvent::Other => LoopDirective::Continue,
    }
}

/// Route one foreground event to its directive.
pub fn route_event(ev: &LoopEvent) -> (d: LoopDirective)
    ensures
        d == route_spec(*ev),
{
    match ev {
        LoopEvent::Init => LoopDirective::OpenWindow,
        LoopEvent::CloseRequested { window } => LoopDirective::CloseWindow { window: *window },
        LoopEvent::Destroyed { window } => LoopDirective::CloseWindow { window: *window },
        LoopEvent::KeyboardInput { window, is_quit_chord } => if *is_quit_chord {
            LoopDirective::CloseWindow { window: *window }
        } else {
            LoopDirective::Continue
        },
        LoopEvent::Resized { window } => LoopDirective::ResizeSurface { window: *window },
        LoopEvent::Moved { window } => LoopDirective::ResizeSurface { window: *window },
        LoopEvent::Wake { signal } => LoopDirective::TryApply,
        LoopEvent::Idle => LoopDirective::TryApply,
        LoopEvent::Other => LoopDirective::Continue,
    }
}

} // verus!
