use std::time::Instant;
use vstd::prelude::*;

verus! {

/// A size in physical pixels.
#[derive(Clone, Copy, Debug, PartialEq, Eq, Structural)]
pub struct PhysicalSize {
    pub width: u32,
    pub height: u32,
}

/// The area that is drawn to. The version tells two areas apart that one window
/// had at different times.
#[derive(Clone, Copy, Debug, PartialEq, Eq, Structural)]
pub struct Viewport {
    pub version: usize,
    pub physical_size: PhysicalSize,
}

/// What is known of the window at the moment a frame is to be shown.
#[derive(Clone, Copy, Debug, PartialEq, Eq, Structural)]
pub struct Frame {
    /// Whether the OpenGL context is the current one of its thread.
    pub context_is_current: bool,
    /// The area that the window has now.
    pub viewport: Viewport,
}

/// Why the event loop begins an iteration.
#[derive(Clone, Copy, Debug, PartialEq, Eq, Structural)]
pub enum StartCause {
    /// The moment that the loop was told to wait for has come.
    ResumeTimeReached,
    /// An event ended the wait.
    WaitCancelled,
    /// The loop was told not to wait.
    Poll,
    /// The loop has just begun.
    Init,
}

/// An event of the event loop, where `M` is a message to the application.
#[derive(Debug)]
pub enum Event<M> {
    /// An iteration of the loop begins.
    NewEvents(StartCause),
    /// All events of the iteration were handed out.
    MainEventsCleared,
    /// A message came in for the application.
    UserEvent(M),
    /// The window is to show a frame.
    RedrawRequested(Frame),
    /// Something happened to the window; `requests_exit` tells whether it is of
    /// the kind by which a user ends an application.
    WindowEvent { requests_exit: bool },
    /// Any other event.
    Other,
}

/// An event of the user interface, where `E` is what became of a window's event.
#[derive(Debug, PartialEq, Eq)]
pub enum InterfaceEvent<E> {
    /// Something happened to the window.
    Window(E),
    /// The user interface is being drawn, at the given moment.
    RedrawRequested(Instant),
}

/// What the user interface did with an event.
#[derive(Clone, Copy, Debug, PartialEq, Eq, Structural)]
pub enum Status {
    /// No widget handled it.
    Ignored,
    /// A widget handled it.
    Captured,
}

impl StartCause {
    /// Whether an iteration that begins for this cause is one that draws: the
    /// first of all, one that nothing was waited for, or one whose time has come.
    pub open spec fn draws(self) -> bool {
        self != StartCause::WaitCancelled
    }

    /// Returns whether an iteration that begins for this cause is one that draws.
    pub fn requests_redraw(self) -> (redraw: bool)
        ensures
            redraw == self.draws(),
    {
        matches!(self, StartCause::Init | StartCause::Poll | StartCause::ResumeTimeReached)
    }
}

} // verus!
