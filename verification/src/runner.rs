use crate::control::{connected, received, sent, try_next, unbounded, Attempt, ControlFlow};
use crate::event::PhysicalSize;
use futures::channel::mpsc::{UnboundedReceiver, UnboundedSender};
use vstd::prelude::*;

verus! {

/// An event as the event loop hands it out, of a window named by an `I`.
///
/// A change of the scale factor is lent only; any other event is an `X` that
/// can be kept, or nothing where even that could not be kept.
pub enum Incoming<I, X> {
    ScaleFactorChanged { window_id: I, new_inner_size: PhysicalSize },
    Other(Option<X>),
}

/// An event that is passed on to the application.
#[derive(Debug, PartialEq, Eq)]
pub enum Outgoing<I, X> {
    Resized { window_id: I, size: PhysicalSize },
    Other(X),
}

/// How far the application came with the events it was given.
#[derive(Clone, Copy, Debug, PartialEq, Eq, Structural)]
pub enum Progress {
    /// It waits for the next event.
    Pending,
    /// It ended.
    Finished,
}

impl<I, X> Incoming<I, X> {
    /// The event in a form that can be kept. A change of the scale factor
    /// becomes the resize that comes with it, of the same window.
    pub open spec fn kept(self) -> Option<Outgoing<I, X>> {
        match self {
            Incoming::ScaleFactorChanged { window_id, new_inner_size } => Some(
                Outgoing::Resized { window_id, size: new_inner_size },
            ),
            Incoming::Other(Some(event)) => Some(Outgoing::Other(event)),
            Incoming::Other(None) => None,
        }
    }
}

/// The event that is passed on to the application under the control flow
/// `flow`: none once the loop is about to stop.
pub open spec fn forwarded<I, X>(flow: ControlFlow, event: Incoming<I, X>) -> Option<
    Outgoing<I, X>,
> {
    if flow.exits() {
        None
    } else {
        event.kept()
    }
}

/// The control flow after the application was given an event, where `flow` held
/// before and `taken` is what the application announced.
pub open spec fn settled(
    flow: ControlFlow,
    progress: Progress,
    taken: Option<ControlFlow>,
) -> ControlFlow {
    match progress {
        Progress::Finished => ControlFlow::ExitWithCode(0),
        Progress::Pending => match taken {
            Some(announced) => announced,
            None => flow,
        },
    }
}

/// Returns the event that the callback passes on to the application, if any.
pub fn forward<I, X>(flow: &ControlFlow, event: Incoming<I, X>) -> (passed: Option<
    Outgoing<I, X>,
>)
    ensures
        passed == forwarded(*flow, event),
{
    if flow.is_exit() {
        return None;
    }
    match event {
        Incoming::ScaleFactorChanged { window_id, new_inner_size } => Some(
            Outgoing::Resized { window_id, size: new_inner_size },
        ),
        Incoming::Other(event) => match event {
            Some(event) => Some(Outgoing::Other(event)),
            None => None,
        },
    }
}

/// Returns the control flow that the callback leaves behind, where `taken` is what
/// the application announced.
pub fn next_flow(flow: ControlFlow, progress: Progress, taken: Option<ControlFlow>) -> (next:
    ControlFlow)
    ensures
        next == settled(flow, progress, taken),
{
    match progress {
        Progress::Finished => ControlFlow::ExitWithCode(0),
        Progress::Pending => match taken {
            Some(announced) => announced,
            None => flow,
        },
    }
}

/// The part of the shell that stands in the callback of the event loop.
pub struct Runner {
    controls: UnboundedReceiver<ControlFlow>,
}

impl Runner {
    /// The end of the channel through which it hears of control flows.
    pub closed spec fn receiver(&self) -> UnboundedReceiver<ControlFlow> {
        self.controls
    }

    /// What came of the attempts to take an announcement so far.
    pub open spec fn attempts(&self) -> Seq<Attempt> {
        received(self.receiver())
    }

    /// Whether it hears of what is announced through the given end.
    pub open spec fn hears(&self, sender: UnboundedSender<ControlFlow>) -> bool {
        connected(sender, self.receiver())
    }

    /// Creates a runner, with the end through which an application announces
    /// control flows to it.
    pub fn new() -> (made: (Self, UnboundedSender<ControlFlow>))
        ensures
            made.0.hears(made.1),
            made.0.attempts() == Seq::<Attempt>::empty(),
            sent(made.1) == Seq::<ControlFlow>::empty(),
    {
        let (sender, controls) = unbounded();
        (Runner { controls }, sender)
    }

    /// Returns the control flow after the application was given an event.
    ///
    /// An application that waits is asked once for an announcement, which then
    /// is the control flow if there is one. None is asked for of an application
    /// that ended. The runner goes on hearing what it heard, until it finds that
    /// no announcement will come any more.
    pub fn settle(&mut self, flow: ControlFlow, progress: Progress) -> (next: ControlFlow)
        ensures
            progress == Progress::Finished ==> {
                &&& next == settled(flow, progress, None)
                &&& final(self).receiver() == old(self).receiver()
            },
            progress == Progress::Pending ==> {
                &&& final(self).attempts().len() == old(self).attempts().len() + 1
                &&& final(self).attempts().drop_last() == old(self).attempts()
                &&& next == settled(flow, progress, final(self).attempts().last().flow())
                &&& forall|sender: UnboundedSender<ControlFlow>| #[trigger]
                    final(self).hears(sender) == (!(final(self).attempts().last() is Closed)
                        && old(self).hears(sender))
            },
    {
        let taken: Option<ControlFlow> = match progress {
            Progress::Finished => None,
            Progress::Pending => try_next(&mut self.controls).into_flow(),
        };
        next_flow(flow, progress, taken)
    }
}

} // verus!
