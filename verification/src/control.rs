use futures::channel::mpsc::{UnboundedReceiver, UnboundedSender};
use std::time::Instant;
use vstd::prelude::*;

verus! {

/// A moment of the system's monotonic clock, which nothing here looks into.
#[verifier::external_type_specification]
#[verifier::external_body]
pub struct ExInstant(std::time::Instant);

/// The transmission end of an unbounded channel.
#[verifier::external_type_specification]
#[verifier::external_body]
#[verifier::reject_recursive_types(T)]
pub struct ExUnboundedSender<T>(futures::channel::mpsc::UnboundedSender<T>);

/// The receiving end of an unbounded channel.
#[verifier::external_type_specification]
#[verifier::external_body]
#[verifier::reject_recursive_types(T)]
pub struct ExUnboundedReceiver<T>(futures::channel::mpsc::UnboundedReceiver<T>);

/// What an event loop does once it has handled the events at hand.
#[derive(Clone, Copy, Debug, PartialEq, Eq)]
pub enum ControlFlow {
    /// Begin the next iteration at once.
    Poll,
    /// Wait for the next event.
    Wait,
    /// Wait for the next event, but no longer than until the given moment.
    WaitUntil(Instant),
    /// Stop, with the given exit code.
    ExitWithCode(i32),
}

/// A request of the user interface to be drawn again.
#[derive(Clone, Copy, Debug, PartialEq, Eq)]
pub enum RedrawRequest {
    /// Draw the next frame.
    NextFrame,
    /// Draw at the given moment.
    At(Instant),
}

/// The state of a user interface after an update.
#[derive(Clone, Copy, Debug, PartialEq, Eq)]
pub enum InterfaceState {
    /// The user interface has to be built anew.
    Outdated,
    /// The user interface is up to date.
    Updated { redraw_request: Option<RedrawRequest> },
}

/// What came of an attempt to take a control flow out of a channel.
#[derive(Clone, Copy, Debug, PartialEq, Eq)]
pub enum Attempt {
    /// A control flow was there.
    Taken(ControlFlow),
    /// None was there, but one may still come.
    Empty,
    /// None was there, and none will come.
    Closed,
}

impl Attempt {
    /// The control flow that was taken, if any.
    pub open spec fn flow(self) -> Option<ControlFlow> {
        match self {
            Attempt::Taken(flow) => Some(flow),
            _ => None,
        }
    }

    /// Returns the control flow that was taken, if any.
    pub fn into_flow(self) -> (flow: Option<ControlFlow>)
        ensures
            flow == self.flow(),
    {
        match self {
            Attempt::Taken(flow) => Some(flow),
            _ => None,
        }
    }
}

impl ControlFlow {
    /// Whether the event loop is about to stop.
    pub open spec fn exits(self) -> bool {
        self is ExitWithCode
    }

    /// Returns whether the event loop is about to stop.
    pub fn is_exit(&self) -> (exit: bool)
        ensures
            exit == self.exits(),
    {
        matches!(self, ControlFlow::ExitWithCode(_))
    }
}

impl InterfaceState {
    /// The control flow that lets the next frame come when the user interface
    /// asked for it, and otherwise waits for the next event.
    pub open spec fn flow(self) -> ControlFlow {
        match self {
            InterfaceState::Updated { redraw_request: Some(RedrawRequest::NextFrame) } =>
                ControlFlow::Poll,
            InterfaceState::Updated { redraw_request: Some(RedrawRequest::At(at)) } =>
                ControlFlow::WaitUntil(at),
            _ => ControlFlow::Wait,
        }
    }

    /// Returns the control flow that the user interface asks for.
    pub fn control_flow(self) -> (flow: ControlFlow)
        ensures
            flow == self.flow(),
    {
        match self {
            InterfaceState::Updated { redraw_request: Some(redraw_request) } => match redraw_request {
                RedrawRequest::NextFrame => ControlFlow::Poll,
                RedrawRequest::At(at) => ControlFlow::WaitUntil(at),
            },
            _ => ControlFlow::Wait,
        }
    }
}

/// The control flows that were handed to the channel through this end, in the
/// order in which they were handed over.
pub uninterp spec fn sent(sender: UnboundedSender<ControlFlow>) -> Seq<ControlFlow>;

/// What came of the attempts to take a control flow out of the channel through
/// this end, in the order in which they were made.
pub uninterp spec fn received(receiver: UnboundedReceiver<ControlFlow>) -> Seq<Attempt>;

/// Whether the two ends are those of one channel, as
/// `UnboundedSender::is_connected_to` tells.
pub uninterp spec fn connected(
    sender: UnboundedSender<ControlFlow>,
    receiver: UnboundedReceiver<ControlFlow>,
) -> bool;

/// Calls `futures::channel::mpsc::unbounded`, which opens a channel and returns
/// its two ends. The claim: they are the ends of one channel, nothing was handed
/// over through the one, and nothing was asked of the other yet.
#[verifier::external_body]
pub(crate) fn unbounded() -> (ends: (UnboundedSender<ControlFlow>, UnboundedReceiver<ControlFlow>))
    ensures
        sent(ends.0) == Seq::<ControlFlow>::empty(),
        received(ends.1) == Seq::<Attempt>::empty(),
        connected(ends.0, ends.1),
{
    futures::channel::mpsc::unbounded()
}

/// Calls `UnboundedSender::start_send`, which puts a message at the back of the
/// channel, or drops it where the receiving end is gone. The claim: the flow,
/// and nothing else, was handed over, and the end is still one of the same
/// channel. Which of the two became of the flow rests with the other end, so
/// nothing is said of that, and no caller asks. The call
/// panics with `usize::MAX / 2` messages in the channel, which are more than
/// memory can hold.
#[verifier::external_body]
pub(crate) fn start_send(sender: &mut UnboundedSender<ControlFlow>, flow: ControlFlow)
    ensures
        sent(*final(sender)) == sent(*old(sender)).push(flow),
        forall|receiver: UnboundedReceiver<ControlFlow>|
            #[trigger] connected(*final(sender), receiver) == connected(*old(sender), receiver),
{
    let _ = sender.start_send(flow);
}

/// Calls `UnboundedReceiver::try_next`, which takes the message at the front of
/// the channel, if one is there, and otherwise tells whether the channel is
/// closed. The claim: one attempt was made, with the outcome that is returned;
/// the end is then still one of the same channel, unless it found the channel
/// closed and lets go of it. Whether a message is there, and which, rests with
/// the other end, so nothing is said of that.
#[verifier::external_body]
#[allow(deprecated)]
pub(crate) fn try_next(receiver: &mut UnboundedReceiver<ControlFlow>) -> (attempt: Attempt)
    ensures
        received(*final(receiver)) == received(*old(receiver)).push(attempt),
        forall|sender: UnboundedSender<ControlFlow>| #[trigger]
            connected(sender, *final(receiver)) == (!(attempt is Closed) && connected(
                sender,
                *old(receiver),
            )),
{
    match receiver.try_next() {
        Ok(Some(flow)) => Attempt::Taken(flow),
        Ok(None) => Attempt::Closed,
        Err(_) => Attempt::Empty,
    }
}

} // verus!
