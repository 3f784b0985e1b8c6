use crate::control::{sent, start_send, ControlFlow, InterfaceState};
use crate::cursor::{CursorIcon, Interaction};
use crate::event::{Event, InterfaceEvent, PhysicalSize, Status, Viewport};
use crate::runner::Runner;
use futures::channel::mpsc::UnboundedSender;
use std::time::Instant;
use vstd::prelude::*;

verus! {

/// What an instance is given: an event of its loop, or the result of an action.
///
/// `M` is a message to the application, `E` an event of its user interface, `L`
/// a list of messages and `S` a list of statuses.
#[derive(Debug)]
pub enum Input<M, E, L = Vec<M>, S = Vec<Status>> {
    /// The actions of the beginning are done. `should_exit` tells whether one
    /// of them asked the application to end.
    Started { should_exit: bool },
    /// The next event of the loop.
    Event(Event<M>),
    /// There is no next event, and there will be none.
    Closed,
    /// What became of the window's event, if the user interface knows its kind.
    Converted(Option<E>),
    /// The user interface took its events. It returns the messages that it was
    /// lent, behind which it put its own.
    InterfaceUpdated { state: InterfaceState, statuses: S, messages: L },
    /// The application took its messages. `should_exit` tells whether it is to
    /// end.
    ApplicationUpdated { should_exit: bool },
    /// The user interface was updated for a new frame at the moment `now`, with
    /// the messages that it had to send, and drawn.
    Redrawn { now: Instant, state: InterfaceState, messages: L, interaction: Interaction },
    /// The window was asked for a frame, and the runtime knows of the redraw.
    RedrawBroadcast,
    /// The user interface was laid out anew and drawn.
    Relaid(Interaction),
}

/// What an instance asks for. The actions of one answer are to be done in order.
#[derive(Debug, PartialEq, Eq)]
pub enum Action<E, L> {
    /// Run the command that the application began with.
    RunInitCommand,
    /// Follow the application's subscription.
    TrackSubscription,
    /// Build the user interface for the first time.
    BuildInterface,
    /// Update the user interface with the pending events. It is lent the
    /// messages that wait for the application.
    UpdateInterface(L),
    /// Let the runtime know of an event and of what became of it.
    Broadcast(InterfaceEvent<E>, Status),
    /// Update the application with the messages, in order.
    UpdateApplication(L),
    /// Bring the window in line with the application.
    Synchronize,
    /// Build the user interface anew, out of what the last one remembers.
    RebuildInterface,
    /// Update the user interface for a new frame, at the moment it is now.
    RedrawInterface,
    /// Draw the user interface.
    Draw,
    /// Change the icon of the mouse cursor.
    SetCursor(CursorIcon),
    /// Ask the window for a frame.
    RequestRedraw,
    /// Make the OpenGL context the current one.
    MakeContextCurrent,
    /// Lay out the user interface for the size that the window has now.
    Relayout,
    /// Resize the OpenGL context.
    ResizeContext(PhysicalSize),
    /// Resize the area that the compositor draws to.
    ResizeViewport(PhysicalSize),
    /// Show what was drawn.
    Present,
    /// Swap the buffers of the window.
    SwapBuffers,
    /// Take note of what happened to the window.
    UpdateState,
    /// Turn the window's event into one of the user interface.
    ConvertEvent,
    /// Drop the user interface.
    DropInterface,
}

/// An input with its lists taken by their views.
pub type InputView<M, E> = Input<M, E, Seq<M>, Seq<Status>>;

/// An action with its list taken by its view.
pub type ActionView<E, M> = Action<E, Seq<M>>;

/// What an instance is waiting for, where `L` stands for the messages that it
/// has lent.
pub enum Phase<L> {
    /// The actions of the beginning.
    Starting,
    /// The next event of the loop.
    Waiting,
    /// The conversion of a window's event.
    Converting,
    /// The update of the user interface.
    UpdatingInterface(L),
    /// The update of the application.
    UpdatingApplication,
    /// The drawing of a new frame.
    Redrawing,
    /// The request for the frame that was drawn, after which the control flow
    /// that goes with the state of the user interface is announced.
    Announcing(InterfaceState),
    /// The layout for another viewport.
    Relayouting(Viewport),
    /// Nothing: it ended.
    Finished,
}

impl<M, E> View for Input<M, E> {
    type V = InputView<M, E>;

    open spec fn view(&self) -> InputView<M, E> {
        match *self {
            Input::Started { should_exit } => Input::Started { should_exit },
            Input::Event(event) => Input::Event(event),
            Input::Closed => Input::Closed,
            Input::Converted(event) => Input::Converted(event),
            Input::InterfaceUpdated { state, statuses, messages } => Input::InterfaceUpdated {
                state,
                statuses: statuses@,
                messages: messages@,
            },
            Input::ApplicationUpdated { should_exit } => Input::ApplicationUpdated { should_exit },
            Input::Redrawn { now, state, messages, interaction } => Input::Redrawn {
                now,
                state,
                messages: messages@,
                interaction,
            },
            Input::RedrawBroadcast => Input::RedrawBroadcast,
            Input::Relaid(interaction) => Input::Relaid(interaction),
        }
    }
}

impl<E, M> View for Action<E, Vec<M>> {
    type V = ActionView<E, M>;

    open spec fn view(&self) -> ActionView<E, M> {
        match *self {
            Action::RunInitCommand => Action::RunInitCommand,
            Action::TrackSubscription => Action::TrackSubscription,
            Action::BuildInterface => Action::BuildInterface,
            Action::UpdateInterface(messages) => Action::UpdateInterface(messages@),
            Action::Broadcast(event, status) => Action::Broadcast(event, status),
            Action::UpdateApplication(messages) => Action::UpdateApplication(messages@),
            Action::Synchronize => Action::Synchronize,
            Action::RebuildInterface => Action::RebuildInterface,
            Action::RedrawInterface => Action::RedrawInterface,
            Action::Draw => Action::Draw,
            Action::SetCursor(icon) => Action::SetCursor(icon),
            Action::RequestRedraw => Action::RequestRedraw,
            Action::MakeContextCurrent => Action::MakeContextCurrent,
            Action::Relayout => Action::Relayout,
            Action::ResizeContext(size) => Action::ResizeContext(size),
            Action::ResizeViewport(size) => Action::ResizeViewport(size),
            Action::Present => Action::Present,
            Action::SwapBuffers => Action::SwapBuffers,
            Action::UpdateState => Action::UpdateState,
            Action::ConvertEvent => Action::ConvertEvent,
            Action::DropInterface => Action::DropInterface,
        }
    }
}

/// A list of actions, each taken by its view.
pub open spec fn plan<E, M>(actions: Seq<Action<E, Vec<M>>>) -> Seq<ActionView<E, M>> {
    Seq::new(actions.len(), |i: int| actions[i]@)
}

/// The broadcasts of events, each with the status at its place. An event
/// without a status, and a status without an event, is passed over.
pub open spec fn broadcasts<E, M>(events: Seq<E>, statuses: Seq<Status>) -> Seq<
    ActionView<E, M>,
> {
    Seq::new(
        if events.len() <= statuses.len() {
            events.len()
        } else {
            statuses.len()
        },
        |i: int| Action::Broadcast(InterfaceEvent::Window(events[i]), statuses[i]),
    )
}

/// The change of the cursor that goes with a new interaction: none where the
/// interaction is still the same.
pub open spec fn cursor_change<E, M>(before: Interaction, after: Interaction) -> Seq<
    ActionView<E, M>,
> {
    if after == before {
        Seq::empty()
    } else {
        seq![Action::SetCursor(after.icon())]
    }
}

/// The state of an instance.
#[verifier::ext_equal]
pub struct State<M, E> {
    /// What it is waiting for.
    pub phase: Phase<Seq<M>>,
    /// Whether the iteration of the loop is one that draws.
    pub redraw_pending: bool,
    /// The events that the user interface has not seen yet.
    pub events: Seq<E>,
    /// The messages that the application has not seen yet, but for those that
    /// are lent.
    pub messages: Seq<M>,
    /// The version of the viewport that the user interface is laid out for.
    pub viewport_version: usize,
    /// Whether the application asked to end.
    pub should_exit: bool,
    /// The interaction that the mouse cursor shows.
    pub interaction: Interaction,
    /// Whether the user ends the application by closing its window.
    pub exit_on_close_request: bool,
    /// The control flows that it announced.
    pub announced: Seq<ControlFlow>,
}

impl<M, E> State<M, E> {
    /// The state in which an instance begins.
    pub open spec fn initial(
        viewport_version: usize,
        exit_on_close_request: bool,
        announced: Seq<ControlFlow>,
    ) -> Self {
        State {
            phase: Phase::Starting,
            redraw_pending: false,
            events: Seq::empty(),
            messages: Seq::empty(),
            viewport_version,
            should_exit: false,
            interaction: Interaction::Idle,
            exit_on_close_request,
            announced,
        }
    }

    /// Nothing waits for the application while it is being updated or drawn, and
    /// what waited for it is lent while the user interface is updated. No event
    /// is pending until the frame is asked for. A layout is only redone for
    /// another viewport.
    pub open spec fn well_formed(self) -> bool {
        match self.phase {
            Phase::UpdatingInterface(_) => self.messages.len() == 0,
            Phase::UpdatingApplication => self.events.len() == 0 && self.messages.len() == 0,
            Phase::Redrawing => self.events.len() == 0 && self.messages.len() == 0,
            Phase::Announcing(_) => self.events.len() == 0,
            Phase::Relayouting(viewport) => viewport.version != self.viewport_version,
            _ => true,
        }
    }

    /// Whether nothing is there to be handled or drawn.
    pub open spec fn is_idle(self) -> bool {
        &&& !self.redraw_pending
        &&& self.events.len() == 0
        &&& self.messages.len() == 0
    }

    /// Whether the input is what the instance is waiting for.
    pub open spec fn accepts(self, input: InputView<M, E>) -> bool {
        match input {
            Input::Started { .. } => self.phase is Starting,
            Input::Event(_) => self.phase is Waiting,
            Input::Closed => self.phase is Waiting,
            Input::Converted(_) => self.phase is Converting,
            Input::InterfaceUpdated { .. } => self.phase is UpdatingInterface,
            Input::ApplicationUpdated { .. } => self.phase is UpdatingApplication,
            Input::Redrawn { .. } => self.phase is Redrawing,
            Input::RedrawBroadcast => self.phase is Announcing,
            Input::Relaid(_) => self.phase is Relayouting,
        }
    }

    /// The state after an event of the loop.
    pub open spec fn after_event(self, event: Event<M>) -> Self {
        match event {
            Event::NewEvents(cause) => State { redraw_pending: cause.draws(), ..self },
            Event::MainEventsCleared => if self.is_idle() {
                self
            } else {
                State {
                    phase: Phase::UpdatingInterface(self.messages),
                    messages: Seq::empty(),
                    ..self
                }
            },
            Event::UserEvent(message) => State { messages: self.messages.push(message), ..self },
            Event::RedrawRequested(frame) => if frame.viewport.version == self.viewport_version {
                self
            } else {
                State { phase: Phase::Relayouting(frame.viewport), ..self }
            },
            Event::WindowEvent { requests_exit } => State {
                phase: if requests_exit && self.exit_on_close_request {
                    Phase::Finished
                } else {
                    Phase::Converting
                },
                ..self
            },
            Event::Other => self,
        }
    }

    /// The answer to an event of the loop.
    pub open spec fn event_actions(self, event: Event<M>) -> Seq<ActionView<E, M>> {
        match event {
            Event::NewEvents(_) => Seq::empty(),
            Event::MainEventsCleared => if self.is_idle() {
                Seq::empty()
            } else {
                seq![Action::UpdateInterface(self.messages)]
            },
            Event::UserEvent(_) => Seq::empty(),
            Event::RedrawRequested(frame) => (if frame.context_is_current {
                Seq::empty()
            } else {
                seq![Action::MakeContextCurrent]
            }) + (if frame.viewport.version == self.viewport_version {
                seq![Action::Present, Action::SwapBuffers]
            } else {
                seq![Action::Relayout, Action::Draw]
            }),
            Event::WindowEvent { requests_exit } => if requests_exit && self.exit_on_close_request {
                seq![Action::DropInterface]
            } else {
                seq![Action::UpdateState, Action::ConvertEvent]
            },
            Event::Other => Seq::empty(),
        }
    }

    /// The state after an input.
    pub open spec fn after(self, input: InputView<M, E>) -> Self {
        match input {
            Input::Started { should_exit } => State { phase: Phase::Waiting, should_exit, ..self },
            Input::Event(event) => self.after_event(event),
            Input::Closed => State { phase: Phase::Finished, ..self },
            Input::Converted(converted) => State {
                phase: Phase::Waiting,
                events: match converted {
                    Some(event) => self.events.push(event),
                    None => self.events,
                },
                ..self
            },
            Input::InterfaceUpdated { state, statuses: _, messages } => State {
                phase: if messages.len() > 0 || state is Outdated {
                    Phase::UpdatingApplication
                } else {
                    Phase::Redrawing
                },
                events: Seq::empty(),
                messages: Seq::empty(),
                ..self
            },
            Input::ApplicationUpdated { should_exit } => State {
                phase: if should_exit {
                    Phase::Finished
                } else {
                    Phase::Redrawing
                },
                should_exit,
                ..self
            },
            Input::Redrawn { now: _, state, messages, interaction } => State {
                phase: Phase::Announcing(state),
                messages,
                interaction,
                ..self
            },
            Input::RedrawBroadcast => State {
                phase: Phase::Waiting,
                redraw_pending: false,
                announced: self.announced.push(self.phase->Announcing_0.flow()),
                ..self
            },
            Input::Relaid(interaction) => State {
                phase: Phase::Waiting,
                viewport_version: self.phase->Relayouting_0.version,
                interaction,
                ..self
            },
        }
    }

    /// The answer to an input.
    pub open spec fn actions(self, input: InputView<M, E>) -> Seq<
        ActionView<E, M>,
    > {
        match input {
            Input::Started { .. } => Seq::empty(),
            Input::Event(event) => self.event_actions(event),
            Input::Closed => seq![Action::DropInterface],
            Input::Converted(_) => Seq::empty(),
            Input::InterfaceUpdated { state, statuses, messages } => broadcasts(
                self.events,
                statuses,
            ) + (if messages.len() > 0 || state is Outdated {
                seq![
                    Action::UpdateApplication(messages),
                    Action::Synchronize,
                    Action::RebuildInterface,
                ]
            } else {
                seq![Action::RedrawInterface, Action::Draw]
            }),
            Input::ApplicationUpdated { should_exit } => if should_exit {
                seq![Action::DropInterface]
            } else {
                seq![Action::RedrawInterface, Action::Draw]
            },
            Input::Redrawn { now, state: _, messages: _, interaction } => cursor_change(
                self.interaction,
                interaction,
            ) + seq![
                Action::RequestRedraw,
                Action::Broadcast(InterfaceEvent::RedrawRequested(now), Status::Ignored),
            ],
            Input::RedrawBroadcast => Seq::empty(),
            Input::Relaid(interaction) => cursor_change(self.interaction, interaction) + seq![
                Action::ResizeContext(self.phase->Relayouting_0.physical_size),
                Action::ResizeViewport(self.phase->Relayouting_0.physical_size),
                Action::Present,
                Action::SwapBuffers,
            ],
        }
    }
}

/// Returns the broadcasts of events, each with the status at its place.
fn broadcast_all<E, M>(events: Vec<E>, statuses: Vec<Status>) -> (actions: Vec<Action<E, Vec<M>>>)
    ensures
        plan(actions@) == broadcasts::<E, M>(events@, statuses@),
{
    let mut actions: Vec<Action<E, Vec<M>>> = Vec::new();
    let mut place: usize = 0;
    for event in iter: events.into_iter()
        invariant
            iter.seq() == events@,
            place <= statuses@.len(),
            place == iter.index() || (place < iter.index() && place == statuses@.len()),
            place <= events@.len(),
            actions@.len() == place,
            forall|i: int|
                0 <= i < place ==> (#[trigger] actions@[i])@ == broadcasts::<E, M>(
                    events@,
                    statuses@,
                )[i],
    {
        if place < statuses.len() {
            actions.push(Action::Broadcast(InterfaceEvent::Window(event), statuses[place]));
            place += 1;
        }
    }
    actions
}

/// A running application, as far as it decides what happens next.
pub struct Instance<M, E> {
    phase: Phase<Ghost<Seq<M>>>,
    redraw_pending: bool,
    events: Vec<E>,
    messages: Vec<M>,
    viewport_version: usize,
    should_exit: bool,
    interaction: Interaction,
    exit_on_close_request: bool,
    controls: UnboundedSender<ControlFlow>,
}

impl<M, E> View for Instance<M, E> {
    type V = State<M, E>;

    closed spec fn view(&self) -> State<M, E> {
        State {
            phase: match self.phase {
                Phase::Starting => Phase::Starting,
                Phase::Waiting => Phase::Waiting,
                Phase::Converting => Phase::Converting,
                Phase::UpdatingInterface(lent) => Phase::UpdatingInterface(lent@),
                Phase::UpdatingApplication => Phase::UpdatingApplication,
                Phase::Redrawing => Phase::Redrawing,
                Phase::Announcing(state) => Phase::Announcing(state),
                Phase::Relayouting(viewport) => Phase::Relayouting(viewport),
                Phase::Finished => Phase::Finished,
            },
            redraw_pending: self.redraw_pending,
            events: self.events@,
            messages: self.messages@,
            viewport_version: self.viewport_version,
            should_exit: self.should_exit,
            interaction: self.interaction,
            exit_on_close_request: self.exit_on_close_request,
            announced: sent(self.controls),
        }
    }
}

impl<M, E> Instance<M, E> {
    /// The end of the channel through which it announces control flows.
    pub closed spec fn sender(&self) -> UnboundedSender<ControlFlow> {
        self.controls
    }

    /// Whether the runner hears of what it announces.
    pub open spec fn announces_to(&self, runner: Runner) -> bool {
        runner.hears(self.sender())
    }

    /// Creates an instance whose user interface is laid out for the viewport of
    /// the given version, with the actions to begin with. It announces its
    /// control flows through `controls`.
    pub fn new(
        controls: UnboundedSender<ControlFlow>,
        viewport_version: usize,
        exit_on_close_request: bool,
    ) -> (made: (Self, Vec<Action<E, Vec<M>>>))
        ensures
            made.0@ == State::<M, E>::initial(
                viewport_version,
                exit_on_close_request,
                sent(controls),
            ),
            made.0@.well_formed(),
            made.0.sender() == controls,
            made.0@.announced == sent(made.0.sender()),
            plan(made.1@) == seq![
                ActionView::<E, M>::RunInitCommand,
                Action::TrackSubscription,
                Action::BuildInterface,
            ],
    {
        let instance = Instance {
            phase: Phase::Starting,
            redraw_pending: false,
            events: Vec::new(),
            messages: Vec::new(),
            viewport_version,
            should_exit: false,
            interaction: Interaction::default(),
            exit_on_close_request,
            controls,
        };
        let actions: Vec<Action<E, Vec<M>>> = vec![
            Action::RunInitCommand,
            Action::TrackSubscription,
            Action::BuildInterface,
        ];
        (instance, actions)
    }

    /// Returns whether the input is what the instance is waiting for.
    pub fn accepts(&self, input: &Input<M, E>) -> (accepted: bool)
        ensures
            accepted == self@.accepts(input@),
    {
        match input {
            Input::Started { .. } => matches!(self.phase, Phase::Starting),
            Input::Event(_) => matches!(self.phase, Phase::Waiting),
            Input::Closed => matches!(self.phase, Phase::Waiting),
            Input::Converted(_) => matches!(self.phase, Phase::Converting),
            Input::InterfaceUpdated { .. } => matches!(self.phase, Phase::UpdatingInterface(_)),
            Input::ApplicationUpdated { .. } => matches!(self.phase, Phase::UpdatingApplication),
            Input::Redrawn { .. } => matches!(self.phase, Phase::Redrawing),
            Input::RedrawBroadcast => matches!(self.phase, Phase::Announcing(_)),
            Input::Relaid(_) => matches!(self.phase, Phase::Relayouting(_)),
        }
    }

    /// Returns whether the instance ended.
    pub fn is_finished(&self) -> (finished: bool)
        ensures
            finished == (self@.phase is Finished),
    {
        matches!(self.phase, Phase::Finished)
    }

    /// Returns whether the application asked to end.
    pub fn should_exit(&self) -> (should_exit: bool)
        ensures
            should_exit == self@.should_exit,
    {
        self.should_exit
    }

    /// Takes an input, and returns the actions that answer it.
    pub fn step(&mut self, input: Input<M, E>) -> (actions: Vec<Action<E, Vec<M>>>)
        requires
            old(self)@.well_formed(),
            old(self)@.accepts(input@),
        ensures
            final(self)@ == old(self)@.after(input@),
            final(self)@.well_formed(),
            plan(actions@) == old(self)@.actions(input@),
            final(self)@.announced == sent(final(self).sender()),
            forall|runner: Runner| #[trigger]
                final(self).announces_to(runner) == old(self).announces_to(runner),
    {
        match input {
            Input::Started { should_exit } => {
                self.should_exit = should_exit;
                self.phase = Phase::Waiting;
                Vec::new()
            },
            Input::Event(event) => self.handle_event(event),
            Input::Closed => {
                self.phase = Phase::Finished;
                vec![Action::DropInterface]
            },
            Input::Converted(converted) => {
                if let Some(event) = converted {
                    self.events.push(event);
                }
                self.phase = Phase::Waiting;
                Vec::new()
            },
            Input::InterfaceUpdated { state, statuses, messages } => {
                let mut events: Vec<E> = Vec::new();
                std::mem::swap(&mut events, &mut self.events);
                let mut actions = broadcast_all(events, statuses);
                if messages.len() > 0 || matches!(state, InterfaceState::Outdated) {
                    actions.push(Action::UpdateApplication(messages));
                    actions.push(Action::Synchronize);
                    actions.push(Action::RebuildInterface);
                    self.phase = Phase::UpdatingApplication;
                } else {
                    actions.push(Action::RedrawInterface);
                    actions.push(Action::Draw);
                    self.phase = Phase::Redrawing;
                }
                actions
            },
            Input::ApplicationUpdated { should_exit } => {
                self.should_exit = should_exit;
                if should_exit {
                    self.phase = Phase::Finished;
                    vec![Action::DropInterface]
                } else {
                    self.phase = Phase::Redrawing;
                    vec![Action::RedrawInterface, Action::Draw]
                }
            },
            Input::Redrawn { now, state, messages, interaction } => {
                let mut actions = self.show_interaction(interaction);
                actions.push(Action::RequestRedraw);
                actions.push(
                    Action::Broadcast(InterfaceEvent::RedrawRequested(now), Status::Ignored),
                );
                self.messages = messages;
                self.phase = Phase::Announcing(state);
                actions
            },
            Input::RedrawBroadcast => {
                if let Phase::Announcing(state) = self.phase {
                    start_send(&mut self.controls, state.control_flow());
                }
                self.redraw_pending = false;
                self.phase = Phase::Waiting;
                Vec::new()
            },
            Input::Relaid(interaction) => {
                let mut actions = self.show_interaction(interaction);
                if let Phase::Relayouting(viewport) = self.phase {
                    actions.push(Action::ResizeContext(viewport.physical_size));
                    actions.push(Action::ResizeViewport(viewport.physical_size));
                    actions.push(Action::Present);
                    actions.push(Action::SwapBuffers);
                    self.viewport_version = viewport.version;
                }
                self.phase = Phase::Waiting;
                actions
            },
        }
    }

    /// Takes an event of the loop, and returns the actions that answer it.
    fn handle_event(&mut self, event: Event<M>) -> (actions: Vec<Action<E, Vec<M>>>)
        requires
            old(self)@.phase is Waiting,
        ensures
            final(self)@ == old(self)@.after_event(event),
            final(self).sender() == old(self).sender(),
            plan(actions@) == old(self)@.event_actions(event),
    {
        match event {
            Event::NewEvents(cause) => {
                self.redraw_pending = cause.requests_redraw();
                Vec::new()
            },
            Event::MainEventsCleared => {
                if !self.redraw_pending && self.events.len() == 0 && self.messages.len() == 0 {
                    return Vec::new();
                }
                let mut messages: Vec<M> = Vec::new();
                std::mem::swap(&mut messages, &mut self.messages);
                self.phase = Phase::UpdatingInterface(Ghost(messages@));
                vec![Action::UpdateInterface(messages)]
            },
            Event::UserEvent(message) => {
                self.messages.push(message);
                Vec::new()
            },
            Event::RedrawRequested(frame) => {
                let mut actions: Vec<Action<E, Vec<M>>> = Vec::new();
                if !frame.context_is_current {
                    actions.push(Action::MakeContextCurrent);
                }
                if self.viewport_version != frame.viewport.version {
                    actions.push(Action::Relayout);
                    actions.push(Action::Draw);
                    self.phase = Phase::Relayouting(frame.viewport);
                } else {
                    actions.push(Action::Present);
                    actions.push(Action::SwapBuffers);
                }
                actions
            },
            Event::WindowEvent { requests_exit } => {
                if requests_exit && self.exit_on_close_request {
                    self.phase = Phase::Finished;
                    vec![Action::DropInterface]
                } else {
                    self.phase = Phase::Converting;
                    vec![Action::UpdateState, Action::ConvertEvent]
                }
            },
            Event::Other => Vec::new(),
        }
    }

    /// Lets the mouse cursor show an interaction, and returns the change of its
    /// icon, if it takes one.
    fn show_interaction(&mut self, interaction: Interaction) -> (actions: Vec<Action<E, Vec<M>>>)
        ensures
            final(self)@ == (State { interaction, ..old(self)@ }),
            final(self).sender() == old(self).sender(),
            plan(actions@) == cursor_change::<E, M>(old(self)@.interaction, interaction),
    {
        let mut actions: Vec<Action<E, Vec<M>>> = Vec::new();
        if interaction != self.interaction {
            actions.push(Action::SetCursor(interaction.cursor_icon()));
            self.interaction = interaction;
        }
        actions
    }

    /// Returns the events that the user interface has not seen yet.
    pub fn pending_events(&self) -> (events: &Vec<E>)
        ensures
            events@ == self@.events,
    {
        &self.events
    }
}

} // verus!
