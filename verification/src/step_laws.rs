use crate::control::{ControlFlow, InterfaceState, RedrawRequest};
use crate::cursor::{CursorIcon, Interaction};
use crate::event::{Event, Frame, InterfaceEvent, StartCause, Status};
use crate::instance::{plan, Action, ActionView, Input, InputView, Phase, State};
use vstd::prelude::*;

verus! {

/// No action comes without its reason, and each has its place: for every action
/// of every answer, what the instance was given and what stands around the
/// action are such that it is the right one there.
///
/// So an application that took messages is followed by the window being brought
/// in line and the user interface being rebuilt, in this order and nothing
/// behind it; a layout is redone before anything is drawn; the broadcast at a
/// place carries the pending event and the status at that place; and buffers are
/// swapped behind what was presented.
#[verifier::rlimit(30)]
pub proof fn law_every_action_has_its_reason<M, E>(
    state: State<M, E>,
    input: InputView<M, E>,
    at: int,
)
    requires
        state.accepts(input),
        0 <= at < state.actions(input).len(),
    ensures
        ({
            let actions = state.actions(input);
            let len = actions.len() as int;
            match actions[at] {
                Action::RunInitCommand => false,
                Action::TrackSubscription => false,
                Action::BuildInterface => false,
                Action::UpdateInterface(lent) => {
                    &&& input matches Input::Event(Event::MainEventsCleared)
                    &&& state.redraw_pending || state.events.len() > 0 || state.messages.len() > 0
                    &&& lent == state.messages
                    &&& at == 0
                    &&& len == 1
                },
                Action::Broadcast(InterfaceEvent::Window(event), status) => {
                    &&& input matches Input::InterfaceUpdated { statuses, .. }
                    &&& at < state.events.len()
                    &&& at < statuses.len()
                    &&& event == state.events[at]
                    &&& status == statuses[at]
                },
                Action::Broadcast(InterfaceEvent::RedrawRequested(moment), status) => {
                    &&& input matches Input::Redrawn { now, .. }
                    &&& moment == now
                    &&& status == Status::Ignored
                    &&& at == len - 1
                    &&& at > 0
                    &&& actions[at - 1] is RequestRedraw
                },
                Action::UpdateApplication(handed) => {
                    &&& input matches Input::InterfaceUpdated { state: interface, messages, .. }
                    &&& messages.len() > 0 || interface is Outdated
                    &&& handed == messages
                    &&& at == len - 3
                    &&& actions[at + 1] is Synchronize
                    &&& actions[at + 2] is RebuildInterface
                },
                Action::Synchronize => {
                    &&& at > 0
                    &&& actions[at - 1] is UpdateApplication
                },
                Action::RebuildInterface => {
                    &&& at > 1
                    &&& actions[at - 1] is Synchronize
                },
                Action::RedrawInterface => {
                    &&& {
                        ||| {
                            &&& input matches Input::InterfaceUpdated {
                                state: interface,
                                messages,
                                ..
                            }
                            &&& messages.len() == 0
                            &&& !(interface is Outdated)
                        }
                        ||| input matches Input::ApplicationUpdated { should_exit } && !should_exit
                    }
                    &&& at == len - 2
                    &&& actions[at + 1] is Draw
                },
                Action::Draw => {
                    &&& at > 0
                    &&& at == len - 1
                    &&& actions[at - 1] is RedrawInterface || actions[at - 1] is Relayout
                },
                Action::SetCursor(icon) => {
                    &&& at == 0
                    &&& {
                        ||| {
                            &&& input matches Input::Redrawn { interaction, .. }
                            &&& interaction != state.interaction
                            &&& icon == interaction.icon()
                        }
                        ||| {
                            &&& input matches Input::Relaid(interaction)
                            &&& interaction != state.interaction
                            &&& icon == interaction.icon()
                        }
                    }
                },
                Action::RequestRedraw => {
                    &&& input is Redrawn
                    &&& at == len - 2
                    &&& actions[at + 1] matches Action::Broadcast(
                        InterfaceEvent::RedrawRequested(_),
                        _,
                    )
                },
                Action::MakeContextCurrent => {
                    &&& input matches Input::Event(Event::RedrawRequested(frame))
                    &&& !frame.context_is_current
                    &&& at == 0
                },
                Action::Relayout => {
                    &&& input matches Input::Event(Event::RedrawRequested(frame))
                    &&& frame.viewport.version != state.viewport_version
                    &&& at == len - 2
                    &&& actions[at + 1] is Draw
                },
                Action::ResizeContext(size) => {
                    &&& input is Relaid
                    &&& state.phase matches Phase::Relayouting(viewport)
                    &&& size == viewport.physical_size
                    &&& at == len - 4
                    &&& actions[at + 1] == Action::<E, Seq<M>>::ResizeViewport(size)
                },
                Action::ResizeViewport(size) => {
                    &&& at > 0
                    &&& actions[at - 1] == Action::<E, Seq<M>>::ResizeContext(size)
                },
                Action::Present => {
                    &&& {
                        ||| input is Relaid
                        ||| {
                            &&& input matches Input::Event(Event::RedrawRequested(frame))
                            &&& frame.viewport.version == state.viewport_version
                        }
                    }
                    &&& at == len - 2
                    &&& actions[at + 1] is SwapBuffers
                },
                Action::SwapBuffers => {
                    &&& at > 0
                    &&& at == len - 1
                    &&& actions[at - 1] is Present
                },
                Action::UpdateState => {
                    &&& input matches Input::Event(Event::WindowEvent { requests_exit })
                    &&& !requests_exit || !state.exit_on_close_request
                    &&& at == 0
                    &&& len == 2
                    &&& actions[1] is ConvertEvent
                },
                Action::ConvertEvent => {
                    &&& at == 1
                    &&& actions[0] is UpdateState
                },
                Action::DropInterface => {
                    &&& {
                        ||| input is Closed
                        ||| {
                            &&& input matches Input::Event(Event::WindowEvent { requests_exit })
                            &&& requests_exit
                            &&& state.exit_on_close_request
                        }
                        ||| input matches Input::ApplicationUpdated { should_exit } && should_exit
                    }
                    &&& at == 0
                    &&& len == 1
                },
            }
        }),
{
}

/// No action is left out of an answer, and none is in it twice: how many there
/// are is told by what the instance was given.
pub proof fn law_no_action_is_left_out<M, E>(state: State<M, E>, input: InputView<M, E>)
    requires
        state.accepts(input),
    ensures
        ({
            let len = state.actions(input).len();
            match input {
                Input::Started { .. } => len == 0,
                Input::Event(Event::NewEvents(_)) => len == 0,
                Input::Event(Event::UserEvent(_)) => len == 0,
                Input::Event(Event::Other) => len == 0,
                Input::Event(Event::MainEventsCleared) => {
                    &&& len <= 1
                    &&& len == 1 <==> {
                        ||| state.redraw_pending
                        ||| state.events.len() > 0
                        ||| state.messages.len() > 0
                    }
                },
                Input::Event(Event::RedrawRequested(frame)) => {
                    &&& frame.context_is_current ==> len == 2
                    &&& !frame.context_is_current ==> len == 3
                },
                Input::Event(Event::WindowEvent { requests_exit }) => {
                    &&& requests_exit && state.exit_on_close_request ==> len == 1
                    &&& !(requests_exit && state.exit_on_close_request) ==> len == 2
                },
                Input::Closed => len == 1,
                Input::Converted(_) => len == 0,
                Input::InterfaceUpdated { state: interface, statuses, messages } => {
                    let told = vstd::math::min(state.events.len() as int, statuses.len() as int);
                    &&& messages.len() > 0 || interface is Outdated ==> len == told + 3
                    &&& messages.len() == 0 && !(interface is Outdated) ==> len == told + 2
                },
                Input::ApplicationUpdated { should_exit } => {
                    &&& should_exit ==> len == 1
                    &&& !should_exit ==> len == 2
                },
                Input::Redrawn { interaction, .. } => {
                    &&& interaction == state.interaction ==> len == 2
                    &&& interaction != state.interaction ==> len == 3
                },
                Input::RedrawBroadcast => len == 0,
                Input::Relaid(interaction) => {
                    &&& interaction == state.interaction ==> len == 4
                    &&& interaction != state.interaction ==> len == 5
                },
            }
        }),
{
}

/// Whenever messages are handed to the application, or its user interface is
/// outdated, the window is brought in line with it once, and then the user
/// interface is built anew once, whatever events are pending.
pub proof fn law_window_follows_every_update<M, E>(state: State<M, E>, input: InputView<M, E>)
    requires
        state.accepts(input),
        input is InterfaceUpdated,
        input->InterfaceUpdated_messages.len() > 0 || input->InterfaceUpdated_state is Outdated,
    ensures
        ({
            let actions = state.actions(input);
            let len = actions.len() as int;
            &&& len >= 3
            &&& actions[len - 3] == Action::<E, Seq<M>>::UpdateApplication(
                input->InterfaceUpdated_messages,
            )
            &&& forall|i: int|
                0 <= i < len ==> {
                    &&& (#[trigger] actions[i] is UpdateApplication <==> i == len - 3)
                    &&& (actions[i] is Synchronize <==> i == len - 2)
                    &&& (actions[i] is RebuildInterface <==> i == len - 1)
                }
        }),
{
}

/// The layout for another viewport is redone before anything is drawn for it,
/// whether or not the context had to be made the current one, which is done
/// before both.
pub proof fn law_layout_comes_before_drawing<M, E>(state: State<M, E>, frame: Frame)
    requires
        state.accepts(Input::Event(Event::RedrawRequested(frame))),
        frame.viewport.version != state.viewport_version,
    ensures
        ({
            let actions = state.actions(Input::Event(Event::RedrawRequested(frame)));
            let len = actions.len() as int;
            &&& len == if frame.context_is_current {
                2int
            } else {
                3int
            }
            &&& actions[len - 2] is Relayout
            &&& actions[len - 1] is Draw
            &&& !frame.context_is_current ==> actions[0] is MakeContextCurrent
        }),
{
}

/// A window event that an answer makes known carries the status that the user
/// interface gave to it: the broadcasts come first, and the one at each place
/// pairs the pending event with the status at that place, as far as there are
/// both.
pub proof fn law_broadcasts_carry_their_statuses<M, E>(
    state: State<M, E>,
    input: InputView<M, E>,
    at: int,
)
    requires
        state.accepts(input),
        input is InterfaceUpdated,
        0 <= at < state.actions(input).len(),
    ensures
        ({
            let statuses = input->InterfaceUpdated_statuses;
            if at < state.events.len() && at < statuses.len() {
                state.actions(input)[at] == Action::<E, Seq<M>>::Broadcast(
                    InterfaceEvent::Window(state.events[at]),
                    statuses[at],
                )
            } else {
                !(state.actions(input)[at] is Broadcast)
            }
        }),
{
}

/// An instance takes next exactly what it asked for last: the result of the last
/// action of its answer, or the next event where that leaves no result to wait
/// for. It has ended exactly where the last action lets go of the user
/// interface.
pub proof fn law_takes_what_it_asked_for<M, E>(
    state: State<M, E>,
    input: InputView<M, E>,
    next: InputView<M, E>,
)
    requires
        state.accepts(input),
    ensures
        ({
            let actions = state.actions(input);
            let last = actions.last();
            let events = actions.len() == 0 || last is SwapBuffers;
            state.after(input).accepts(next) <==> match next {
                Input::Started { .. } => false,
                Input::Event(_) => events,
                Input::Closed => events,
                Input::Converted(_) => actions.len() > 0 && last is ConvertEvent,
                Input::InterfaceUpdated { .. } => actions.len() > 0 && last is UpdateInterface,
                Input::ApplicationUpdated { .. } => actions.len() > 0 && last is RebuildInterface,
                Input::Redrawn { .. } => actions.len() > 1 && last is Draw && actions[actions.len()
                    - 2] is RedrawInterface,
                Input::RedrawBroadcast => actions.len() > 0 && last is Broadcast,
                Input::Relaid(_) => actions.len() > 1 && last is Draw && actions[actions.len()
                    - 2] is Relayout,
            }
        }),
        state.after(input).phase is Finished <==> {
            &&& state.actions(input).len() > 0
            &&& state.actions(input).last() is DropInterface
        },
{
}

/// An instance begins with nothing to do, with the cursor that a window has, and
/// takes nothing before the actions of the beginning are done.
pub proof fn law_beginning<M, E>(
    viewport_version: usize,
    exit_on_close_request: bool,
    announced: Seq<ControlFlow>,
    input: InputView<M, E>,
)
    ensures
        ({
            let state = State::<M, E>::initial(viewport_version, exit_on_close_request, announced);
            &&& state.accepts(input) <==> input is Started
            &&& state.well_formed()
            &&& !state.redraw_pending
            &&& !state.should_exit
            &&& state.events.len() == 0
            &&& state.messages.len() == 0
            &&& state.interaction.icon() == CursorIcon::Default
            &&& state.viewport_version == viewport_version
            &&& state.exit_on_close_request == exit_on_close_request
            &&& state.announced == announced
        }),
{
}

/// Whether an iteration draws is told by the cause for which it begins, until
/// the frame was asked for; nothing else changes it.
pub proof fn law_pending_redraw<M, E>(state: State<M, E>, input: InputView<M, E>)
    requires
        state.accepts(input),
    ensures
        state.after(input).redraw_pending <==> match input {
            Input::Event(Event::NewEvents(cause)) => {
                ||| cause == StartCause::Init
                ||| cause == StartCause::Poll
                ||| cause == StartCause::ResumeTimeReached
            },
            Input::RedrawBroadcast => false,
            _ => state.redraw_pending,
        },
{
}

/// A converted event is put behind the pending ones. Only the user interface
/// takes pending events away, and it takes them all.
pub proof fn law_pending_events<M, E>(state: State<M, E>, input: InputView<M, E>)
    requires
        state.accepts(input),
    ensures
        ({
            let events = state.after(input).events;
            match input {
                Input::Converted(Some(event)) => {
                    &&& events.len() == state.events.len() + 1
                    &&& events.drop_last() == state.events
                    &&& events.last() == event
                },
                Input::InterfaceUpdated { .. } => events.len() == 0,
                _ => events == state.events,
            }
        }),
{
}

/// A message of the loop is put behind those that wait. All that wait are lent
/// together when the user interface is updated; none is left once it was, and
/// what it sends while it is drawn waits for the next update.
pub proof fn law_waiting_messages<M, E>(state: State<M, E>, input: InputView<M, E>)
    requires
        state.accepts(input),
    ensures
        ({
            let messages = state.after(input).messages;
            match input {
                Input::Event(Event::UserEvent(message)) => {
                    &&& messages.len() == state.messages.len() + 1
                    &&& messages.drop_last() == state.messages
                    &&& messages.last() == message
                },
                Input::Event(Event::MainEventsCleared) => {
                    &&& messages.len() == 0
                    &&& state.messages.len() > 0 ==> state.actions(input).contains(
                        Action::UpdateInterface(state.messages),
                    )
                },
                Input::InterfaceUpdated { .. } => messages.len() == 0,
                Input::Redrawn { messages: published, .. } => messages == published,
                _ => messages == state.messages,
            }
        }),
{
    if input matches Input::Event(Event::MainEventsCleared) && state.messages.len() > 0 {
        assert(state.actions(input)[0] == Action::<E, Seq<M>>::UpdateInterface(state.messages));
    }
}

/// The wish to end is what was reported last, and stays till the next report;
/// whether the window's closing ends the application never changes.
pub proof fn law_wish_to_end<M, E>(state: State<M, E>, input: InputView<M, E>)
    requires
        state.accepts(input),
    ensures
        state.after(input).should_exit == match input {
            Input::Started { should_exit } => should_exit,
            Input::ApplicationUpdated { should_exit } => should_exit,
            _ => state.should_exit,
        },
        state.after(input).exit_on_close_request == state.exit_on_close_request,
{
}

/// The interaction is the one that was drawn last.
pub proof fn law_interaction_is_the_one_drawn<M, E>(state: State<M, E>, input: InputView<M, E>)
    requires
        state.accepts(input),
    ensures
        state.after(input).interaction == match input {
            Input::Redrawn { interaction, .. } => interaction,
            Input::Relaid(interaction) => interaction,
            _ => state.interaction,
        },
{
}

/// The layout is for the viewport of the last request that asked for another
/// one, from the moment it was redone: neither the request alone nor anything
/// else changes it, and both sizes are then set to that of the requested
/// viewport.
pub proof fn law_layout_is_for_the_requested_viewport<M, E>(
    state: State<M, E>,
    input: InputView<M, E>,
    frame: Frame,
    interaction: Interaction,
    at: int,
)
    requires
        state.accepts(input),
    ensures
        !(input is Relaid) ==> state.after(input).viewport_version == state.viewport_version,
        input == Input::<M, E, Seq<M>, Seq<Status>>::Event(Event::RedrawRequested(frame))
            && frame.viewport.version != state.viewport_version ==> {
            let asked = state.after(input);
            let answer = asked.actions(Input::Relaid(interaction));
            &&& asked.accepts(Input::Relaid(interaction))
            &&& asked.after(Input::Relaid(interaction)).viewport_version == frame.viewport.version
            &&& 0 <= at < answer.len() ==> {
                &&& (answer[at] is ResizeContext ==> answer[at] == Action::<
                    E,
                    Seq<M>,
                >::ResizeContext(frame.viewport.physical_size))
                &&& (answer[at] is ResizeViewport ==> answer[at] == Action::<
                    E,
                    Seq<M>,
                >::ResizeViewport(frame.viewport.physical_size))
            }
        },
{
}

/// A frame that the user interface wants next lets the loop go on at once, one
/// that it wants at a moment lets it wait till then, and otherwise the loop waits
/// for an event; this is announced once the frame was asked for, behind all
/// announcements before, and nothing else is announced.
pub proof fn law_announced_flow<M, E>(
    state: State<M, E>,
    input: InputView<M, E>,
    interface: InterfaceState,
)
    requires
        state.accepts(input),
    ensures
        !(input is RedrawBroadcast) ==> state.after(input).announced == state.announced,
        input is Redrawn && input->Redrawn_state == interface ==> {
            let drawn = state.after(input);
            let announced = drawn.after(Input::RedrawBroadcast).announced;
            &&& drawn.accepts(Input::RedrawBroadcast)
            &&& announced.len() == state.announced.len() + 1
            &&& announced.drop_last() == state.announced
            &&& announced.last() == match interface {
                InterfaceState::Outdated => ControlFlow::Wait,
                InterfaceState::Updated { redraw_request } => match redraw_request {
                    None => ControlFlow::Wait,
                    Some(RedrawRequest::NextFrame) => ControlFlow::Poll,
                    Some(RedrawRequest::At(moment)) => ControlFlow::WaitUntil(moment),
                },
            }
        },
{
}

/// An input is seen as it was given, its lists with their items in order.
pub proof fn law_view_of_an_input<M, E>(input: Input<M, E>)
    ensures
        match input {
            Input::Started { should_exit } => input@ == InputView::<M, E>::Started { should_exit },
            Input::Event(event) => input@ == InputView::<M, E>::Event(event),
            Input::Closed => input@ == InputView::<M, E>::Closed,
            Input::Converted(event) => input@ == InputView::<M, E>::Converted(event),
            Input::InterfaceUpdated { state, statuses, messages } => {
                &&& input@ is InterfaceUpdated
                &&& input@->InterfaceUpdated_state == state
                &&& input@->InterfaceUpdated_statuses == statuses@
                &&& input@->InterfaceUpdated_messages == messages@
            },
            Input::ApplicationUpdated { should_exit } => input@ == InputView::<
                M,
                E,
            >::ApplicationUpdated { should_exit },
            Input::Redrawn { now, state, messages, interaction } => {
                &&& input@ is Redrawn
                &&& input@->now == now
                &&& input@->Redrawn_state == state
                &&& input@->Redrawn_messages == messages@
                &&& input@->interaction == interaction
            },
            Input::RedrawBroadcast => input@ == InputView::<M, E>::RedrawBroadcast,
            Input::Relaid(interaction) => input@ == InputView::<M, E>::Relaid(interaction),
        },
{
}

/// Two actions that are seen alike are of one kind, with the same parts, and
/// lists of the same items in order.
pub proof fn law_view_of_an_action<M, E>(action: Action<E, Vec<M>>, other: ActionView<E, M>)
    ensures
        action@ == other <==> match action {
            Action::RunInitCommand => other is RunInitCommand,
            Action::TrackSubscription => other is TrackSubscription,
            Action::BuildInterface => other is BuildInterface,
            Action::UpdateInterface(messages) => {
                other matches Action::UpdateInterface(seen) && seen == messages@
            },
            Action::Broadcast(event, status) => {
                other matches Action::Broadcast(seen, given) && seen == event && given == status
            },
            Action::UpdateApplication(messages) => {
                other matches Action::UpdateApplication(seen) && seen == messages@
            },
            Action::Synchronize => other is Synchronize,
            Action::RebuildInterface => other is RebuildInterface,
            Action::RedrawInterface => other is RedrawInterface,
            Action::Draw => other is Draw,
            Action::SetCursor(icon) => other matches Action::SetCursor(seen) && seen == icon,
            Action::RequestRedraw => other is RequestRedraw,
            Action::MakeContextCurrent => other is MakeContextCurrent,
            Action::Relayout => other is Relayout,
            Action::ResizeContext(size) => {
                other matches Action::ResizeContext(seen) && seen == size
            },
            Action::ResizeViewport(size) => {
                other matches Action::ResizeViewport(seen) && seen == size
            },
            Action::Present => other is Present,
            Action::SwapBuffers => other is SwapBuffers,
            Action::UpdateState => other is UpdateState,
            Action::ConvertEvent => other is ConvertEvent,
            Action::DropInterface => other is DropInterface,
        },
{
}

/// A list of actions is seen action by action.
pub proof fn law_view_of_a_plan<M, E>(actions: Seq<Action<E, Vec<M>>>, at: int)
    ensures
        plan(actions).len() == actions.len(),
        0 <= at < actions.len() ==> plan(actions)[at] == actions[at]@,
{
}

} // verus!
