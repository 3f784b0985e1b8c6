use crate::context::ContextRequest;
use crate::control::ControlFlow;
use crate::cursor::{CursorIcon, Interaction};
use crate::error::{CreationError, Error};
use crate::event::{Event, Frame, InterfaceEvent, PhysicalSize, Status};
use crate::instance::{
    broadcasts, cursor_change, Action, ActionView, Input, InputView, Phase, State,
};
use crate::runner::{forwarded, settled, Incoming, Progress};
use crate::startup::{Report, Startup, Step};
use vstd::prelude::*;

verus! {

/// The state after a run of inputs.
pub open spec fn reach<M, E>(start: State<M, E>, inputs: Seq<InputView<M, E>>) -> State<M, E>
    decreases inputs.len(),
{
    if inputs.len() == 0 {
        start
    } else {
        reach(start, inputs.drop_last()).after(inputs.last())
    }
}

/// The answers to a run of inputs, one behind the other.
pub open spec fn answers<M, E>(start: State<M, E>, inputs: Seq<InputView<M, E>>) -> Seq<
    ActionView<E, M>,
>
    decreases inputs.len(),
{
    if inputs.len() == 0 {
        Seq::empty()
    } else {
        answers(start, inputs.drop_last()) + reach(start, inputs.drop_last()).actions(inputs.last())
    }
}

/// Whether each input of a run satisfies a relation with the state it meets.
pub open spec fn throughout<M, E>(
    start: State<M, E>,
    inputs: Seq<InputView<M, E>>,
    holds: spec_fn(State<M, E>, InputView<M, E>) -> bool,
) -> bool
    decreases inputs.len(),
{
    inputs.len() > 0 ==> {
        &&& throughout(start, inputs.drop_last(), holds)
        &&& holds(reach(start, inputs.drop_last()), inputs.last())
    }
}

/// Whether each input of a run is what the instance is waiting for.
pub open spec fn accepted<M, E>(start: State<M, E>, inputs: Seq<InputView<M, E>>) -> bool {
    throughout(start, inputs, |state: State<M, E>, input: InputView<M, E>| state.accepts(input))
}

/// What a run of inputs brings, taken together.
pub open spec fn brought<M, E, T>(
    start: State<M, E>,
    inputs: Seq<InputView<M, E>>,
    brings: spec_fn(State<M, E>, InputView<M, E>) -> Seq<T>,
) -> Seq<T>
    decreases inputs.len(),
{
    if inputs.len() == 0 {
        Seq::empty()
    } else {
        brought(start, inputs.drop_last(), brings) + brings(
            reach(start, inputs.drop_last()),
            inputs.last(),
        )
    }
}

/// What a list of actions carries, taken together.
pub open spec fn carried<E, M, T>(
    actions: Seq<ActionView<E, M>>,
    carries: spec_fn(ActionView<E, M>) -> Seq<T>,
) -> Seq<T>
    decreases actions.len(),
{
    if actions.len() == 0 {
        Seq::empty()
    } else {
        carried(actions.drop_last(), carries) + carries(actions.last())
    }
}

/// The messages that an action hands to the application.
pub open spec fn messages_of<E, M>(action: ActionView<E, M>) -> Seq<M> {
    match action {
        Action::UpdateApplication(messages) => messages,
        _ => Seq::empty(),
    }
}

/// The messages that a list of actions hands to the application.
pub open spec fn delivered<E, M>(actions: Seq<ActionView<E, M>>) -> Seq<M> {
    carried(actions, |a: ActionView<E, M>| messages_of(a))
}

/// The event of the window that an action lets the runtime know of.
pub open spec fn event_of<E, M>(action: ActionView<E, M>) -> Seq<E> {
    match action {
        Action::Broadcast(InterfaceEvent::Window(event), _) => seq![event],
        _ => Seq::empty(),
    }
}

/// The events of the window that a list of actions lets the runtime know of.
pub open spec fn made_known<E, M>(actions: Seq<ActionView<E, M>>) -> Seq<E> {
    carried(actions, |a: ActionView<E, M>| event_of(a))
}

/// The icon that an action gives to the mouse cursor.
pub open spec fn icon_of<E, M>(action: ActionView<E, M>) -> Seq<CursorIcon> {
    match action {
        Action::SetCursor(icon) => seq![icon],
        _ => Seq::empty(),
    }
}

/// The icons that a list of actions gives to the mouse cursor.
pub open spec fn icons<E, M>(actions: Seq<ActionView<E, M>>) -> Seq<CursorIcon> {
    carried(actions, |a: ActionView<E, M>| icon_of(a))
}

/// Takes an action of one kind, and leaves out any other.
pub open spec fn marked<E, M>(is: spec_fn(ActionView<E, M>) -> bool) -> spec_fn(
    ActionView<E, M>,
) -> Seq<ActionView<E, M>> {
    |action: ActionView<E, M>|
        if is(action) {
            seq![action]
        } else {
            Seq::empty()
        }
}

/// How many actions of one kind there are.
pub open spec fn count<E, M>(
    actions: Seq<ActionView<E, M>>,
    is: spec_fn(ActionView<E, M>) -> bool,
) -> nat {
    carried(actions, marked(is)).len()
}

proof fn lemma_carried_add<E, M, T>(
    first: Seq<ActionView<E, M>>,
    second: Seq<ActionView<E, M>>,
    carries: spec_fn(ActionView<E, M>) -> Seq<T>,
)
    ensures
        carried(first + second, carries) == carried(first, carries) + carried(second, carries),
    decreases second.len(),
{
    if second.len() == 0 {
        assert(first + second == first);
    } else {
        assert((first + second).drop_last() == first + second.drop_last());
        assert((first + second).last() == second.last());
        lemma_carried_add(first, second.drop_last(), carries);
    }
}

proof fn lemma_carried_none<E, M, T>(
    actions: Seq<ActionView<E, M>>,
    carries: spec_fn(ActionView<E, M>) -> Seq<T>,
)
    requires
        forall|i: int| 0 <= i < actions.len() ==> carries(#[trigger] actions[i]).len() == 0,
    ensures
        carried(actions, carries) == Seq::<T>::empty(),
    decreases actions.len(),
{
    if actions.len() > 0 {
        assert(carries(actions[actions.len() - 1]).len() == 0);
        assert forall|i: int| 0 <= i < actions.drop_last().len() implies carries(
            #[trigger] actions.drop_last()[i],
        ).len() == 0 by {
            assert(actions.drop_last()[i] == actions[i]);
        }
        lemma_carried_none(actions.drop_last(), carries);
    }
}

proof fn lemma_carried_one<E, M, T>(
    action: ActionView<E, M>,
    carries: spec_fn(ActionView<E, M>) -> Seq<T>,
)
    ensures
        carried(seq![action], carries) == carries(action),
{
    assert(seq![action].drop_last() == Seq::<ActionView<E, M>>::empty());
    reveal_with_fuel(carried, 2);
    assert(Seq::<T>::empty() + carries(action) == carries(action));
}

/// Two balances of what went out, what is held and what came in, one behind the
/// other, are one.
proof fn lemma_balance<T>(
    out: Seq<T>,
    more_out: Seq<T>,
    held: Seq<T>,
    held_after: Seq<T>,
    held_before: Seq<T>,
    came: Seq<T>,
    more_came: Seq<T>,
)
    requires
        out + held == held_before + came,
        more_out + held_after == held + more_came,
    ensures
        (out + more_out) + held_after == held_before + (came + more_came),
{
    assert((out + more_out) + held_after == out + (more_out + held_after));
    assert(out + (held + more_came) == (out + held) + more_came);
    assert((held_before + came) + more_came == held_before + (came + more_came));
}

/// Every state that an instance comes to is well formed.
pub proof fn law_states_are_well_formed<M, E>(start: State<M, E>, inputs: Seq<InputView<M, E>>)
    requires
        start.well_formed(),
        accepted(start, inputs),
    ensures
        reach(start, inputs).well_formed(),
    decreases inputs.len(),
{
    if inputs.len() > 0 {
        law_states_are_well_formed(start, inputs.drop_last());
    }
}

/// The messages that wait for the application, lent or not.
pub open spec fn waiting<M, E>(state: State<M, E>) -> Seq<M> {
    match state.phase {
        Phase::UpdatingInterface(lent) => lent + state.messages,
        _ => state.messages,
    }
}

/// The messages that come in with an input: the message of an event, and those
/// that the user interface puts behind the ones it was lent.
pub open spec fn incoming<M, E>(state: State<M, E>, input: InputView<M, E>) -> Seq<M> {
    match input {
        Input::Event(Event::UserEvent(message)) => seq![message],
        Input::InterfaceUpdated { messages, .. } => messages.skip(
            state.phase->UpdatingInterface_0.len() as int,
        ),
        Input::Redrawn { messages, .. } => messages,
        _ => Seq::empty(),
    }
}

/// The messages that come in with a run of inputs.
pub open spec fn arrived<M, E>(start: State<M, E>, inputs: Seq<InputView<M, E>>) -> Seq<M> {
    brought(
        start,
        inputs,
        |state: State<M, E>, input: InputView<M, E>| incoming(state, input),
    )
}

/// Whether the user interface returns the messages that it was lent.
pub open spec fn returns_lent<M, E>(state: State<M, E>, input: InputView<M, E>) -> bool {
    match input {
        Input::InterfaceUpdated { messages, .. } => state.phase->UpdatingInterface_0.is_prefix_of(
            messages,
        ),
        _ => true,
    }
}

proof fn lemma_step_keeps_messages<M, E>(state: State<M, E>, input: InputView<M, E>)
    requires
        state.well_formed(),
        state.accepts(input),
        returns_lent(state, input),
    ensures
        delivered(state.actions(input)) + waiting(state.after(input)) == waiting(state) + incoming(
            state,
            input,
        ),
{
    let carries = |a: ActionView<E, M>| messages_of(a);
    let actions = state.actions(input);
    match input {
        Input::InterfaceUpdated { state: interface, statuses, messages } => {
            let lent = state.phase->UpdatingInterface_0;
            let first = broadcasts::<E, M>(state.events, statuses);
            let second = actions.skip(first.len() as int);
            assert(actions == first + second);
            lemma_carried_add(first, second, carries);
            lemma_carried_none(first, carries);
            assert(messages == lent + messages.skip(lent.len() as int));
            if messages.len() > 0 || interface is Outdated {
                let head = seq![Action::<E, Seq<M>>::UpdateApplication(messages)];
                let tail = seq![Action::<E, Seq<M>>::Synchronize, Action::RebuildInterface];
                assert(second == head + tail);
                lemma_carried_add(head, tail, carries);
                lemma_carried_none(tail, carries);
                lemma_carried_one(Action::UpdateApplication(messages), carries);
            } else {
                lemma_carried_none(second, carries);
            }
        },
        _ => {
            lemma_carried_none(actions, carries);
        },
    }
}

/// Every message reaches the application once, in the order in which the
/// messages came in, whether they came from the event loop or from the user
/// interface: those handed over, with those that wait, are those that waited,
/// with those that came in.
pub proof fn law_messages_reach_the_application_once_in_order<M, E>(
    start: State<M, E>,
    inputs: Seq<InputView<M, E>>,
)
    requires
        start.well_formed(),
        accepted(start, inputs),
        throughout(
            start,
            inputs,
            |state: State<M, E>, input: InputView<M, E>| returns_lent(state, input),
        ),
    ensures
        delivered(answers(start, inputs)) + waiting(reach(start, inputs)) == waiting(start)
            + arrived(start, inputs),
    decreases inputs.len(),
{
    let carries = |a: ActionView<E, M>| messages_of(a);
    if inputs.len() > 0 {
        let before = reach(start, inputs.drop_last());
        law_messages_reach_the_application_once_in_order(start, inputs.drop_last());
        law_states_are_well_formed(start, inputs.drop_last());
        lemma_step_keeps_messages(before, inputs.last());
        lemma_carried_add(
            answers(start, inputs.drop_last()),
            before.actions(inputs.last()),
            carries,
        );
        lemma_balance(
            carried(answers(start, inputs.drop_last()), carries),
            carried(before.actions(inputs.last()), carries),
            waiting(before),
            waiting(reach(start, inputs)),
            waiting(start),
            arrived(start, inputs.drop_last()),
            incoming(before, inputs.last()),
        );
    }
}

/// The event of the window that comes in with an input.
pub open spec fn converted<M, E>(input: InputView<M, E>) -> Seq<E> {
    match input {
        Input::Converted(Some(event)) => seq![event],
        _ => Seq::empty(),
    }
}

/// The events of the window that come in with a run of inputs.
pub open spec fn converted_in<M, E>(start: State<M, E>, inputs: Seq<InputView<M, E>>) -> Seq<E> {
    brought(start, inputs, |state: State<M, E>, input: InputView<M, E>| converted(input))
}

/// Whether the user interface gives a status to each event that it was updated
/// with.
pub open spec fn covers_events<M, E>(state: State<M, E>, input: InputView<M, E>) -> bool {
    match input {
        Input::InterfaceUpdated { statuses, .. } => state.events.len() <= statuses.len(),
        _ => true,
    }
}

proof fn lemma_broadcasts_carry_events<M, E>(events: Seq<E>, statuses: Seq<Status>)
    requires
        events.len() <= statuses.len(),
    ensures
        made_known(broadcasts::<E, M>(events, statuses)) == events,
    decreases events.len(),
{
    let carries = |a: ActionView<E, M>| event_of(a);
    let actions = broadcasts::<E, M>(events, statuses);
    if events.len() > 0 {
        assert(actions.drop_last() == broadcasts::<E, M>(events.drop_last(), statuses));
        lemma_broadcasts_carry_events::<M, E>(events.drop_last(), statuses);
        assert(events == events.drop_last() + seq![events.last()]);
        assert(carries(actions.last()) == seq![events.last()]);
    }
}

proof fn lemma_step_keeps_events<M, E>(state: State<M, E>, input: InputView<M, E>)
    requires
        state.well_formed(),
        state.accepts(input),
        covers_events(state, input),
    ensures
        made_known(state.actions(input)) + state.after(input).events == state.events + converted(
            input,
        ),
{
    let carries = |a: ActionView<E, M>| event_of(a);
    let actions = state.actions(input);
    match input {
        Input::InterfaceUpdated { statuses, .. } => {
            let first = broadcasts::<E, M>(state.events, statuses);
            let second = actions.skip(first.len() as int);
            assert(actions == first + second);
            lemma_carried_add(first, second, carries);
            lemma_carried_none(second, carries);
            lemma_broadcasts_carry_events::<M, E>(state.events, statuses);
        },
        _ => {
            lemma_carried_none(actions, carries);
        },
    }
}

/// Every event of the window that the user interface knows is made known to the
/// runtime once, in the order in which the events came in: those made known,
/// with those that are pending, are those that were pending, with those that
/// came in.
pub proof fn law_events_are_broadcast_once_in_order<M, E>(
    start: State<M, E>,
    inputs: Seq<InputView<M, E>>,
)
    requires
        start.well_formed(),
        accepted(start, inputs),
        throughout(
            start,
            inputs,
            |state: State<M, E>, input: InputView<M, E>| covers_events(state, input),
        ),
    ensures
        made_known(answers(start, inputs)) + reach(start, inputs).events == start.events
            + converted_in(start, inputs),
    decreases inputs.len(),
{
    let carries = |a: ActionView<E, M>| event_of(a);
    if inputs.len() > 0 {
        let before = reach(start, inputs.drop_last());
        law_events_are_broadcast_once_in_order(start, inputs.drop_last());
        law_states_are_well_formed(start, inputs.drop_last());
        lemma_step_keeps_events(before, inputs.last());
        lemma_carried_add(
            answers(start, inputs.drop_last()),
            before.actions(inputs.last()),
            carries,
        );
        lemma_balance(
            carried(answers(start, inputs.drop_last()), carries),
            carried(before.actions(inputs.last()), carries),
            before.events,
            reach(start, inputs).events,
            start.events,
            converted_in(start, inputs.drop_last()),
            converted(inputs.last()),
        );
    }
}

/// An instance that ended takes nothing any more.
pub proof fn law_end_is_final<M, E>(state: State<M, E>, input: InputView<M, E>)
    requires
        state.phase is Finished,
    ensures
        !state.accepts(input),
{
}

/// An instance ends for three reasons only: there are no events any more, the
/// user closed the window where that is to end the application, or the
/// application wanted to end when it was updated.
pub proof fn law_reasons_to_end<M, E>(state: State<M, E>, input: InputView<M, E>)
    requires
        state.accepts(input),
    ensures
        state.after(input).phase is Finished <==> {
            ||| input is Closed
            ||| {
                &&& input matches Input::Event(Event::WindowEvent { requests_exit })
                &&& requests_exit
                &&& state.exit_on_close_request
            }
            ||| input matches Input::ApplicationUpdated { should_exit } && should_exit
        },
        state.after(input).exit_on_close_request == state.exit_on_close_request,
{
}

proof fn lemma_answers_add<M, E>(
    start: State<M, E>,
    inputs: Seq<InputView<M, E>>,
    is: spec_fn(ActionView<E, M>) -> bool,
)
    requires
        inputs.len() > 0,
    ensures
        count(answers(start, inputs), is) == count(answers(start, inputs.drop_last()), is) + count(
            reach(start, inputs.drop_last()).actions(inputs.last()),
            is,
        ),
{
    lemma_carried_add(
        answers(start, inputs.drop_last()),
        reach(start, inputs.drop_last()).actions(inputs.last()),
        marked(is),
    );
}

/// The user interface is dropped once, by the last action of all, when the
/// instance ends, and not before.
pub proof fn law_interface_is_dropped_at_the_end<M, E>(
    start: State<M, E>,
    inputs: Seq<InputView<M, E>>,
)
    requires
        !(start.phase is Finished),
        accepted(start, inputs),
    ensures
        count(answers(start, inputs), |a: ActionView<E, M>| a is DropInterface) == (if reach(
            start,
            inputs,
        ).phase is Finished {
            1nat
        } else {
            0nat
        }),
        reach(start, inputs).phase is Finished ==> {
            &&& answers(start, inputs).len() > 0
            &&& answers(start, inputs).last() is DropInterface
        },
    decreases inputs.len(),
{
    let is = |a: ActionView<E, M>| a is DropInterface;
    if inputs.len() > 0 {
        let before = reach(start, inputs.drop_last());
        let actions = before.actions(inputs.last());
        law_interface_is_dropped_at_the_end(start, inputs.drop_last());
        lemma_answers_add(start, inputs, is);
        if before.after(inputs.last()).phase is Finished {
            assert(actions == seq![Action::<E, Seq<M>>::DropInterface]);
            lemma_carried_one(Action::<E, Seq<M>>::DropInterface, marked(is));
        } else {
            lemma_carried_none(actions, marked(is));
        }
    }
}

/// The icon that the mouse cursor has after a list of actions, where it had
/// `icon` before.
pub open spec fn shown_icon<E, M>(icon: CursorIcon, actions: Seq<ActionView<E, M>>) -> CursorIcon {
    if icons(actions).len() == 0 {
        icon
    } else {
        icons(actions).last()
    }
}

proof fn lemma_cursor_change<M, E>(
    before: Interaction,
    after: Interaction,
    rest: Seq<ActionView<E, M>>,
)
    requires
        forall|i: int| 0 <= i < rest.len() ==> !(#[trigger] rest[i] is SetCursor),
    ensures
        icons(cursor_change::<E, M>(before, after) + rest) == (if after == before {
            Seq::empty()
        } else {
            seq![after.icon()]
        }),
{
    let carries = |a: ActionView<E, M>| icon_of(a);
    lemma_carried_add(cursor_change::<E, M>(before, after), rest, carries);
    lemma_carried_none(rest, carries);
    lemma_carried_one(Action::<E, Seq<M>>::SetCursor(after.icon()), carries);
}

proof fn lemma_step_shows_interaction<M, E>(state: State<M, E>, input: InputView<M, E>)
    requires
        state.accepts(input),
    ensures
        icons(state.actions(input)) == (if state.after(input).interaction == state.interaction {
            Seq::empty()
        } else {
            seq![state.after(input).interaction.icon()]
        }),
{
    match input {
        Input::Redrawn { now, interaction, .. } => {
            lemma_cursor_change::<M, E>(
                state.interaction,
                interaction,
                seq![
                    Action::RequestRedraw,
                    Action::Broadcast(InterfaceEvent::RedrawRequested(now), Status::Ignored),
                ],
            );
        },
        Input::Relaid(interaction) => {
            let size = state.phase->Relayouting_0.physical_size;
            lemma_cursor_change::<M, E>(
                state.interaction,
                interaction,
                seq![
                    Action::ResizeContext(size),
                    Action::ResizeViewport(size),
                    Action::Present,
                    Action::SwapBuffers,
                ],
            );
        },
        _ => {
            lemma_carried_none(state.actions(input), |a: ActionView<E, M>| icon_of(a));
        },
    }
}

/// The mouse cursor always has the icon of the interaction that was drawn last.
pub proof fn law_cursor_shows_the_interaction<M, E>(
    start: State<M, E>,
    inputs: Seq<InputView<M, E>>,
)
    requires
        accepted(start, inputs),
    ensures
        shown_icon(start.interaction.icon(), answers(start, inputs)) == reach(
            start,
            inputs,
        ).interaction.icon(),
    decreases inputs.len(),
{
    if inputs.len() > 0 {
        let before = reach(start, inputs.drop_last());
        law_cursor_shows_the_interaction(start, inputs.drop_last());
        lemma_step_shows_interaction(before, inputs.last());
        lemma_carried_add(
            answers(start, inputs.drop_last()),
            before.actions(inputs.last()),
            |a: ActionView<E, M>| icon_of(a),
        );
    }
}

/// The mouse cursor is never given the icon that it has.
pub proof fn law_cursor_is_set_to_change_only<M, E>(
    state: State<M, E>,
    input: InputView<M, E>,
    at: int,
)
    requires
        state.accepts(input),
        0 <= at < state.actions(input).len(),
        state.actions(input)[at] is SetCursor,
    ensures
        state.actions(input)[at] != Action::<E, Seq<M>>::SetCursor(state.interaction.icon()),
{
}

/// The request for a frame that comes in with an input.
pub open spec fn frame_of<M, E>(input: InputView<M, E>) -> Seq<Frame> {
    match input {
        Input::Event(Event::RedrawRequested(frame)) => seq![frame],
        _ => Seq::empty(),
    }
}

/// The requests for a frame that come in with a run of inputs.
pub open spec fn frames_in<M, E>(start: State<M, E>, inputs: Seq<InputView<M, E>>) -> Seq<Frame> {
    brought(start, inputs, |state: State<M, E>, input: InputView<M, E>| frame_of(input))
}

/// How many requested frames are still to be shown.
pub open spec fn owed<M, E>(state: State<M, E>) -> nat {
    if state.phase is Relayouting {
        1
    } else {
        0
    }
}

proof fn lemma_step_shows_frame<M, E>(state: State<M, E>, input: InputView<M, E>)
    requires
        state.accepts(input),
    ensures
        count(state.actions(input), |a: ActionView<E, M>| a is Present) + owed(state.after(input))
            == owed(state) + frame_of(input).len(),
        count(state.actions(input), |a: ActionView<E, M>| a is SwapBuffers) + owed(
            state.after(input),
        ) == owed(state) + frame_of(input).len(),
{
    let presents = |a: ActionView<E, M>| a is Present;
    let swaps = |a: ActionView<E, M>| a is SwapBuffers;
    let actions = state.actions(input);
    let shows = match input {
        Input::Event(Event::RedrawRequested(frame)) => frame.viewport.version
            == state.viewport_version,
        Input::Relaid(_) => true,
        _ => false,
    };
    if shows {
        let shown = seq![Action::<E, Seq<M>>::Present, Action::SwapBuffers];
        let first = actions.take(actions.len() - 2);
        assert(actions == first + shown);
        lemma_carried_add(first, shown, marked(presents));
        lemma_carried_add(first, shown, marked(swaps));
        lemma_carried_none(first, marked(presents));
        lemma_carried_none(first, marked(swaps));
        let present = Action::<E, Seq<M>>::Present;
        let swap = Action::<E, Seq<M>>::SwapBuffers;
        assert(shown == seq![present] + seq![swap]);
        lemma_carried_add(seq![present], seq![swap], marked(presents));
        lemma_carried_add(seq![present], seq![swap], marked(swaps));
        lemma_carried_one(present, marked(presents));
        lemma_carried_one(present, marked(swaps));
        lemma_carried_one(swap, marked(presents));
        lemma_carried_one(swap, marked(swaps));
    } else {
        lemma_carried_none(actions, marked(presents));
        lemma_carried_none(actions, marked(swaps));
    }
}

/// Every request for a frame is answered with one frame: what was drawn is
/// presented once, and the buffers are swapped once.
pub proof fn law_each_request_shows_one_frame<M, E>(
    start: State<M, E>,
    inputs: Seq<InputView<M, E>>,
)
    requires
        accepted(start, inputs),
    ensures
        count(answers(start, inputs), |a: ActionView<E, M>| a is Present) + owed(
            reach(start, inputs),
        ) == owed(start) + frames_in(start, inputs).len(),
        count(answers(start, inputs), |a: ActionView<E, M>| a is SwapBuffers) + owed(
            reach(start, inputs),
        ) == owed(start) + frames_in(start, inputs).len(),
    decreases inputs.len(),
{
    if inputs.len() > 0 {
        law_each_request_shows_one_frame(start, inputs.drop_last());
        lemma_step_shows_frame(reach(start, inputs.drop_last()), inputs.last());
        lemma_answers_add(start, inputs, |a: ActionView<E, M>| a is Present);
        lemma_answers_add(start, inputs, |a: ActionView<E, M>| a is SwapBuffers);
    }
}

/// The buffers are swapped right after a frame was presented, and only then.
pub proof fn law_swap_follows_present<M, E>(state: State<M, E>, input: InputView<M, E>, at: int)
    requires
        state.accepts(input),
        0 <= at < state.actions(input).len(),
    ensures
        state.actions(input)[at] is Present ==> {
            &&& at + 1 < state.actions(input).len()
            &&& state.actions(input)[at + 1] is SwapBuffers
        },
        state.actions(input)[at] is SwapBuffers ==> {
            &&& at > 0
            &&& state.actions(input)[at - 1] is Present
        },
{
}

/// A frame for another viewport is laid out once: the OpenGL context and the
/// compositor get the size of that viewport, and the next frame for it is shown
/// as it is.
pub proof fn law_layout_follows_the_viewport<M, E>(
    state: State<M, E>,
    frame: Frame,
    interaction: Interaction,
    next: Frame,
)
    requires
        state.phase is Waiting,
        frame.viewport.version != state.viewport_version,
        next.viewport.version == frame.viewport.version,
    ensures
        ({
            let asked = state.after(Input::Event(Event::RedrawRequested(frame)));
            let relaid = Input::Relaid(interaction);
            let size = frame.viewport.physical_size;
            let done = asked.after(relaid);
            &&& state.event_actions(Event::RedrawRequested(frame)).contains(Action::Relayout)
            &&& asked.accepts(relaid)
            &&& asked.actions(relaid).contains(Action::ResizeContext(size))
            &&& asked.actions(relaid).contains(Action::ResizeViewport(size))
            &&& done.phase is Waiting
            &&& done.viewport_version == frame.viewport.version
            &&& done.after_event(Event::RedrawRequested(next)) == done
            &&& !done.event_actions(Event::RedrawRequested(next)).contains(Action::Relayout)
        }),
{
    let asked = state.after(Input::Event(Event::RedrawRequested(frame)));
    let relaid = Input::Relaid(interaction);
    let size = frame.viewport.physical_size;
    let request = state.event_actions(Event::RedrawRequested(frame));
    let before = cursor_change::<E, M>(state.interaction, interaction).len() as int;
    assert(request[request.len() - 2] == Action::<E, Seq<M>>::Relayout);
    assert(asked.actions(relaid)[before] == Action::<E, Seq<M>>::ResizeContext(size));
    assert(asked.actions(relaid)[before + 1] == Action::<E, Seq<M>>::ResizeViewport(size));
}

/// The size of the OpenGL context and that of the compositor change together,
/// to the same size.
pub proof fn law_sizes_change_together<M, E>(
    state: State<M, E>,
    input: InputView<M, E>,
    size: PhysicalSize,
)
    requires
        state.accepts(input),
    ensures
        state.actions(input).contains(Action::ResizeContext(size)) <==> state.actions(
            input,
        ).contains(Action::ResizeViewport(size)),
{
    let actions = state.actions(input);
    if input is Relaid {
        let before = cursor_change::<E, M>(state.interaction, input->Relaid_0).len() as int;
        let given = state.phase->Relayouting_0.physical_size;
        assert(actions[before] == Action::<E, Seq<M>>::ResizeContext(given));
        assert(actions[before + 1] == Action::<E, Seq<M>>::ResizeViewport(given));
    }
}

/// The control flow that the user interface asks for with an input.
pub open spec fn flow_of<M, E>(input: InputView<M, E>) -> Seq<ControlFlow> {
    match input {
        Input::Redrawn { state, .. } => seq![state.flow()],
        _ => Seq::empty(),
    }
}

/// The control flows that the user interface asks for with a run of inputs.
pub open spec fn flows_in<M, E>(start: State<M, E>, inputs: Seq<InputView<M, E>>) -> Seq<
    ControlFlow,
> {
    brought(start, inputs, |state: State<M, E>, input: InputView<M, E>| flow_of(input))
}

/// The control flow that is still to be announced.
pub open spec fn due<M, E>(state: State<M, E>) -> Seq<ControlFlow> {
    match state.phase {
        Phase::Announcing(interface) => seq![interface.flow()],
        _ => Seq::empty(),
    }
}

proof fn lemma_step_asks_for_frame<M, E>(state: State<M, E>, input: InputView<M, E>)
    requires
        state.accepts(input),
    ensures
        state.after(input).announced + due(state.after(input)) == (state.announced + due(state))
            + flow_of(input),
        count(state.actions(input), |a: ActionView<E, M>| a is RequestRedraw) == flow_of(
            input,
        ).len(),
{
    let is = |a: ActionView<E, M>| a is RequestRedraw;
    let actions = state.actions(input);
    match input {
        Input::Redrawn { now, interaction, .. } => {
            let first = cursor_change::<E, M>(state.interaction, interaction);
            let asked = seq![Action::<E, Seq<M>>::RequestRedraw];
            let told = seq![
                Action::<E, Seq<M>>::Broadcast(
                    InterfaceEvent::RedrawRequested(now),
                    Status::Ignored,
                ),
            ];
            assert(actions == first + (asked + told));
            lemma_carried_add(first, asked + told, marked(is));
            lemma_carried_add(asked, told, marked(is));
            lemma_carried_none(first, marked(is));
            lemma_carried_one(asked[0], marked(is));
            lemma_carried_one(told[0], marked(is));
        },
        _ => {
            lemma_carried_none(actions, marked(is));
        },
    }
}

/// For every frame that was drawn anew, the window is asked once to show it, and
/// one control flow is announced, the one that the user interface asked for, in
/// the order of the frames: those announced, with the one that is due, are those
/// announced and due before, with those asked for.
pub proof fn law_each_drawing_announces_one_flow<M, E>(
    start: State<M, E>,
    inputs: Seq<InputView<M, E>>,
)
    requires
        accepted(start, inputs),
    ensures
        reach(start, inputs).announced + due(reach(start, inputs)) == (start.announced + due(start))
            + flows_in(start, inputs),
        count(answers(start, inputs), |a: ActionView<E, M>| a is RequestRedraw) == flows_in(
            start,
            inputs,
        ).len(),
    decreases inputs.len(),
{
    if inputs.len() > 0 {
        law_each_drawing_announces_one_flow(start, inputs.drop_last());
        lemma_step_asks_for_frame(reach(start, inputs.drop_last()), inputs.last());
        lemma_answers_add(start, inputs, |a: ActionView<E, M>| a is RequestRedraw);
    }
}

/// An iteration of the loop that neither draws nor brings anything changes
/// nothing, and nothing is done for it.
pub proof fn law_nothing_to_do_does_nothing<M, E>(state: State<M, E>)
    requires
        state.phase is Waiting,
        state.is_idle(),
    ensures
        state.after(Input::Event(Event::MainEventsCleared)) == state,
        state.actions(Input::Event(Event::MainEventsCleared)) == Seq::<ActionView<E, M>>::empty(),
{
}

/// A control flow is announced only when the window has been asked for the frame
/// that it goes with, and the runtime knows of the redraw: while those are being
/// done nothing is announced, and nothing is done when it is.
pub proof fn law_flow_is_announced_after_the_request<M, E>(
    state: State<M, E>,
    input: InputView<M, E>,
)
    requires
        state.accepts(input),
    ensures
        state.after(input).announced != state.announced <==> input is RedrawBroadcast,
        input is RedrawBroadcast ==> state.actions(input).len() == 0,
        state.after(input).phase is Announcing <==> input is Redrawn,
        state.actions(input).contains(Action::RequestRedraw) <==> input is Redrawn,
{
    let actions = state.actions(input);
    if input is Redrawn {
        assert(actions[actions.len() - 2] == Action::<E, Seq<M>>::RequestRedraw);
    }
    if input is RedrawBroadcast {
        assert(state.after(input).announced.len() == state.announced.len() + 1);
    }
}

/// Once a frame was drawn anew and asked for, nothing is left to do but for the
/// messages that the user interface sent while it was drawn.
pub proof fn law_drawing_leaves_nothing_to_do<M, E>(state: State<M, E>, input: InputView<M, E>)
    requires
        state.well_formed(),
        state.accepts(input),
        input is Redrawn,
    ensures
        ({
            let drawn = state.after(input);
            let done = drawn.after(Input::RedrawBroadcast);
            &&& drawn.accepts(Input::RedrawBroadcast)
            &&& done.phase is Waiting
            &&& done.is_idle() <==> input->Redrawn_messages.len() == 0
        }),
{
}

/// Where there is something to do, the user interface is updated, then the
/// application if it has to be, and unless that ends the instance, a new frame
/// is drawn and asked for before the next event is taken.
pub proof fn law_every_pass_ends_with_a_frame<M, E>(
    state: State<M, E>,
    updated: InputView<M, E>,
    application: InputView<M, E>,
    redrawn: InputView<M, E>,
)
    requires
        state.phase is Waiting,
        !state.is_idle(),
        updated is InterfaceUpdated,
        application is ApplicationUpdated,
        !application->ApplicationUpdated_should_exit,
        redrawn is Redrawn,
    ensures
        ({
            let first = state.after(Input::Event(Event::MainEventsCleared));
            let second = first.after(updated);
            let third = if second.phase is UpdatingApplication {
                second.after(application)
            } else {
                second
            };
            let fourth = third.after(redrawn);
            let done = fourth.after(Input::RedrawBroadcast);
            &&& first.accepts(updated)
            &&& second.phase is UpdatingApplication <==> {
                ||| updated->InterfaceUpdated_messages.len() > 0
                ||| updated->InterfaceUpdated_state is Outdated
            }
            &&& third.accepts(redrawn)
            &&& fourth.accepts(Input::RedrawBroadcast)
            &&& done.phase is Waiting
            &&& !done.redraw_pending
            &&& done.events.len() == 0
        }),
{
}

/// Once the loop is about to stop, the application hears of no event any more.
pub proof fn law_exit_is_final<I, X>(flow: ControlFlow, event: Incoming<I, X>)
    requires
        flow.exits(),
    ensures
        forwarded(flow, event) is None,
{
}

/// No event is passed on to an application that ended.
pub proof fn law_ended_application_hears_nothing<I, X>(
    flow: ControlFlow,
    taken: Option<ControlFlow>,
    event: Incoming<I, X>,
)
    ensures
        forwarded(settled(flow, Progress::Finished, taken), event) is None,
{
}

/// The loop stops only when the application ended or announced that it should,
/// or was about to stop before.
pub proof fn law_reasons_to_stop(
    flow: ControlFlow,
    progress: Progress,
    taken: Option<ControlFlow>,
)
    ensures
        settled(flow, progress, taken).exits() <==> {
            ||| progress == Progress::Finished
            ||| taken matches Some(announced) && announced.exits()
            ||| taken is None && flow.exits()
        },
{
}

/// What an instance announces never stops the loop.
pub proof fn law_announcements_never_stop_the_loop<M, E>(
    start: State<M, E>,
    inputs: Seq<InputView<M, E>>,
    at: int,
)
    requires
        start.announced.len() == 0,
        0 <= at < reach(start, inputs).announced.len(),
    ensures
        !reach(start, inputs).announced[at].exits(),
    decreases inputs.len(),
{
    if inputs.len() > 0 {
        let before = reach(start, inputs.drop_last());
        if at < before.announced.len() {
            law_announcements_never_stop_the_loop(start, inputs.drop_last(), at);
        }
    }
}

/// The two requests for an OpenGL context differ in their API alone; one is for
/// OpenGL ES, which comes first where it is preferred.
pub proof fn law_two_kinds_of_context(try_opengles_first: bool, sample_count: u32)
    ensures
        ({
            let first = ContextRequest::first(try_opengles_first, sample_count);
            let second = ContextRequest::second(try_opengles_first, sample_count);
            &&& first.api is OpenGlEs <==> try_opengles_first
            &&& second.api is OpenGlEs <==> !try_opengles_first
            &&& first == ContextRequest { api: first.api, ..second }
            &&& first == ContextRequest::second(!try_opengles_first, sample_count)
        }),
{
}

/// A context that cannot be built is tried once more, in the other kind. Where
/// that fails too, the application does not start, and the second failure is
/// what it reports.
pub proof fn law_second_context_decides<X, W>(
    try_opengles_first: bool,
    sample_count: u32,
    first_error: CreationError<W>,
    second: Result<(), CreationError<W>>,
)
    ensures
        ({
            let ready = Report::<X, W>::Application { try_opengles_first, sample_count };
            let building = Startup::CreatingApplication.after(ready);
            let failed = Report::<X, W>::Context(Err(first_error));
            let retried = building.after(failed);
            let last = Report::<X, W>::Context(second);
            &&& Startup::CreatingApplication.next(ready) == Ok::<Step, Error<X, W>>(
                Step::BuildContext(ContextRequest::first(try_opengles_first, sample_count)),
            )
            &&& building.awaits(failed)
            &&& building.next(failed) == Ok::<Step, Error<X, W>>(
                Step::BuildContext(ContextRequest::second(try_opengles_first, sample_count)),
            )
            &&& retried.awaits(last)
            &&& retried.next(last) == (match second {
                Ok(()) => Ok::<Step, Error<X, W>>(Step::MakeContextCurrent),
                Err(error) => Err(error.reported()),
            })
        }),
{
}

/// An application that runs or failed to start awaits no report.
pub proof fn law_startup_ends<X, W>(startup: Startup, report: Report<X, W>)
    requires
        startup is Running || startup is Failed,
    ensures
        !startup.awaits(report),
{
}

/// A start fails with a report that something failed, and with no other.
pub proof fn law_startup_fails_by_a_failure<X, W>(startup: Startup, report: Report<X, W>)
    requires
        startup.awaits(report),
    ensures
        startup.after(report) is Failed <==> startup.next(report) is Err,
        startup.next(report) is Err <==> {
            ||| report matches Report::Executor(Err(_))
            ||| report matches Report::Context(Err(_)) && startup is BuildingSecondContext
            ||| report matches Report::Compositor(Err(_))
        },
{
}

} // verus!
