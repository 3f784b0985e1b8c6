use iced_glutin::control::{ControlFlow, InterfaceState, RedrawRequest};
use iced_glutin::cursor::{CursorIcon, Interaction};
use iced_glutin::event::{
    Event, Frame, InterfaceEvent, PhysicalSize, StartCause, Status, Viewport,
};
use iced_glutin::instance::{Action, Input, Instance};
use iced_glutin::runner::{Progress, Runner};
use std::time::{Duration, Instant};

type Message = &'static str;
type Key = u32;
type Done = Action<Key, Vec<Message>>;

const UPDATED: InterfaceState = InterfaceState::Updated { redraw_request: None };

const SIZE: PhysicalSize = PhysicalSize { width: 640, height: 480 };

fn feed(instance: &mut Instance<Message, Key>, input: Input<Message, Key>) -> Vec<Done> {
    assert!(instance.accepts(&input));
    instance.step(input)
}

fn event(instance: &mut Instance<Message, Key>, event: Event<Message>) -> Vec<Done> {
    feed(instance, Input::Event(event))
}

fn started(exit_on_close_request: bool) -> (Runner, Instance<Message, Key>) {
    let (runner, controls) = Runner::new();
    let (mut instance, actions) = Instance::new(controls, 0, exit_on_close_request);
    assert_eq!(
        actions,
        vec![Action::RunInitCommand, Action::TrackSubscription, Action::BuildInterface]
    );
    assert_eq!(feed(&mut instance, Input::Started { should_exit: false }), vec![]);
    (runner, instance)
}

fn press(instance: &mut Instance<Message, Key>, key: Key) {
    let actions = event(instance, Event::WindowEvent { requests_exit: false });
    assert_eq!(actions, vec![Action::UpdateState, Action::ConvertEvent]);
    assert_eq!(feed(instance, Input::Converted(Some(key))), vec![]);
}

fn frame(version: usize, context_is_current: bool) -> Event<Message> {
    Event::RedrawRequested(Frame {
        context_is_current,
        viewport: Viewport { version, physical_size: SIZE },
    })
}

fn redrawn(
    state: InterfaceState,
    messages: Vec<Message>,
    interaction: Interaction,
    now: Instant,
) -> Input<Message, Key> {
    Input::Redrawn { now, state, messages, interaction }
}

#[test]
fn nothing_is_done_for_an_idle_iteration() {
    let (_runner, mut instance) = started(true);
    assert_eq!(event(&mut instance, Event::NewEvents(StartCause::WaitCancelled)), vec![]);
    assert_eq!(event(&mut instance, Event::MainEventsCleared), vec![]);
    assert_eq!(event(&mut instance, Event::Other), vec![]);
    assert!(!instance.is_finished());
}

#[test]
fn causes_that_draw() {
    for cause in [StartCause::Init, StartCause::Poll, StartCause::ResumeTimeReached] {
        assert!(cause.requests_redraw());
        let (_runner, mut instance) = started(true);
        assert_eq!(event(&mut instance, Event::NewEvents(cause)), vec![]);
        assert_eq!(
            event(&mut instance, Event::MainEventsCleared),
            vec![Action::UpdateInterface(vec![])]
        );
    }
    assert!(!StartCause::WaitCancelled.requests_redraw());
}

#[test]
fn later_cause_replaces_the_earlier() {
    let (_runner, mut instance) = started(true);
    event(&mut instance, Event::NewEvents(StartCause::Poll));
    event(&mut instance, Event::NewEvents(StartCause::WaitCancelled));
    assert_eq!(event(&mut instance, Event::MainEventsCleared), vec![]);
}

#[test]
fn pass_without_messages_skips_the_application() {
    let (mut runner, mut instance) = started(true);
    let now = Instant::now();
    event(&mut instance, Event::NewEvents(StartCause::Init));
    event(&mut instance, Event::MainEventsCleared);
    let updated =
        Input::InterfaceUpdated { state: UPDATED, statuses: vec![], messages: vec![] };
    assert_eq!(feed(&mut instance, updated), vec![Action::RedrawInterface, Action::Draw]);
    assert_eq!(
        feed(&mut instance, redrawn(UPDATED, vec![], Interaction::Idle, now)),
        vec![
            Action::RequestRedraw,
            Action::Broadcast(InterfaceEvent::RedrawRequested(now), Status::Ignored),
        ]
    );
    assert_eq!(feed(&mut instance, Input::RedrawBroadcast), vec![]);
    assert_eq!(runner.settle(ControlFlow::Poll, Progress::Pending), ControlFlow::Wait);
    assert_eq!(event(&mut instance, Event::MainEventsCleared), vec![]);
}

#[test]
fn flow_is_announced_after_the_request() {
    let (mut runner, mut instance) = started(true);
    event(&mut instance, Event::NewEvents(StartCause::Init));
    event(&mut instance, Event::MainEventsCleared);
    let updated =
        Input::InterfaceUpdated { state: UPDATED, statuses: vec![], messages: vec![] };
    feed(&mut instance, updated);
    let state =
        InterfaceState::Updated { redraw_request: Some(RedrawRequest::NextFrame) };
    let actions =
        feed(&mut instance, redrawn(state, vec![], Interaction::Idle, Instant::now()));
    assert_eq!(actions[0], Action::RequestRedraw);
    assert!(!instance.accepts(&Input::Event(Event::Other)));
    assert_eq!(runner.settle(ControlFlow::Wait, Progress::Pending), ControlFlow::Wait);
    assert_eq!(feed(&mut instance, Input::RedrawBroadcast), vec![]);
    assert_eq!(runner.settle(ControlFlow::Wait, Progress::Pending), ControlFlow::Poll);
}

#[test]
fn messages_reach_the_application_once_in_order() {
    let (_runner, mut instance) = started(true);
    assert_eq!(event(&mut instance, Event::UserEvent("a")), vec![]);
    assert_eq!(event(&mut instance, Event::UserEvent("b")), vec![]);
    assert_eq!(
        event(&mut instance, Event::MainEventsCleared),
        vec![Action::UpdateInterface(vec!["a", "b"])]
    );
    let updated = Input::InterfaceUpdated {
        state: UPDATED,
        statuses: vec![],
        messages: vec!["a", "b", "c"],
    };
    assert_eq!(
        feed(&mut instance, updated),
        vec![
            Action::UpdateApplication(vec!["a", "b", "c"]),
            Action::Synchronize,
            Action::RebuildInterface,
        ]
    );
    assert_eq!(
        feed(&mut instance, Input::ApplicationUpdated { should_exit: false }),
        vec![Action::RedrawInterface, Action::Draw]
    );
    let now = Instant::now();
    feed(&mut instance, redrawn(UPDATED, vec!["d"], Interaction::Idle, now));
    feed(&mut instance, Input::RedrawBroadcast);
    assert_eq!(event(&mut instance, Event::UserEvent("e")), vec![]);
    assert_eq!(
        event(&mut instance, Event::MainEventsCleared),
        vec![Action::UpdateInterface(vec!["d", "e"])]
    );
}

#[test]
fn outdated_interface_updates_the_application_without_messages() {
    let (_runner, mut instance) = started(true);
    event(&mut instance, Event::NewEvents(StartCause::Poll));
    event(&mut instance, Event::MainEventsCleared);
    let updated = Input::InterfaceUpdated {
        state: InterfaceState::Outdated,
        statuses: vec![],
        messages: vec![],
    };
    assert_eq!(
        feed(&mut instance, updated),
        vec![Action::UpdateApplication(vec![]), Action::Synchronize, Action::RebuildInterface]
    );
}

#[test]
fn events_are_broadcast_once_in_order() {
    let (_runner, mut instance) = started(true);
    press(&mut instance, 1);
    press(&mut instance, 2);
    assert_eq!(instance.pending_events(), &vec![1, 2]);
    assert_eq!(
        event(&mut instance, Event::MainEventsCleared),
        vec![Action::UpdateInterface(vec![])]
    );
    let updated = Input::InterfaceUpdated {
        state: UPDATED,
        statuses: vec![Status::Captured, Status::Ignored],
        messages: vec![],
    };
    assert_eq!(
        feed(&mut instance, updated),
        vec![
            Action::Broadcast(InterfaceEvent::Window(1), Status::Captured),
            Action::Broadcast(InterfaceEvent::Window(2), Status::Ignored),
            Action::RedrawInterface,
            Action::Draw,
        ]
    );
    assert!(instance.pending_events().is_empty());
}

#[test]
fn events_without_a_status_are_passed_over() {
    let (_runner, mut instance) = started(true);
    press(&mut instance, 1);
    press(&mut instance, 2);
    event(&mut instance, Event::MainEventsCleared);
    let updated = Input::InterfaceUpdated {
        state: UPDATED,
        statuses: vec![Status::Captured],
        messages: vec![],
    };
    assert_eq!(
        feed(&mut instance, updated),
        vec![
            Action::Broadcast(InterfaceEvent::Window(1), Status::Captured),
            Action::RedrawInterface,
            Action::Draw,
        ]
    );
    assert!(instance.pending_events().is_empty());
}

#[test]
fn statuses_without_an_event_are_passed_over() {
    let (_runner, mut instance) = started(true);
    press(&mut instance, 1);
    event(&mut instance, Event::MainEventsCleared);
    let updated = Input::InterfaceUpdated {
        state: UPDATED,
        statuses: vec![Status::Captured, Status::Ignored],
        messages: vec![],
    };
    assert_eq!(feed(&mut instance, updated).len(), 3);
}

#[test]
fn unknown_window_events_are_forgotten() {
    let (_runner, mut instance) = started(true);
    event(&mut instance, Event::WindowEvent { requests_exit: false });
    assert_eq!(feed(&mut instance, Input::Converted(None)), vec![]);
    assert_eq!(event(&mut instance, Event::MainEventsCleared), vec![]);
}

#[test]
fn close_request_ends_the_instance_where_wanted() {
    let (_runner, mut instance) = started(true);
    let actions = event(&mut instance, Event::WindowEvent { requests_exit: true });
    assert_eq!(actions, vec![Action::DropInterface]);
    assert!(instance.is_finished());
    assert!(!instance.accepts(&Input::Event(Event::MainEventsCleared)));
    assert!(!instance.accepts(&Input::Closed));
}

#[test]
fn close_request_is_an_event_where_it_does_not_end_the_instance() {
    let (_runner, mut instance) = started(false);
    let actions = event(&mut instance, Event::WindowEvent { requests_exit: true });
    assert_eq!(actions, vec![Action::UpdateState, Action::ConvertEvent]);
    assert_eq!(feed(&mut instance, Input::Converted(Some(9))), vec![]);
    assert_eq!(instance.pending_events(), &vec![9]);
    assert!(!instance.is_finished());
}

#[test]
fn end_of_events_ends_the_instance() {
    let (_runner, mut instance) = started(false);
    assert_eq!(feed(&mut instance, Input::Closed), vec![Action::DropInterface]);
    assert!(instance.is_finished());
}

#[test]
fn application_ends_itself() {
    let (_runner, mut instance) = started(false);
    event(&mut instance, Event::UserEvent("quit"));
    event(&mut instance, Event::MainEventsCleared);
    let updated =
        Input::InterfaceUpdated { state: UPDATED, statuses: vec![], messages: vec!["quit"] };
    feed(&mut instance, updated);
    assert_eq!(
        feed(&mut instance, Input::ApplicationUpdated { should_exit: true }),
        vec![Action::DropInterface]
    );
    assert!(instance.is_finished());
    assert!(instance.should_exit());
}

#[test]
fn wish_to_end_at_the_beginning_waits_for_an_update() {
    let (_runner, controls) = Runner::new();
    let (mut instance, _): (Instance<Message, Key>, _) = Instance::new(controls, 0, true);
    assert_eq!(feed(&mut instance, Input::Started { should_exit: true }), vec![]);
    assert!(instance.should_exit());
    assert!(!instance.is_finished());
    event(&mut instance, Event::NewEvents(StartCause::Init));
    event(&mut instance, Event::MainEventsCleared);
    let updated =
        Input::InterfaceUpdated { state: UPDATED, statuses: vec![], messages: vec![] };
    assert_eq!(feed(&mut instance, updated), vec![Action::RedrawInterface, Action::Draw]);
    assert!(!instance.is_finished());
}

#[test]
fn frame_for_the_same_viewport_is_shown_as_it_is() {
    let (_runner, mut instance) = started(true);
    assert_eq!(
        event(&mut instance, frame(0, true)),
        vec![Action::Present, Action::SwapBuffers]
    );
    assert_eq!(
        event(&mut instance, frame(0, false)),
        vec![Action::MakeContextCurrent, Action::Present, Action::SwapBuffers]
    );
}

#[test]
fn frame_for_another_viewport_is_laid_out_once() {
    let (_runner, mut instance) = started(true);
    assert_eq!(
        event(&mut instance, frame(3, false)),
        vec![Action::MakeContextCurrent, Action::Relayout, Action::Draw]
    );
    assert_eq!(
        feed(&mut instance, Input::Relaid(Interaction::Text)),
        vec![
            Action::SetCursor(CursorIcon::Text),
            Action::ResizeContext(SIZE),
            Action::ResizeViewport(SIZE),
            Action::Present,
            Action::SwapBuffers,
        ]
    );
    assert_eq!(
        event(&mut instance, frame(3, true)),
        vec![Action::Present, Action::SwapBuffers]
    );
}

#[test]
fn cursor_is_set_when_the_interaction_changes() {
    let (_runner, mut instance) = started(true);
    let now = Instant::now();
    let mut icons = Vec::new();
    for interaction in [
        Interaction::Idle,
        Interaction::Pointer,
        Interaction::Pointer,
        Interaction::Idle,
    ] {
        event(&mut instance, Event::NewEvents(StartCause::Poll));
        event(&mut instance, Event::MainEventsCleared);
        let updated =
            Input::InterfaceUpdated { state: UPDATED, statuses: vec![], messages: vec![] };
        feed(&mut instance, updated);
        for action in feed(&mut instance, redrawn(UPDATED, vec![], interaction, now)) {
            if let Action::SetCursor(icon) = action {
                icons.push(icon);
            }
        }
        feed(&mut instance, Input::RedrawBroadcast);
    }
    assert_eq!(icons, vec![CursorIcon::Hand, CursorIcon::Default]);
}

#[test]
fn flow_that_the_interface_asks_for_reaches_the_loop() {
    let (mut runner, mut instance) = started(true);
    let now = Instant::now();
    let later = now + Duration::from_millis(16);
    let requests = [
        (Some(RedrawRequest::NextFrame), ControlFlow::Poll),
        (Some(RedrawRequest::At(later)), ControlFlow::WaitUntil(later)),
        (None, ControlFlow::Wait),
    ];
    for (redraw_request, expected) in requests {
        event(&mut instance, Event::NewEvents(StartCause::Poll));
        event(&mut instance, Event::MainEventsCleared);
        let updated =
            Input::InterfaceUpdated { state: UPDATED, statuses: vec![], messages: vec![] };
        feed(&mut instance, updated);
        let state = InterfaceState::Updated { redraw_request };
        feed(&mut instance, redrawn(state, vec![], Interaction::Idle, now));
        feed(&mut instance, Input::RedrawBroadcast);
        let before = ControlFlow::ExitWithCode(1);
        assert_eq!(runner.settle(before, Progress::Pending), expected);
        assert_eq!(runner.settle(before, Progress::Pending), before);
    }
}

#[test]
fn inputs_out_of_turn_are_not_accepted() {
    let (_runner, controls) = Runner::new();
    let (mut instance, _): (Instance<Message, Key>, _) = Instance::new(controls, 0, true);
    assert!(!instance.accepts(&Input::Event(Event::Other)));
    assert!(!instance.accepts(&Input::Closed));
    feed(&mut instance, Input::Started { should_exit: false });
    assert!(!instance.accepts(&Input::Started { should_exit: false }));
    assert!(!instance.accepts(&Input::Converted(None)));
    assert!(!instance.accepts(&Input::ApplicationUpdated { should_exit: false }));
    assert!(!instance.accepts(&Input::Relaid(Interaction::Idle)));
    assert!(!instance.accepts(&Input::RedrawBroadcast));
    assert!(!instance.accepts(&redrawn(UPDATED, vec![], Interaction::Idle, Instant::now())));
    event(&mut instance, Event::UserEvent("a"));
    event(&mut instance, Event::MainEventsCleared);
    assert!(!instance.accepts(&Input::Event(Event::Other)));
}
