use iced_glutin::control::{Attempt, ControlFlow, InterfaceState, RedrawRequest};
use iced_glutin::event::PhysicalSize;
use iced_glutin::runner::{forward, next_flow, Incoming, Outgoing, Progress, Runner};
use std::time::{Duration, Instant};

const SIZE: PhysicalSize = PhysicalSize { width: 800, height: 600 };

#[test]
fn scale_factor_change_becomes_a_resize() {
    let event: Incoming<u8, &str> = Incoming::ScaleFactorChanged { window_id: 7, new_inner_size: SIZE };
    assert_eq!(
        forward(&ControlFlow::Wait, event),
        Some(Outgoing::Resized { window_id: 7, size: SIZE })
    );
}

#[test]
fn other_events_are_passed_on_if_they_can_be_kept() {
    let kept: Incoming<u8, &str> = Incoming::Other(Some("key"));
    assert_eq!(forward(&ControlFlow::Poll, kept), Some(Outgoing::Other("key")));
    let lost: Incoming<u8, &str> = Incoming::Other(None);
    assert_eq!(forward(&ControlFlow::Poll, lost), None);
}

#[test]
fn nothing_is_passed_on_once_the_loop_stops() {
    for code in [0, 1, -1] {
        let flow = ControlFlow::ExitWithCode(code);
        assert!(flow.is_exit());
        let key: Incoming<u8, &str> = Incoming::Other(Some("key"));
        assert_eq!(forward(&flow, key), None);
        let scale: Incoming<u8, &str> =
            Incoming::ScaleFactorChanged { window_id: 7, new_inner_size: SIZE };
        assert_eq!(forward(&flow, scale), None);
    }
    assert!(!ControlFlow::Wait.is_exit());
    assert!(!ControlFlow::Poll.is_exit());
    assert!(!ControlFlow::WaitUntil(Instant::now()).is_exit());
}

#[test]
fn flow_after_a_poll() {
    let wait = ControlFlow::Wait;
    assert_eq!(next_flow(wait, Progress::Pending, None), wait);
    assert_eq!(next_flow(wait, Progress::Pending, Some(ControlFlow::Poll)), ControlFlow::Poll);
    assert_eq!(next_flow(wait, Progress::Finished, None), ControlFlow::ExitWithCode(0));
    assert_eq!(
        next_flow(wait, Progress::Finished, Some(ControlFlow::Poll)),
        ControlFlow::ExitWithCode(0)
    );
}

#[test]
fn ended_application_hears_nothing() {
    let flow = next_flow(ControlFlow::Poll, Progress::Finished, None);
    let key: Incoming<u8, &str> = Incoming::Other(Some("key"));
    assert_eq!(forward(&flow, key), None);
}

#[test]
fn announcements_are_taken_one_at_a_time_in_order() {
    let (mut runner, mut sender) = Runner::new();
    assert_eq!(runner.settle(ControlFlow::Wait, Progress::Pending), ControlFlow::Wait);

    let later = Instant::now() + Duration::from_secs(1);
    assert!(sender.start_send(ControlFlow::Poll).is_ok());
    assert!(sender.start_send(ControlFlow::WaitUntil(later)).is_ok());

    let first = runner.settle(ControlFlow::Wait, Progress::Pending);
    assert_eq!(first, ControlFlow::Poll);
    let second = runner.settle(first, Progress::Pending);
    assert_eq!(second, ControlFlow::WaitUntil(later));
    assert_eq!(runner.settle(second, Progress::Pending), second);
}

#[test]
fn end_takes_no_announcement() {
    let (mut runner, mut sender) = Runner::new();
    assert!(sender.start_send(ControlFlow::Poll).is_ok());
    assert_eq!(
        runner.settle(ControlFlow::Wait, Progress::Finished),
        ControlFlow::ExitWithCode(0)
    );
    assert_eq!(runner.settle(ControlFlow::Wait, Progress::Pending), ControlFlow::Poll);
}

#[test]
fn empty_attempts_do_not_end_the_hearing() {
    let (mut runner, mut sender) = Runner::new();
    assert_eq!(runner.settle(ControlFlow::Wait, Progress::Pending), ControlFlow::Wait);
    assert_eq!(runner.settle(ControlFlow::Wait, Progress::Pending), ControlFlow::Wait);
    assert!(sender.start_send(ControlFlow::Poll).is_ok());
    assert_eq!(runner.settle(ControlFlow::Wait, Progress::Pending), ControlFlow::Poll);
}

#[test]
fn outcomes_of_an_attempt() {
    assert_eq!(Attempt::Taken(ControlFlow::Poll).into_flow(), Some(ControlFlow::Poll));
    assert_eq!(Attempt::Empty.into_flow(), None);
    assert_eq!(Attempt::Closed.into_flow(), None);
}

#[test]
fn closed_channel_keeps_the_flow() {
    let (mut runner, sender) = Runner::new();
    drop(sender);
    assert_eq!(runner.settle(ControlFlow::Poll, Progress::Pending), ControlFlow::Poll);
}

#[test]
fn flow_that_the_interface_asks_for() {
    let later = Instant::now() + Duration::from_secs(1);
    let asks = |redraw_request| InterfaceState::Updated { redraw_request }.control_flow();
    assert_eq!(asks(None), ControlFlow::Wait);
    assert_eq!(asks(Some(RedrawRequest::NextFrame)), ControlFlow::Poll);
    assert_eq!(asks(Some(RedrawRequest::At(later))), ControlFlow::WaitUntil(later));
    assert_eq!(InterfaceState::Outdated.control_flow(), ControlFlow::Wait);
}

#[test]
fn runner_hears_its_own_application_only() {
    let (mut first, mut to_first) = Runner::new();
    let (mut second, mut to_second) = Runner::new();
    assert!(to_first.start_send(ControlFlow::Poll).is_ok());
    assert_eq!(second.settle(ControlFlow::Wait, Progress::Pending), ControlFlow::Wait);
    assert!(to_second.start_send(ControlFlow::ExitWithCode(3)).is_ok());
    assert_eq!(second.settle(ControlFlow::Wait, Progress::Pending), ControlFlow::ExitWithCode(3));
    assert_eq!(first.settle(ControlFlow::Wait, Progress::Pending), ControlFlow::Poll);
}
