use crate::context::{is_requestable, multisampling, ContextApi, ContextRequest};
use crate::control::{Attempt, ControlFlow, InterfaceState, RedrawRequest};
use crate::cursor::{CursorIcon, Interaction};
use crate::error::{CreationError, Error, GraphicsError};
use crate::event::{PhysicalSize, StartCause};
use crate::runner::{forwarded, settled, Incoming, Outgoing, Progress};
use crate::startup::{Report, Startup, Step};
use std::time::Instant;
use vstd::prelude::*;

verus! {

/// The number of samples of a request is what is left of the wanted number once
/// multiples of 0x1_0000 are taken away; a number that fits is kept.
pub proof fn law_samples_are_the_lower_half(sample_count: u32)
    ensures
        0 <= multisampling(sample_count) < 0x1_0000,
        exists|multiple: int|
            sample_count == #[trigger] (multiple * 0x1_0000) + multisampling(sample_count),
        sample_count < 0x1_0000 ==> multisampling(sample_count) == sample_count,
{
    let multiple = sample_count as int / 0x1_0000;
    assert(sample_count == multiple * 0x1_0000 + multisampling(sample_count));
}

/// Twice a number of samples can be requested exactly where the number itself
/// can be; the only odd number that can be requested is one.
pub proof fn law_requestable_samples_double(samples: int)
    requires
        samples >= 0,
    ensures
        is_requestable(2 * samples) <==> is_requestable(samples),
        is_requestable(2 * samples + 1) <==> samples == 0,
{
    vstd::arithmetic::power2::lemma2_to64();
    assert forall|exponent: nat| exponent > 0 implies #[trigger] vstd::arithmetic::power2::pow2(
        exponent,
    ) == 2 * vstd::arithmetic::power2::pow2((exponent - 1) as nat) by {
        vstd::arithmetic::power2::lemma_pow2_unfold(exponent);
    }
    if samples > 0 && is_requestable(samples) {
        let exponent = choose|exponent: nat|
            samples == #[trigger] vstd::arithmetic::power2::pow2(exponent);
        assert(vstd::arithmetic::power2::pow2(exponent + 1) == 2 * samples);
    }
    if samples > 0 && is_requestable(2 * samples) {
        let exponent = choose|exponent: nat|
            2 * samples == #[trigger] vstd::arithmetic::power2::pow2(exponent);
        assert(vstd::arithmetic::power2::pow2((exponent - 1) as nat) == samples);
    }
    if is_requestable(2 * samples + 1) {
        let exponent = choose|exponent: nat|
            2 * samples + 1 == #[trigger] vstd::arithmetic::power2::pow2(exponent);
        assert(exponent == 0);
    }
    assert(vstd::arithmetic::power2::pow2(0) == 1);
}

/// Whichever context is tried first and however many samples are wanted, both
/// requests wait for the display and ask for the same number of samples, the
/// lower 16 bits of the wanted one. One of them is for OpenGL ES, in version
/// 2.0, and it is the first one exactly where that is preferred.
pub proof fn law_requests_differ_in_the_api_only(try_opengles_first: bool, sample_count: u32)
    ensures
        ({
            let first = ContextRequest::first(try_opengles_first, sample_count);
            let second = ContextRequest::second(try_opengles_first, sample_count);
            let embedded = ContextApi::OpenGlEs { major: 2, minor: 0 };
            &&& first.vsync
            &&& second.vsync
            &&& first.multisampling == sample_count % 0x1_0000
            &&& second.multisampling == first.multisampling
            &&& try_opengles_first ==> first.api == embedded && second.api == ContextApi::Latest
            &&& !try_opengles_first ==> first.api == ContextApi::Latest && second.api == embedded
        }),
{
}

/// The loop stops for an exit code, whichever it is, and for nothing else.
pub proof fn law_exit_codes_stop_the_loop(code: i32, moment: Instant)
    ensures
        ControlFlow::ExitWithCode(code).exits(),
        !ControlFlow::Poll.exits(),
        !ControlFlow::Wait.exits(),
        !ControlFlow::WaitUntil(moment).exits(),
{
}

/// The control flow tells what the user interface asked for: the loop goes on at
/// once for the next frame only, and waits till a moment for that moment only.
pub proof fn law_flow_tells_the_redraw_request(state: InterfaceState, moment: Instant)
    ensures
        state.flow() == ControlFlow::Poll <==> state == (InterfaceState::Updated {
            redraw_request: Some(RedrawRequest::NextFrame),
        }),
        state.flow() == ControlFlow::WaitUntil(moment) <==> state == (InterfaceState::Updated {
            redraw_request: Some(RedrawRequest::At(moment)),
        }),
        state.flow() == ControlFlow::Wait <==> state is Outdated || state == (
        InterfaceState::Updated { redraw_request: None }),
        !state.flow().exits(),
{
}

/// An attempt gives the control flow that was there, and none where none was.
pub proof fn law_attempt_gives_what_was_there(attempt: Attempt, flow: ControlFlow)
    ensures
        attempt.flow() == Some(flow) <==> attempt == Attempt::Taken(flow),
        attempt.flow() is None <==> attempt is Empty || attempt is Closed,
{
}

/// While the loop goes on, every event that can be kept reaches the application
/// as it is, and a change of the scale factor as the resize of its window to the
/// new inner size; nothing else reaches it, and nothing at all once the loop is
/// about to stop.
pub proof fn law_events_reach_the_application<I, X>(
    flow: ControlFlow,
    event: Incoming<I, X>,
    passed: Outgoing<I, X>,
)
    ensures
        forwarded(flow, event) == Some(passed) <==> {
            &&& !(flow is ExitWithCode)
            &&& match passed {
                Outgoing::Resized { window_id, size } => event == (Incoming::<
                    I,
                    X,
                >::ScaleFactorChanged { window_id, new_inner_size: size }),
                Outgoing::Other(kept) => event == Incoming::<I, X>::Other(Some(kept)),
            }
        },
        forwarded(flow, event) is None <==> flow is ExitWithCode || event == Incoming::<
            I,
            X,
        >::Other(None),
{
}

/// It makes no difference to what reaches the application how the loop waits.
pub proof fn law_waiting_keeps_no_event_back<I, X>(
    flow: ControlFlow,
    other: ControlFlow,
    event: Incoming<I, X>,
    window_id: I,
    size: PhysicalSize,
    kept: X,
)
    requires
        !flow.exits(),
        !other.exits(),
    ensures
        forwarded(flow, event) == forwarded(other, event),
        forwarded(flow, Incoming::<I, X>::Other(Some(kept))) == Some(
            Outgoing::<I, X>::Other(kept),
        ),
        forwarded(
            flow,
            Incoming::<I, X>::ScaleFactorChanged { window_id, new_inner_size: size },
        ) == Some(Outgoing::<I, X>::Resized { window_id, size }),
{
}

/// An application that ended stops the loop without an error, whatever was
/// announced. One that waits leaves the last announcement in force, and without
/// a new one the control flow as it was.
pub proof fn law_last_announcement_is_in_force(
    flow: ControlFlow,
    other: ControlFlow,
    taken: Option<ControlFlow>,
    announced: ControlFlow,
)
    ensures
        settled(flow, Progress::Finished, taken) == ControlFlow::ExitWithCode(0),
        settled(flow, Progress::Pending, None) == flow,
        settled(flow, Progress::Pending, Some(announced)) == announced,
        settled(flow, Progress::Pending, Some(announced)) == settled(
            other,
            Progress::Pending,
            Some(announced),
        ),
{
}

/// Every cause but that the waiting was cut short lets the iteration draw.
pub proof fn law_causes_that_draw(cause: StartCause)
    ensures
        cause.draws() <==> {
            ||| cause == StartCause::Init
            ||| cause == StartCause::Poll
            ||| cause == StartCause::ResumeTimeReached
        },
{
}

/// The icon tells the interaction: no two interactions share one, and an icon
/// shows the interaction that it stands for.
pub proof fn law_icon_tells_the_interaction(interaction: Interaction, other: Interaction)
    ensures
        interaction.icon() == other.icon() <==> interaction == other,
        interaction == match interaction.icon() {
            CursorIcon::Default => Interaction::Idle,
            CursorIcon::Hand => Interaction::Pointer,
            CursorIcon::Grab => Interaction::Grab,
            CursorIcon::Crosshair => Interaction::Crosshair,
            CursorIcon::Text => Interaction::Text,
            CursorIcon::Grabbing => Interaction::Grabbing,
            CursorIcon::EwResize => Interaction::ResizingHorizontally,
            CursorIcon::NsResize => Interaction::ResizingVertically,
            CursorIcon::Progress => Interaction::Working,
        },
{
}

/// The error of the application tells the error of the context, with all that it
/// carries: a window's error stays one of the window, and a message is kept.
pub proof fn law_error_tells_its_cause<X, W>(
    error: CreationError<W>,
    other: CreationError<W>,
    window: W,
    message: String,
)
    ensures
        error.reported::<X>() == other.reported::<X>() <==> error == other,
        error.reported::<X>() == Error::<X, W>::WindowCreationFailed(window) <==> error
            == CreationError::Window(window),
        error.reported::<X>() == Error::<X, W>::GraphicsCreationFailed(
            GraphicsError::BackendError(message),
        ) <==> error == CreationError::<W>::Other(message),
        error.reported::<X>() == Error::<X, W>::GraphicsCreationFailed(
            GraphicsError::VersionNotSupported,
        ) <==> error is OpenGlVersionNotSupported,
        error.reported::<X>() == Error::<X, W>::GraphicsCreationFailed(
            GraphicsError::NoAvailablePixelFormat,
        ) <==> error is NoAvailablePixelFormat,
        !(error.reported::<X>() is ExecutorCreationFailed),
{
}

/// Each step has its reason in the report before it, and so has each error: it
/// carries what the report carried. Only the second context that fails ends the
/// way.
pub proof fn law_every_step_has_its_reason<X, W>(startup: Startup, report: Report<X, W>)
    requires
        startup.awaits(report),
    ensures
        match startup.next(report) {
            Ok(Step::CreateExecutor) => false,
            Ok(Step::CreateApplication) => report matches Report::Executor(Ok(_)),
            Ok(Step::BuildContext(request)) => {
                ||| {
                    &&& report matches Report::Application { try_opengles_first, sample_count }
                    &&& request.vsync
                    &&& request.multisampling == sample_count % 0x1_0000
                    &&& try_opengles_first ==> request.api == (ContextApi::OpenGlEs {
                        major: 2,
                        minor: 0,
                    })
                    &&& !try_opengles_first ==> request.api == ContextApi::Latest
                }
                ||| {
                    &&& report matches Report::Context(Err(_))
                    &&& startup == Startup::BuildingFirstContext(request)
                }
            },
            Ok(Step::MakeContextCurrent) => report matches Report::Context(Ok(_)),
            Ok(Step::CreateCompositor) => report is ContextCurrent,
            Ok(Step::EnterEventLoop) => report matches Report::Compositor(Ok(_)),
            Err(Error::ExecutorCreationFailed(error)) => report == Report::<X, W>::Executor(
                Err(error),
            ),
            Err(Error::WindowCreationFailed(error)) => {
                &&& startup is BuildingSecondContext
                &&& report == Report::<X, W>::Context(Err(CreationError::Window(error)))
            },
            Err(Error::GraphicsCreationFailed(error)) => {
                ||| report == Report::<X, W>::Compositor(Err(error))
                ||| {
                    &&& startup is BuildingSecondContext
                    &&& report matches Report::Context(Err(cause))
                    &&& match error {
                        GraphicsError::VersionNotSupported => cause is OpenGlVersionNotSupported,
                        GraphicsError::NoAvailablePixelFormat => cause is NoAvailablePixelFormat,
                        GraphicsError::GraphicsAdapterNotFound => false,
                        GraphicsError::BackendError(message) => cause == CreationError::<W>::Other(
                            message,
                        ),
                    }
                }
            },
        },
{
}

/// The report that is awaited first is that of the executor, be it good or bad.
pub proof fn law_executor_comes_first<X, W>(report: Report<X, W>)
    ensures
        Startup::CreatingExecutor.awaits(report) <==> report is Executor,
{
}

/// What is awaited is the report of the step that was asked for, be it good or
/// bad, and nothing after the last step or an error. An application is only
/// taken with a number of samples that can be requested.
pub proof fn law_awaits_the_report_of_its_step<X, W>(
    startup: Startup,
    report: Report<X, W>,
    next: Report<X, W>,
)
    requires
        startup.awaits(report),
    ensures
        startup.after(report).awaits(next) <==> match startup.next(report) {
            Ok(Step::CreateExecutor) => next is Executor,
            Ok(Step::CreateApplication) => {
                &&& next matches Report::Application { sample_count, .. }
                &&& is_requestable(sample_count as int % 0x1_0000)
            },
            Ok(Step::BuildContext(_)) => next is Context,
            Ok(Step::MakeContextCurrent) => next is ContextCurrent,
            Ok(Step::CreateCompositor) => next is Compositor,
            Ok(Step::EnterEventLoop) => false,
            Err(_) => false,
        },
        startup.next(report) is Err <==> startup.after(report) is Failed,
        startup.next(report) == Ok::<Step, Error<X, W>>(Step::EnterEventLoop) <==> startup.after(
            report,
        ) is Running,
{
}

/// Where the first context fails, for whatever reason, the other kind is tried
/// once, with as many samples; where that fails too, its error is the one that
/// ends the way.
pub proof fn law_other_context_is_tried_once<X, W>(
    startup: Startup,
    try_opengles_first: bool,
    sample_count: u32,
    error: CreationError<W>,
    other: CreationError<W>,
)
    requires
        startup.awaits(Report::<X, W>::Application { try_opengles_first, sample_count }),
    ensures
        ({
            let application = Report::<X, W>::Application { try_opengles_first, sample_count };
            let failure = Report::<X, W>::Context(Err(error));
            let first = startup.after(application);
            let second = first.after(failure);
            &&& first.awaits(failure)
            &&& first.next(failure) matches Ok(Step::BuildContext(request))
            &&& request.vsync
            &&& request.multisampling == sample_count % 0x1_0000
            &&& try_opengles_first ==> request.api == ContextApi::Latest
            &&& !try_opengles_first ==> request.api == (ContextApi::OpenGlEs {
                major: 2,
                minor: 0,
            })
            &&& second.awaits(Report::<X, W>::Context(Err(other)))
            &&& second.next(Report::<X, W>::Context(Err(other))) is Err
        }),
{
}

} // verus!
