use iced_glutin::context::{accepts_samples, ContextApi, ContextRequest};
use iced_glutin::error::{CreationError, Error, GraphicsError};
use iced_glutin::startup::{Report, Startup, Step};

type Outcome = Report<&'static str, &'static str>;

const DESKTOP: ContextRequest = ContextRequest {
    vsync: true,
    multisampling: 4,
    api: ContextApi::Latest,
};

const EMBEDDED: ContextRequest = ContextRequest {
    vsync: true,
    multisampling: 4,
    api: ContextApi::OpenGlEs { major: 2, minor: 0 },
};

fn advance(startup: &mut Startup, report: Outcome) -> Result<Step, Error<&'static str, &'static str>> {
    assert!(startup.is_awaiting(&report));
    startup.advance(report)
}

fn application(try_opengles_first: bool) -> Outcome {
    Report::Application { try_opengles_first, sample_count: 4 }
}

#[test]
fn everything_succeeds() {
    let (mut startup, step) = Startup::new();
    assert_eq!(step, Step::CreateExecutor);
    assert_eq!(advance(&mut startup, Report::Executor(Ok(()))), Ok(Step::CreateApplication));
    assert_eq!(advance(&mut startup, application(false)), Ok(Step::BuildContext(DESKTOP)));
    assert_eq!(advance(&mut startup, Report::Context(Ok(()))), Ok(Step::MakeContextCurrent));
    assert_eq!(advance(&mut startup, Report::ContextCurrent), Ok(Step::CreateCompositor));
    assert_eq!(advance(&mut startup, Report::Compositor(Ok(()))), Ok(Step::EnterEventLoop));
    assert_eq!(startup, Startup::Running);
    assert!(!startup.is_awaiting(&Outcome::ContextCurrent));
}

#[test]
fn executor_fails() {
    let (mut startup, _) = Startup::new();
    let failed = advance(&mut startup, Report::Executor(Err("no threads")));
    assert_eq!(failed, Err(Error::ExecutorCreationFailed("no threads")));
    assert_eq!(startup, Startup::Failed);
    assert!(!startup.is_awaiting(&Outcome::Executor(Ok(()))));
}

#[test]
fn opengles_is_the_fallback() {
    let mut startup = Startup::CreatingApplication;
    assert_eq!(advance(&mut startup, application(false)), Ok(Step::BuildContext(DESKTOP)));
    let failed = Report::Context(Err(CreationError::Window("first")));
    assert_eq!(advance(&mut startup, failed), Ok(Step::BuildContext(EMBEDDED)));
    assert_eq!(advance(&mut startup, Report::Context(Ok(()))), Ok(Step::MakeContextCurrent));
}

#[test]
fn opengles_comes_first_where_preferred() {
    let mut startup = Startup::CreatingApplication;
    assert_eq!(advance(&mut startup, application(true)), Ok(Step::BuildContext(EMBEDDED)));
    let failed = Report::Context(Err(CreationError::NoAvailablePixelFormat));
    assert_eq!(advance(&mut startup, failed), Ok(Step::BuildContext(DESKTOP)));
}

fn second_failure(
    error: CreationError<&'static str>,
) -> Result<Step, Error<&'static str, &'static str>> {
    let mut startup = Startup::CreatingApplication;
    assert!(advance(&mut startup, application(false)).is_ok());
    let first = Report::Context(Err(CreationError::Other("first".to_string())));
    assert!(advance(&mut startup, first).is_ok());
    let failed = advance(&mut startup, Report::Context(Err(error)));
    assert_eq!(startup, Startup::Failed);
    failed
}

#[test]
fn second_failure_is_reported() {
    assert_eq!(
        second_failure(CreationError::Window("no display")),
        Err(Error::WindowCreationFailed("no display"))
    );
    assert_eq!(
        second_failure(CreationError::OpenGlVersionNotSupported),
        Err(Error::GraphicsCreationFailed(GraphicsError::VersionNotSupported))
    );
    assert_eq!(
        second_failure(CreationError::NoAvailablePixelFormat),
        Err(Error::GraphicsCreationFailed(GraphicsError::NoAvailablePixelFormat))
    );
    assert_eq!(
        second_failure(CreationError::Other("robustness".to_string())),
        Err(Error::GraphicsCreationFailed(GraphicsError::BackendError("robustness".to_string())))
    );
}

#[test]
fn compositor_fails() {
    let mut startup = Startup::CreatingCompositor;
    let failed = advance(
        &mut startup,
        Report::Compositor(Err(GraphicsError::GraphicsAdapterNotFound)),
    );
    assert_eq!(failed, Err(Error::GraphicsCreationFailed(GraphicsError::GraphicsAdapterNotFound)));
    assert_eq!(startup, Startup::Failed);
}

#[test]
fn reports_out_of_turn_are_not_awaited() {
    let (startup, _) = Startup::new();
    assert!(!startup.is_awaiting(&Outcome::ContextCurrent));
    assert!(!startup.is_awaiting(&Outcome::Context(Ok(()))));
    assert!(!startup.is_awaiting(&Outcome::Compositor(Ok(()))));
    assert!(!startup.is_awaiting(&application(true)));
    assert!(startup.is_awaiting(&Outcome::Executor(Err("no threads"))));
}

#[test]
fn samples_are_powers_of_two() {
    let accepted: Vec<u32> = (0..=70u32).filter(|count| accepts_samples(*count)).collect();
    assert_eq!(accepted, vec![0, 1, 2, 4, 8, 16, 32, 64]);
    assert!(accepts_samples(32768));
    assert!(!accepts_samples(65535));
    assert!(!Startup::CreatingApplication.is_awaiting(&Outcome::Application {
        try_opengles_first: false,
        sample_count: 3,
    }));
}

#[test]
fn samples_are_cut_to_sixteen_bits() {
    assert!(accepts_samples(65536));
    assert!(accepts_samples(65540));
    let (first, second) = ContextRequest::in_order(true, 65540);
    assert_eq!(first, EMBEDDED);
    assert_eq!(second, DESKTOP);
    let (first, _) = ContextRequest::in_order(false, 65536);
    assert_eq!(first.multisampling, 0);
}

#[test]
fn accepted_samples_suit_the_context_builder() {
    for count in [0u32, 1, 2, 16, 32768, 65536] {
        assert!(accepts_samples(count));
        let (request, _) = ContextRequest::in_order(false, count);
        let builder = glutin::ContextBuilder::<glutin::NotCurrent>::new()
            .with_multisampling(request.multisampling);
        let expected = if request.multisampling == 0 { None } else { Some(request.multisampling) };
        assert_eq!(builder.pf_reqs.multisampling, expected);
    }
}
