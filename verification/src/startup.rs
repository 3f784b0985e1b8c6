use crate::context::{accepts_samples, is_requestable, multisampling, ContextRequest};
use crate::error::{CreationError, Error, GraphicsError};
use vstd::prelude::*;

verus! {

/// What is to be done next for an application to start.
#[derive(Clone, Copy, Debug, PartialEq, Eq, Structural)]
pub enum Step {
    /// Create the executor of its commands.
    CreateExecutor,
    /// Create the application itself.
    CreateApplication,
    /// Build its window, with an OpenGL context.
    BuildContext(ContextRequest),
    /// Make the context the current one.
    MakeContextCurrent,
    /// Create the compositor, and the renderer with it.
    CreateCompositor,
    /// Enter the event loop.
    EnterEventLoop,
}

/// What came of a step, where `X` is the error of an executor and `W` the error
/// of the system about a window.
#[derive(Debug)]
pub enum Report<X, W> {
    Executor(Result<(), X>),
    /// The application is there; its settings tell which kind of context it
    /// prefers, and its compositor how many samples it wants.
    Application { try_opengles_first: bool, sample_count: u32 },
    Context(Result<(), CreationError<W>>),
    ContextCurrent,
    Compositor(Result<(), GraphicsError>),
}

/// The way of an application to its event loop: the step whose report is awaited.
#[derive(Clone, Copy, Debug, PartialEq, Eq, Structural)]
pub enum Startup {
    CreatingExecutor,
    CreatingApplication,
    /// With the request to fall back to.
    BuildingFirstContext(ContextRequest),
    BuildingSecondContext,
    MakingContextCurrent,
    CreatingCompositor,
    Running,
    Failed,
}

impl Startup {
    /// Whether the report is the one that is awaited.
    pub open spec fn awaits<X, W>(self, report: Report<X, W>) -> bool {
        match report {
            Report::Executor(_) => self is CreatingExecutor,
            Report::Application { try_opengles_first: _, sample_count } => {
                &&& self is CreatingApplication
                &&& is_requestable(multisampling(sample_count))
            },
            Report::Context(_) => self is BuildingFirstContext || self is BuildingSecondContext,
            Report::ContextCurrent => self is MakingContextCurrent,
            Report::Compositor(_) => self is CreatingCompositor,
        }
    }

    /// The step that follows a report, or the error with which the application
    /// does not start.
    pub open spec fn next<X, W>(self, report: Report<X, W>) -> Result<Step, Error<X, W>> {
        match report {
            Report::Executor(Ok(())) => Ok(Step::CreateApplication),
            Report::Executor(Err(error)) => Err(Error::ExecutorCreationFailed(error)),
            Report::Application { try_opengles_first, sample_count } => Ok(
                Step::BuildContext(ContextRequest::first(try_opengles_first, sample_count)),
            ),
            Report::Context(Ok(())) => Ok(Step::MakeContextCurrent),
            Report::Context(Err(error)) => match self {
                Startup::BuildingFirstContext(second) => Ok(Step::BuildContext(second)),
                _ => Err(error.reported()),
            },
            Report::ContextCurrent => Ok(Step::CreateCompositor),
            Report::Compositor(Ok(())) => Ok(Step::EnterEventLoop),
            Report::Compositor(Err(error)) => Err(Error::GraphicsCreationFailed(error)),
        }
    }

    /// The report that is awaited after the given one.
    pub open spec fn after<X, W>(self, report: Report<X, W>) -> Self {
        match self.next(report) {
            Err(_) => Startup::Failed,
            Ok(Step::CreateExecutor) => Startup::CreatingExecutor,
            Ok(Step::CreateApplication) => Startup::CreatingApplication,
            Ok(Step::BuildContext(_)) => match report {
                Report::Application { try_opengles_first, sample_count } =>
                    Startup::BuildingFirstContext(
                        ContextRequest::second(try_opengles_first, sample_count),
                    ),
                _ => Startup::BuildingSecondContext,
            },
            Ok(Step::MakeContextCurrent) => Startup::MakingContextCurrent,
            Ok(Step::CreateCompositor) => Startup::CreatingCompositor,
            Ok(Step::EnterEventLoop) => Startup::Running,
        }
    }

    /// Begins, with the first step.
    pub fn new() -> (begun: (Self, Step))
        ensures
            begun.0 == Startup::CreatingExecutor,
            begun.1 == Step::CreateExecutor,
    {
        (Startup::CreatingExecutor, Step::CreateExecutor)
    }

    /// Returns whether the report is the one that is awaited.
    pub fn is_awaiting<X, W>(&self, report: &Report<X, W>) -> (awaited: bool)
        ensures
            awaited == self.awaits(*report),
    {
        match report {
            Report::Executor(_) => matches!(self, Startup::CreatingExecutor),
            Report::Application { sample_count, .. } => {
                matches!(self, Startup::CreatingApplication) && accepts_samples(*sample_count)
            },
            Report::Context(_) => matches!(
                self,
                Startup::BuildingFirstContext(_) | Startup::BuildingSecondContext
            ),
            Report::ContextCurrent => matches!(self, Startup::MakingContextCurrent),
            Report::Compositor(_) => matches!(self, Startup::CreatingCompositor),
        }
    }

    /// Takes the report of a step, and returns the step that follows it.
    pub fn advance<X, W>(&mut self, report: Report<X, W>) -> (step: Result<Step, Error<X, W>>)
        requires
            old(self).awaits(report),
        ensures
            step == old(self).next(report),
            *final(self) == old(self).after(report),
    {
        match report {
            Report::Executor(created) => match created {
                Ok(()) => {
                    *self = Startup::CreatingApplication;
                    Ok(Step::CreateApplication)
                },
                Err(error) => {
                    *self = Startup::Failed;
                    Err(Error::ExecutorCreationFailed(error))
                },
            },
            Report::Application { try_opengles_first, sample_count } => {
                let (first, second) = ContextRequest::in_order(try_opengles_first, sample_count);
                *self = Startup::BuildingFirstContext(second);
                Ok(Step::BuildContext(first))
            },
            Report::Context(built) => match built {
                Ok(()) => {
                    *self = Startup::MakingContextCurrent;
                    Ok(Step::MakeContextCurrent)
                },
                Err(error) => match *self {
                    Startup::BuildingFirstContext(second) => {
                        *self = Startup::BuildingSecondContext;
                        Ok(Step::BuildContext(second))
                    },
                    _ => {
                        *self = Startup::Failed;
                        Err(error.report())
                    },
                },
            },
            Report::ContextCurrent => {
                *self = Startup::CreatingCompositor;
                Ok(Step::CreateCompositor)
            },
            Report::Compositor(created) => match created {
                Ok(()) => {
                    *self = Startup::Running;
                    Ok(Step::EnterEventLoop)
                },
                Err(error) => {
                    *self = Startup::Failed;
                    Err(Error::GraphicsCreationFailed(error))
                },
            },
        }
    }
}

} // verus!
