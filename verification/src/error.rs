use vstd::prelude::*;

verus! {

/// Why the graphics of an application could not be created.
#[derive(Debug, PartialEq, Eq)]
pub enum GraphicsError {
    /// The requested version of the backend is not supported.
    VersionNotSupported,
    /// No pixel format matches the criteria.
    NoAvailablePixelFormat,
    /// There is no suitable graphics adapter or device.
    GraphicsAdapterNotFound,
    /// The backend failed, with a message of its own.
    BackendError(String),
}

/// Why an OpenGL context could not be created, where `W` is the error of the
/// system about a window.
#[derive(Debug, PartialEq, Eq)]
pub enum CreationError<W> {
    /// The window could not be created.
    Window(W),
    /// The requested version of OpenGL is not supported.
    OpenGlVersionNotSupported,
    /// No pixel format matches the criteria.
    NoAvailablePixelFormat,
    /// Anything else, with the message that describes it.
    Other(String),
}

/// Why an application could not be run, where `X` is the error of its executor
/// and `W` the error of the system about its window.
#[derive(Debug, PartialEq, Eq)]
pub enum Error<X, W> {
    /// The executor could not be created.
    ExecutorCreationFailed(X),
    /// The window could not be created.
    WindowCreationFailed(W),
    /// The graphics could not be created.
    GraphicsCreationFailed(GraphicsError),
}

impl<W> CreationError<W> {
    /// The error of the application that comes of the error.
    pub open spec fn reported<X>(self) -> Error<X, W> {
        match self {
            CreationError::Window(error) => Error::WindowCreationFailed(error),
            CreationError::OpenGlVersionNotSupported => Error::GraphicsCreationFailed(
                GraphicsError::VersionNotSupported,
            ),
            CreationError::NoAvailablePixelFormat => Error::GraphicsCreationFailed(
                GraphicsError::NoAvailablePixelFormat,
            ),
            CreationError::Other(message) => Error::GraphicsCreationFailed(
                GraphicsError::BackendError(message),
            ),
        }
    }

    /// Returns the error of the application that comes of the error.
    pub fn report<X>(self) -> (error: Error<X, W>)
        ensures
            error == self.reported::<X>(),
    {
        match self {
            CreationError::Window(error) => Error::WindowCreationFailed(error),
            CreationError::OpenGlVersionNotSupported => Error::GraphicsCreationFailed(
                GraphicsError::VersionNotSupported,
            ),
            CreationError::NoAvailablePixelFormat => Error::GraphicsCreationFailed(
                GraphicsError::NoAvailablePixelFormat,
            ),
            CreationError::Other(message) => Error::GraphicsCreationFailed(
                GraphicsError::BackendError(message),
            ),
        }
    }
}

} // verus!
