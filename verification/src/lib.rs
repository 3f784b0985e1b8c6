//! The windowing shell of an interactive application drawn with OpenGL: how it
//! starts, how it answers the events of its window, and when it ends.
//!
//! The crate decides, and the program around it acts.
//! [`Startup`](startup::Startup) leads from nothing to a running event loop,
//! [`Runner`](runner::Runner) stands in the callback of that loop, and
//! [`Instance`](instance::Instance) is the application behind it: a state
//! machine that takes one event or one result at a time and answers with what
//! to do next. What holds of them together is stated in [`laws`], what holds of
//! each step of an instance in [`step_laws`], and what holds of the startup, the
//! runner and the small decisions in [`shell_laws`].

pub mod context;
pub mod control;
pub mod cursor;
pub mod error;
pub mod event;
pub mod instance;
pub mod laws;
pub mod runner;
pub mod shell_laws;
pub mod startup;
pub mod step_laws;
