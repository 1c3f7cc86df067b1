//! A coroutine-backed task core: blocking-style functions run as
//! non-blocking, poll-driven tasks on a cooperative event loop.
//!
//! The library holds the verified heart of such a system: the unified
//! error type that merges the three failure domains a task can meet, the
//! three-state machine that drives a coroutine-backed computation through
//! repeated non-blocking polls, and the combinator that absorbs a task's
//! failure into a single log line.  The coroutine runtime and the reactor
//! themselves are collaborators on the far side of this crate's boundary:
//! a driver performs their work (starting a coroutine, polling its handle,
//! registering a timer) and feeds what they reported back into the
//! verified transition functions here.

pub mod error;
pub mod logging;
pub mod routine;

pub use error::Infallible;
pub use error::JokerError;
pub use logging::JokerFutureExt;
pub use logging::LogError;
pub use routine::routine;
pub use routine::JokerRoutine;
