//! Observability decorators for an async request/response abstraction.
//!
//! `LogErrors` wraps a capability (a computation, a service, or a service
//! factory) and emits a log record whenever the wrapped value produces an
//! error, forwarding the error unchanged. `LogResponses` does the same for
//! successful and not-ready outcomes, leaving errors completely untouched.
//!
//! A decorator never alters an outcome: every driving call forwards exactly
//! what the wrapped capability produced, and emits its records through the
//! `Sink` the call was driven with. `RecordingSink` keeps records in memory;
//! a backend adapter can instead route each record onward to a process-wide
//! log facility the moment it is accepted.

use vstd::prelude::*;

pub mod capability;
pub mod errors;
pub mod laws;
pub mod outcome;
pub mod record;
pub mod responses;

pub use capability::Computation;
pub use capability::Service;
pub use capability::ServiceFactory;
pub use errors::LogErrors;
pub use outcome::Async;
pub use outcome::Level;
pub use outcome::Render;
pub use record::LogRecord;
pub use record::RecordingSink;
pub use record::Sink;
pub use responses::LogResponses;

verus! {

/// Wrap `inner` in a `LogErrors` decorator attributed to the caller's own
/// source position: the caller hands in its module path, file and line, and
/// emitted records look as if logged from that call site rather than from
/// inside this crate.
pub fn log_errors_at<T>(
    inner: T,
    module: &'static str,
    file: &'static str,
    line: u32,
) -> (r: LogErrors<T>)
    ensures
        r.inner == inner,
        r.level == Level::Error,
        r.target is None,
        r.module == Some(module),
        r.file == Some(file),
        r.line == Some(line),
{
    LogErrors::new(inner).in_module(module).at_location(file, line)
}

/// Wrap `inner` in a `LogResponses` decorator attributed to the caller's own
/// source position, as `log_errors_at` does for `LogErrors`.
pub fn log_responses_at<T>(
    inner: T,
    module: &'static str,
    file: &'static str,
    line: u32,
) -> (r: LogResponses<T>)
    ensures
        r.inner == inner,
        r.level == Level::Debug,
        r.not_ready == false,
        r.target is None,
        r.module == Some(module),
        r.file == Some(file),
        r.line == Some(line),
{
    LogResponses::new(inner).in_module(module).at_location(file, line)
}

} // verus!
