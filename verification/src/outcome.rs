//! The plain values that flow through the decorators: severity levels,
//! readiness outcomes, and the rendering capability payloads must offer.

use vstd::prelude::*;

verus! {

/// Severity of an emitted log record.
#[derive(Clone, Copy, Debug, PartialEq, Eq, Structural)]
pub enum Level {
    Error,
    Warn,
    Info,
    Debug,
    Trace,
}

/// The readiness outcome of polling a computation or a readiness check:
/// either a finished value or a transient "poll again later" signal.
#[derive(Clone, Debug, PartialEq, Eq)]
pub enum Async<T> {
    Ready(T),
    NotReady,
}

/// A human-readable rendering, required of error values by `LogErrors` and
/// of response values by `LogResponses` so that outcomes can be written into
/// log messages.
pub trait Render {
    /// The characters `render` produces for this value. The default, the
    /// empty rendering, suits only a type whose `render` returns an empty
    /// string; any other implementation states its own.
    open spec fn render_spec(&self) -> Seq<char> {
        Seq::empty()
    }

    /// Render the value for inclusion in a log message.
    fn render(&self) -> (r: String)
        ensures
            r@ == self.render_spec(),
    ;
}

impl Render for String {
    open spec fn render_spec(&self) -> Seq<char> {
        self@
    }

    fn render(&self) -> (r: String) {
        self.clone()
    }
}

impl Render for () {
    open spec fn render_spec(&self) -> Seq<char> {
        "()"@
    }

    fn render(&self) -> (r: String) {
        "()".to_owned()
    }
}

} // verus!
