//! `LogResponses`: wraps a capability and logs its successful and not-ready
//! outcomes before forwarding them unchanged. Errors pass through completely
//! untouched and unlogged.

use vstd::prelude::*;

use crate::capability::Computation;
use crate::capability::Service;
use crate::capability::ServiceFactory;
use crate::outcome::Async;
use crate::outcome::Level;
use crate::outcome::Render;
use crate::record::LogRecord;
use crate::record::Sink;
use crate::record::build_record;
use crate::record::emitted_one;
use crate::record::message_of;
use crate::record::record_resolves;

verus! {

/// Whether the response decorator emits a record for an outcome: every
/// completed success, a not-ready signal only when `log_not_ready` asks for
/// it, and never an error.
pub open spec fn response_logged<I, E>(log_not_ready: bool, outcome: Result<Async<I>, E>) -> bool {
    match outcome {
        Ok(Async::Ready(_)) => true,
        Ok(Async::NotReady) => log_not_ready,
        Err(_) => false,
    }
}

/// The characters a logged outcome renders to: the finished value's own
/// rendering, or the not-ready marker.
pub open spec fn response_rendering<I: Render, E>(outcome: Result<Async<I>, E>) -> Seq<char> {
    match outcome {
        Ok(Async::Ready(v)) => v.render_spec(),
        _ => "NotReady"@,
    }
}

/// Logs successful and not-ready outcomes of the wrapped capability.
#[derive(Clone, Debug)]
pub struct LogResponses<T> {
    pub inner: T,
    pub level: Level,
    pub not_ready: bool,
    pub target: Option<&'static str>,
    pub module: Option<&'static str>,
    pub file: Option<&'static str>,
    pub line: Option<u32>,
}

impl<T> LogResponses<T> {
    /// `other` carries exactly this decorator's configuration.
    pub open spec fn same_config<U>(&self, other: LogResponses<U>) -> bool {
        &&& other.level == self.level
        &&& other.not_ready == self.not_ready
        &&& other.target == self.target
        &&& other.module == self.module
        &&& other.file == self.file
        &&& other.line == self.line
    }

    /// Wrap `inner`. The level defaults to `Level::Debug` and not-ready
    /// signals are not logged; no target, module path, file or line is
    /// configured, so records fall back to this crate's own identity until
    /// the fluent setters say otherwise.
    pub fn new(inner: T) -> (r: Self)
        ensures
            r.inner == inner,
            r.level == Level::Debug,
            r.not_ready == false,
            r.target is None,
            r.module is None,
            r.file is None,
            r.line is None,
    {
        LogResponses {
            inner,
            level: Level::Debug,
            not_ready: false,
            target: None,
            module: None,
            file: None,
            line: None,
        }
    }

    /// Set the level of the produced records.
    pub fn at_level(self, level: Level) -> (r: Self)
        ensures
            r.level == level,
            r.inner == self.inner,
            r.not_ready == self.not_ready,
            r.target == self.target,
            r.module == self.module,
            r.file == self.file,
            r.line == self.line,
    {
        LogResponses { level, ..self }
    }

    /// Set the target of the produced records.
    pub fn with_target(self, target: &'static str) -> (r: Self)
        ensures
            r.target == Some(target),
            r.inner == self.inner,
            r.level == self.level,
            r.not_ready == self.not_ready,
            r.module == self.module,
            r.file == self.file,
            r.line == self.line,
    {
        LogResponses { target: Some(target), ..self }
    }

    /// Set the module path of the produced records.
    pub fn in_module(self, module: &'static str) -> (r: Self)
        ensures
            r.module == Some(module),
            r.inner == self.inner,
            r.level == self.level,
            r.not_ready == self.not_ready,
            r.target == self.target,
            r.file == self.file,
            r.line == self.line,
    {
        LogResponses { module: Some(module), ..self }
    }

    /// Set the file and line number of the produced records.
    pub fn at_location(self, file: &'static str, line: u32) -> (r: Self)
        ensures
            r.file == Some(file),
            r.line == Some(line),
            r.inner == self.inner,
            r.level == self.level,
            r.not_ready == self.not_ready,
            r.target == self.target,
            r.module == self.module,
    {
        LogResponses { file: Some(file), line: Some(line), ..self }
    }

    /// Set whether this decorator logs not-ready signals. Off by default, so
    /// a computation polled many times while waiting does not flood the sink.
    pub fn log_not_ready(self, not_ready: bool) -> (r: Self)
        ensures
            r.not_ready == not_ready,
            r.inner == self.inner,
            r.level == self.level,
            r.target == self.target,
            r.module == self.module,
            r.file == self.file,
            r.line == self.line,
    {
        LogResponses { not_ready, ..self }
    }

    /// Derive a decorator around a different inner value that inherits every
    /// configuration field of this one, by value.
    pub fn child<U>(&self, inner: U) -> (r: LogResponses<U>)
        ensures
            r.inner == inner,
            self.same_config(r),
    {
        LogResponses {
            inner,
            level: self.level,
            not_ready: self.not_ready,
            target: self.target,
            module: self.module,
            file: self.file,
            line: self.line,
        }
    }

    /// Render `resp`, build the record this decorator's configuration calls
    /// for, and hand it to `sink`.
    pub fn log_line<R: Render, S: Sink>(&self, resp: &R, context: &'static str, sink: &mut S)
        ensures
            emitted_one(
                old(sink).emitted(),
                final(sink).emitted(),
                self.level,
                self.target,
                self.module,
                self.file,
                self.line,
                message_of(context, resp.render_spec()),
            ),
    {
        let rendered = resp.render();
        let record = build_record(
            self.level,
            self.target,
            self.module,
            self.file,
            self.line,
            context,
            rendered.as_str(),
        );
        sink.accept(record);
    }

    /// The record this decorator emits for `outcome`, if any: exactly the
    /// outcomes the not-ready policy selects produce one, and an error never
    /// does.
    pub fn response_record<I: Render, E>(
        &self,
        outcome: &Result<Async<I>, E>,
        context: &'static str,
    ) -> (r: Option<LogRecord>)
        ensures
            r is Some <==> response_logged(self.not_ready, *outcome),
            r matches Some(rec) ==> record_resolves(
                rec,
                self.level,
                self.target,
                self.module,
                self.file,
                self.line,
                message_of(context, response_rendering(*outcome)),
            ),
    {
        match outcome {
            Ok(Async::Ready(v)) => {
                let rendered = v.render();
                Some(build_record(
                    self.level,
                    self.target,
                    self.module,
                    self.file,
                    self.line,
                    context,
                    rendered.as_str(),
                ))
            },
            Ok(Async::NotReady) => {
                if self.not_ready {
                    Some(build_record(
                        self.level,
                        self.target,
                        self.module,
                        self.file,
                        self.line,
                        context,
                        "NotReady",
                    ))
                } else {
                    None
                }
            },
            Err(_) => None,
        }
    }

    /// Forward `outcome` unchanged; when the not-ready policy selects it,
    /// first log it. No record is ever emitted for an error.
    pub fn log_poll<I: Render, E, S: Sink>(
        &self,
        outcome: Result<Async<I>, E>,
        context: &'static str,
        sink: &mut S,
    ) -> (r: Result<Async<I>, E>)
        ensures
            r == outcome,
            response_logged(self.not_ready, outcome) ==> emitted_one(
                old(sink).emitted(),
                final(sink).emitted(),
                self.level,
                self.target,
                self.module,
                self.file,
                self.line,
                message_of(context, response_rendering(outcome)),
            ),
            !response_logged(self.not_ready, outcome) ==> final(sink).emitted() == old(
                sink,
            ).emitted(),
    {
        if let Some(record) = self.response_record(&outcome, context) {
            sink.accept(record);
        }
        outcome
    }
}

impl<T> Computation for LogResponses<T> where T: Computation, T::Item: Render {
    type Item = T::Item;

    type Error = T::Error;

    /// The step forwards an outcome the inner computation's own contract
    /// accounts for, keeps the configuration, and emits one record exactly
    /// when the not-ready policy selects that outcome.
    open spec fn poll_ens(
        pre: Self,
        post: Self,
        outcome: Result<Async<T::Item>, T::Error>,
        sink_pre: Seq<LogRecord>,
        sink_post: Seq<LogRecord>,
    ) -> bool {
        exists|sink_mid: Seq<LogRecord>|
            {
                &&& #[trigger] T::poll_ens(pre.inner, post.inner, outcome, sink_pre, sink_mid)
                &&& pre.same_config(post)
                &&& if response_logged(pre.not_ready, outcome) {
                    emitted_one(
                        sink_mid,
                        sink_post,
                        pre.level,
                        pre.target,
                        pre.module,
                        pre.file,
                        pre.line,
                        message_of("Computation::poll", response_rendering(outcome)),
                    )
                } else {
                    sink_post == sink_mid
                }
            }
    }

    fn poll<S: Sink>(&mut self, sink: &mut S) -> (outcome: Result<Async<T::Item>, T::Error>) {
        let inner_outcome = self.inner.poll(sink);
        let ghost sink_mid = sink.emitted();
        let outcome = self.log_poll(inner_outcome, "Computation::poll", sink);
        proof {
            assert(T::poll_ens(
                old(self).inner,
                self.inner,
                outcome,
                old(sink).emitted(),
                sink_mid,
            ));
        }
        outcome
    }
}

impl<T> Service for LogResponses<T> where T: Service {
    type Request = T::Request;

    type Response = T::Response;

    type Error = T::Error;

    type Future = LogResponses<T::Future>;

    /// The readiness check forwards an outcome the inner service's own
    /// contract accounts for, keeps the configuration, and emits one record
    /// exactly when the not-ready policy selects that outcome.
    open spec fn poll_ready_ens(
        pre: Self,
        post: Self,
        outcome: Result<Async<()>, T::Error>,
        sink_pre: Seq<LogRecord>,
        sink_post: Seq<LogRecord>,
    ) -> bool {
        exists|sink_mid: Seq<LogRecord>|
            {
                &&& #[trigger] T::poll_ready_ens(pre.inner, post.inner, outcome, sink_pre, sink_mid)
                &&& pre.same_config(post)
                &&& if response_logged(pre.not_ready, outcome) {
                    emitted_one(
                        sink_mid,
                        sink_post,
                        pre.level,
                        pre.target,
                        pre.module,
                        pre.file,
                        pre.line,
                        message_of("Service::poll_ready", response_rendering(outcome)),
                    )
                } else {
                    sink_post == sink_mid
                }
            }
    }

    /// The produced computation is the one the inner service produced for
    /// this request, wrapped in a child decorator carrying this decorator's
    /// configuration.
    open spec fn call_ens(
        pre: Self,
        post: Self,
        req: T::Request,
        produced: LogResponses<T::Future>,
    ) -> bool {
        &&& T::call_ens(pre.inner, post.inner, req, produced.inner)
        &&& pre.same_config(post)
        &&& pre.same_config(produced)
    }

    fn poll_ready<S: Sink>(&mut self, sink: &mut S) -> (outcome: Result<Async<()>, T::Error>) {
        let inner_outcome = self.inner.poll_ready(sink);
        let ghost sink_mid = sink.emitted();
        let outcome = self.log_poll(inner_outcome, "Service::poll_ready", sink);
        proof {
            assert(T::poll_ready_ens(
                old(self).inner,
                self.inner,
                outcome,
                old(sink).emitted(),
                sink_mid,
            ));
        }
        outcome
    }

    fn call(&mut self, req: T::Request) -> (produced: LogResponses<T::Future>) {
        let inner = self.inner.call(req);
        self.child(inner)
    }
}

impl<T> ServiceFactory for LogResponses<T> where T: ServiceFactory {
    type Request = T::Request;

    type Response = T::Response;

    type Error = T::Error;

    type Service = T::Service;

    type InitError = T::InitError;

    type Future = LogResponses<T::Future>;

    /// The produced construction computation is the inner factory's, wrapped
    /// in a child decorator carrying this decorator's configuration.
    open spec fn new_service_ens(pre: Self, produced: LogResponses<T::Future>) -> bool {
        &&& T::new_service_ens(pre.inner, produced.inner)
        &&& pre.same_config(produced)
    }

    fn new_service(&self) -> (produced: LogResponses<T::Future>) {
        self.child(self.inner.new_service())
    }
}

} // verus!
