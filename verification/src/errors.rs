//! `LogErrors`: wraps a capability and logs every error it produces before
//! forwarding the error unchanged. Successful and not-ready outcomes pass
//! through untouched and unlogged.

use vstd::prelude::*;

use crate::capability::Computation;
use crate::capability::Service;
use crate::capability::ServiceFactory;
use crate::outcome::Async;
use crate::outcome::Level;
use crate::outcome::Render;
use crate::record::LogRecord;
use crate::record::Sink;
use crate::record::build_record;
use crate::record::emitted_one;
use crate::record::message_of;
use crate::record::record_resolves;

verus! {

/// Whether the error decorator emits a record for an outcome: exactly the
/// error outcomes.
pub open spec fn error_logged<I, E>(outcome: Result<Async<I>, E>) -> bool {
    outcome is Err
}

/// Logs error outcomes of the wrapped capability.
#[derive(Clone, Debug)]
pub struct LogErrors<T> {
    pub inner: T,
    pub level: Level,
    pub target: Option<&'static str>,
    pub module: Option<&'static str>,
    pub file: Option<&'static str>,
    pub line: Option<u32>,
}

impl<T> LogErrors<T> {
    /// `other` carries exactly this decorator's configuration.
    pub open spec fn same_config<U>(&self, other: LogErrors<U>) -> bool {
        &&& other.level == self.level
        &&& other.target == self.target
        &&& other.module == self.module
        &&& other.file == self.file
        &&& other.line == self.line
    }

    /// Wrap `inner`. The level defaults to `Level::Error`; no target, module
    /// path, file or line is configured, so records fall back to this
    /// crate's own identity until the fluent setters say otherwise.
    pub fn new(inner: T) -> (r: Self)
        ensures
            r.inner == inner,
            r.level == Level::Error,
            r.target is None,
            r.module is None,
            r.file is None,
            r.line is None,
    {
        LogErrors { inner, level: Level::Error, target: None, module: None, file: None, line: None }
    }

    /// Set the level of the produced records.
    pub fn at_level(self, level: Level) -> (r: Self)
        ensures
            r.level == level,
            r.inner == self.inner,
            r.target == self.target,
            r.module == self.module,
            r.file == self.file,
            r.line == self.line,
    {
        LogErrors { level, ..self }
    }

    /// Set the target of the produced records.
    pub fn with_target(self, target: &'static str) -> (r: Self)
        ensures
            r.target == Some(target),
            r.inner == self.inner,
            r.level == self.level,
            r.module == self.module,
            r.file == self.file,
            r.line == self.line,
    {
        LogErrors { target: Some(target), ..self }
    }

    /// Set the module path of the produced records.
    pub fn in_module(self, module: &'static str) -> (r: Self)
        ensures
            r.module == Some(module),
            r.inner == self.inner,
            r.level == self.level,
            r.target == self.target,
            r.file == self.file,
            r.line == self.line,
    {
        LogErrors { module: Some(module), ..self }
    }

    /// Set the file and line number of the produced records.
    pub fn at_location(self, file: &'static str, line: u32) -> (r: Self)
        ensures
            r.file == Some(file),
            r.line == Some(line),
            r.inner == self.inner,
            r.level == self.level,
            r.target == self.target,
            r.module == self.module,
    {
        LogErrors { file: Some(file), line: Some(line), ..self }
    }

    /// Derive a decorator around a different inner value that inherits every
    /// configuration field of this one, by value.
    pub fn child<U>(&self, inner: U) -> (r: LogErrors<U>)
        ensures
            r.inner == inner,
            self.same_config(r),
    {
        LogErrors {
            inner,
            level: self.level,
            target: self.target,
            module: self.module,
            file: self.file,
            line: self.line,
        }
    }

    /// Render `error`, build the record this decorator's configuration calls
    /// for, and hand it to `sink`.
    pub fn log_line<E: Render, S: Sink>(&self, error: &E, context: &'static str, sink: &mut S)
        ensures
            emitted_one(
                old(sink).emitted(),
                final(sink).emitted(),
                self.level,
                self.target,
                self.module,
                self.file,
                self.line,
                message_of(context, error.render_spec()),
            ),
    {
        let rendered = error.render();
        let record = build_record(
            self.level,
            self.target,
            self.module,
            self.file,
            self.line,
            context,
            rendered.as_str(),
        );
        sink.accept(record);
    }

    /// The record this decorator emits for `outcome`, if any: exactly the
    /// error outcomes produce one.
    pub fn error_record<I, E: Render>(
        &self,
        outcome: &Result<Async<I>, E>,
        context: &'static str,
    ) -> (r: Option<LogRecord>)
        ensures
            r is Some <==> error_logged(*outcome),
            (*outcome) matches Err(e) ==> (r matches Some(rec) && record_resolves(
                rec,
                self.level,
                self.target,
                self.module,
                self.file,
                self.line,
                message_of(context, e.render_spec()),
            )),
    {
        match outcome {
            Err(e) => {
                let rendered = e.render();
                Some(build_record(
                    self.level,
                    self.target,
                    self.module,
                    self.file,
                    self.line,
                    context,
                    rendered.as_str(),
                ))
            },
            Ok(_) => None,
        }
    }

    /// Forward `outcome` unchanged; when it is an error, first log it. No
    /// record is emitted for a success or a not-ready signal.
    pub fn log_result<I, E: Render, S: Sink>(
        &self,
        outcome: Result<Async<I>, E>,
        context: &'static str,
        sink: &mut S,
    ) -> (r: Result<Async<I>, E>)
        ensures
            r == outcome,
            error_logged(outcome) ==> emitted_one(
                old(sink).emitted(),
                final(sink).emitted(),
                self.level,
                self.target,
                self.module,
                self.file,
                self.line,
                message_of(context, outcome->Err_0.render_spec()),
            ),
            !error_logged(outcome) ==> final(sink).emitted() == old(sink).emitted(),
    {
        if let Some(record) = self.error_record(&outcome, context) {
            sink.accept(record);
        }
        outcome
    }
}

impl<T> Computation for LogErrors<T> where T: Computation, T::Error: Render {
    type Item = T::Item;

    type Error = T::Error;

    /// The step forwards an outcome the inner computation's own contract
    /// accounts for, keeps the configuration, and emits one record exactly
    /// when that outcome is an error.
    open spec fn poll_ens(
        pre: Self,
        post: Self,
        outcome: Result<Async<T::Item>, T::Error>,
        sink_pre: Seq<LogRecord>,
        sink_post: Seq<LogRecord>,
    ) -> bool {
        exists|sink_mid: Seq<LogRecord>|
            {
                &&& #[trigger] T::poll_ens(pre.inner, post.inner, outcome, sink_pre, sink_mid)
                &&& pre.same_config(post)
                &&& if error_logged(outcome) {
                    emitted_one(
                        sink_mid,
                        sink_post,
                        pre.level,
                        pre.target,
                        pre.module,
                        pre.file,
                        pre.line,
                        message_of("Computation::poll", outcome->Err_0.render_spec()),
                    )
                } else {
                    sink_post == sink_mid
                }
            }
    }

    fn poll<S: Sink>(&mut self, sink: &mut S) -> (outcome: Result<Async<T::Item>, T::Error>) {
        let inner_outcome = self.inner.poll(sink);
        let ghost sink_mid = sink.emitted();
        let outcome = self.log_result(inner_outcome, "Computation::poll", sink);
        proof {
            assert(T::poll_ens(
                old(self).inner,
                self.inner,
                outcome,
                old(sink).emitted(),
                sink_mid,
            ));
        }
        outcome
    }
}

impl<T> Service for LogErrors<T> where T: Service, T::Error: Render {
    type Request = T::Request;

    type Response = T::Response;

    type Error = T::Error;

    type Future = LogErrors<T::Future>;

    /// The readiness check forwards an outcome the inner service's own
    /// contract accounts for, keeps the configuration, and emits one record
    /// exactly when that outcome is an error.
    open spec fn poll_ready_ens(
        pre: Self,
        post: Self,
        outcome: Result<Async<()>, T::Error>,
        sink_pre: Seq<LogRecord>,
        sink_post: Seq<LogRecord>,
    ) -> bool {
        exists|sink_mid: Seq<LogRecord>|
            {
                &&& #[trigger] T::poll_ready_ens(pre.inner, post.inner, outcome, sink_pre, sink_mid)
                &&& pre.same_config(post)
                &&& if error_logged(outcome) {
                    emitted_one(
                        sink_mid,
                        sink_post,
                        pre.level,
                        pre.target,
                        pre.module,
                        pre.file,
                        pre.line,
                        message_of("Service::poll_ready", outcome->Err_0.render_spec()),
                    )
                } else {
                    sink_post == sink_mid
                }
            }
    }

    /// The produced computation is the one the inner service produced for
    /// this request, wrapped in a child decorator carrying this decorator's
    /// configuration.
    open spec fn call_ens(
        pre: Self,
        post: Self,
        req: T::Request,
        produced: LogErrors<T::Future>,
    ) -> bool {
        &&& T::call_ens(pre.inner, post.inner, req, produced.inner)
        &&& pre.same_config(post)
        &&& pre.same_config(produced)
    }

    fn poll_ready<S: Sink>(&mut self, sink: &mut S) -> (outcome: Result<Async<()>, T::Error>) {
        let inner_outcome = self.inner.poll_ready(sink);
        let ghost sink_mid = sink.emitted();
        let outcome = self.log_result(inner_outcome, "Service::poll_ready", sink);
        proof {
            assert(T::poll_ready_ens(
                old(self).inner,
                self.inner,
                outcome,
                old(sink).emitted(),
                sink_mid,
            ));
        }
        outcome
    }

    fn call(&mut self, req: T::Request) -> (produced: LogErrors<T::Future>) {
        let inner = self.inner.call(req);
        self.child(inner)
    }
}

impl<T> ServiceFactory for LogErrors<T> where T: ServiceFactory, T::InitError: Render {
    type Request = T::Request;

    type Response = T::Response;

    type Error = T::Error;

    type Service = T::Service;

    type InitError = T::InitError;

    type Future = LogErrors<T::Future>;

    /// The produced construction computation is the inner factory's, wrapped
    /// in a child decorator carrying this decorator's configuration.
    open spec fn new_service_ens(pre: Self, produced: LogErrors<T::Future>) -> bool {
        &&& T::new_service_ens(pre.inner, produced.inner)
        &&& pre.same_config(produced)
    }

    fn new_service(&self) -> (produced: LogErrors<T::Future>) {
        self.child(self.inner.new_service())
    }
}

} // verus!
