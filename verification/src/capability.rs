//! The three capability shapes the decorators wrap: a computation that
//! eventually yields one outcome, a service that accepts requests, and a
//! factory that constructs new services.
//!
//! Each driving method carries a contract stated through a spec function
//! that the implementing type chooses (`poll_ens`, `poll_ready_ens`,
//! `call_ens`, `new_service_ens`). A plain capability can leave the default,
//! which promises nothing; the decorators define theirs to say that they
//! forward the inner capability's outcome unchanged, emit exactly the
//! records their policy calls for, and hand every child their own
//! configuration.

use vstd::prelude::*;

use crate::outcome::Async;
use crate::record::LogRecord;
use crate::record::Sink;

verus! {

/// A unit of asynchronous work that eventually yields exactly one success
/// value or one error. Driving it may emit log records through a sink.
pub trait Computation: Sized {
    type Item;

    type Error;

    /// What one driving step guarantees: how the outcome relates to the
    /// states before and after the step and to the sink's history before and
    /// after it.
    open spec fn poll_ens(
        pre: Self,
        post: Self,
        outcome: Result<Async<Self::Item>, Self::Error>,
        sink_pre: Seq<LogRecord>,
        sink_post: Seq<LogRecord>,
    ) -> bool {
        true
    }

    /// Drive the computation one step: a finished value, a transient
    /// not-ready signal, or an error.
    fn poll<S: Sink>(&mut self, sink: &mut S) -> (outcome: Result<
        Async<Self::Item>,
        Self::Error,
    >)
        ensures
            Self::poll_ens(
                *old(self),
                *final(self),
                outcome,
                old(sink).emitted(),
                final(sink).emitted(),
            ),
    ;
}

/// A value that accepts requests, may report "not ready" before accepting
/// one, and produces a computation per accepted request.
pub trait Service: Sized {
    type Request;

    type Response;

    type Error;

    /// The computation produced for each accepted request.
    type Future;

    /// What one readiness check guarantees, as `Computation::poll_ens`.
    open spec fn poll_ready_ens(
        pre: Self,
        post: Self,
        outcome: Result<Async<()>, Self::Error>,
        sink_pre: Seq<LogRecord>,
        sink_post: Seq<LogRecord>,
    ) -> bool {
        true
    }

    /// What accepting a request guarantees: how the produced computation
    /// relates to the request and to the states before and after.
    open spec fn call_ens(pre: Self, post: Self, req: Self::Request, produced: Self::Future) -> bool {
        true
    }

    /// Check whether the service can accept a request yet.
    fn poll_ready<S: Sink>(&mut self, sink: &mut S) -> (outcome: Result<Async<()>, Self::Error>)
        ensures
            Self::poll_ready_ens(
                *old(self),
                *final(self),
                outcome,
                old(sink).emitted(),
                final(sink).emitted(),
            ),
    ;

    /// Accept a request, producing the computation of its response.
    fn call(&mut self, req: Self::Request) -> (produced: Self::Future)
        ensures
            Self::call_ens(*old(self), *final(self), req, produced),
    ;
}

/// A value that produces new service instances, itself asynchronously.
pub trait ServiceFactory: Sized {
    type Request;

    type Response;

    type Error;

    /// The service a finished construction yields.
    type Service;

    /// The error a failed construction yields.
    type InitError;

    /// The computation that constructs one new service.
    type Future;

    /// What beginning a construction guarantees: how the produced
    /// computation relates to the factory.
    open spec fn new_service_ens(pre: Self, produced: Self::Future) -> bool {
        true
    }

    /// Begin constructing a new service instance.
    fn new_service(&self) -> (produced: Self::Future)
        ensures
            Self::new_service_ens(*self, produced),
    ;
}

} // verus!
