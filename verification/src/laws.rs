//! The laws the decorators obey, stated on their own: which outcomes each
//! decorator logs, and how the target and module path of an emitted record
//! fall back when the configuration leaves them unset.

use vstd::prelude::*;

use crate::errors::error_logged;
use crate::outcome::Async;
use crate::record::SELF_MODULE;
use crate::record::resolved_module;
use crate::record::resolved_target;
use crate::responses::response_logged;

verus! {

/// The error decorator's policy: an outcome is logged exactly when it is an
/// error; a success or a not-ready signal never produces a record, whatever
/// the configured level.
pub proof fn lemma_error_policy<I, E>(outcome: Result<Async<I>, E>)
    ensures
        error_logged(outcome) <==> outcome is Err,
{
}

/// The response decorator's policy: a completed success is always logged, a
/// not-ready signal exactly when `log_not_ready` asks for it, and an error
/// never.
pub proof fn lemma_response_policy<I, E>(log_not_ready: bool, outcome: Result<Async<I>, E>)
    ensures
        outcome matches Ok(Async::Ready(v)) ==> response_logged(log_not_ready, outcome),
        outcome matches Ok(Async::NotReady) ==> response_logged(log_not_ready, outcome)
            == log_not_ready,
        outcome is Err ==> !response_logged(log_not_ready, outcome),
{
}

/// Attribution fallback: with no explicit target, a record's target is the
/// explicit module path; with neither set, both the target and the module
/// path fall back to the decorators' own identity.
pub proof fn lemma_attribution_fallback(module: &'static str)
    ensures
        resolved_target(None, Some(module)) == module@,
        resolved_module(None, Some(module)) == module@,
        resolved_target(None, None) == SELF_MODULE@,
        resolved_module(None, None) == SELF_MODULE@,
{
}

/// Attribution precedence: each of the two fields prefers its own explicit
/// value when both are set, and a target set alone also stands in for the
/// module path.
pub proof fn lemma_attribution_precedence(target: &'static str, module: &'static str)
    ensures
        resolved_target(Some(target), Some(module)) == target@,
        resolved_module(Some(target), Some(module)) == module@,
        resolved_target(Some(target), None) == target@,
        resolved_module(Some(target), None) == target@,
{
}

} // verus!
