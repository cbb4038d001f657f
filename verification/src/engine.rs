//! The boundary to the casbin policy engine: the cached enforcer is opaque
//! here, its mutating `enforce` call is trusted, and everything decided from
//! its outcome is verified code that takes that outcome as a value.

use vstd::prelude::*;

use crate::query::PolicyQuery;
use crate::verdict::Verdict;
use crate::verdict::classify;

verus! {

/// casbin's cached enforcer: evaluates a string-tuple query against its
/// loaded model and policy, memoizing verdicts in an internal cache, which
/// is why evaluation mutates it and callers hold a writer lock.
#[verifier::external_type_specification]
#[verifier::external_body]
pub struct ExCachedEnforcer(casbin::CachedEnforcer);

/// casbin's error type; its kinds are opaque to this middleware and are
/// uniformly mapped to a 502 disposition.
#[verifier::external_type_specification]
#[verifier::external_body]
pub struct ExCasbinError(casbin::Error);

/// Relies on casbin's `CoreApi::enforce_mut` for `CachedEnforcer`: evaluates
/// one request tuple against the loaded model and policy, updating the
/// enforcer's verdict cache. Which verdict comes back depends on the
/// enforcer's state, so nothing is promised of the outcome; `consult`
/// handles every one. One point is guarded rather than relied on: casbin's
/// `DefaultEffector::new_stream` panics on any effect expression other
/// than the four it supports, and model loading stores the expression
/// unchecked, so a model whose stored effect expression is not one of
/// those four is answered with casbin's own unsupported-effect error
/// (`ModelError::E`) before the call; this wrapper therefore returns on
/// every input. A custom effector installed through the shared handle is
/// held to the same four expressions.
#[verifier::external_body]
fn enforce_args(e: &mut casbin::CachedEnforcer, args: Vec<String>) -> Result<bool, casbin::Error> {
    let effect = casbin::CoreApi::get_model(e).get_model().get("e").and_then(|s| s.get("e"));
    if let Some(ast) = effect {
        if !matches!(
            ast.value.as_str(),
            "some(where (p_eft == allow))"
                | "some(where (p_eft == allow)) && !some(where (p_eft == deny))"
                | "!some(where (p_eft == deny))"
                | "priority(p_eft) || deny"
        ) {
            let msg = format!("unsupported effect: `{}`", ast.value);
            return Err(casbin::error::ModelError::E(msg).into());
        }
    }
    casbin::CoreApi::enforce_mut(e, args)
}

/// Relies on casbin `Error`'s `Debug` rendering, used only for the
/// diagnostic line on the engine-error path; nothing is promised of the
/// text.
#[verifier::external_body]
fn describe_error(e: &casbin::Error) -> String {
    format!("{:?}", e)
}

/// Consults the enforcer once with the given query. The caller must hold
/// the enforcer's writer lock for the duration of this call (the borrow on
/// `e` comes out of that lock's guard). Whatever the engine answers is
/// classified by the verified `classify`: `Ok(true)` is allow, `Ok(false)`
/// is deny, and an error is a failure carrying its rendering; no verdict is
/// promised here because it depends on the loaded model and policy.
pub fn consult(e: &mut casbin::CachedEnforcer, q: &PolicyQuery) -> Verdict {
    let args = q.to_args();
    let raw = enforce_args(e, args);
    let outcome: Result<bool, String> = match raw {
        Ok(b) => Ok(b),
        Err(err) => Err(describe_error(&err)),
    };
    classify(outcome)
}

} // verus!
