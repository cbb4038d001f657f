//! Enforcer verdicts and their mapping onto per-request dispositions:
//! allow forwards downstream, deny answers 403, an engine failure answers
//! 502; unauthenticated requests answer 401 before any verdict exists.

use vstd::prelude::*;

verus! {

pub const STATUS_UNAUTHORIZED: u16 = 401;

pub const STATUS_FORBIDDEN: u16 = 403;

pub const STATUS_BAD_GATEWAY: u16 = 502;

/// What the enforcer said of one query. `Failure` carries a rendering of
/// the engine's error for the diagnostic trace; engine errors are opaque
/// here and uniformly mapped to 502.
pub enum Verdict {
    Allow,
    Deny,
    Failure(String),
}

/// How one request ends: forwarded to the wrapped downstream service, or
/// answered locally with a synthesized empty-bodied response of the given
/// status.
pub enum Disposition {
    Forward,
    Respond(u16),
}

/// The verdict-to-disposition mapping: allow forwards, deny answers 403,
/// an engine failure answers 502.
pub open spec fn disposition_of(v: Verdict) -> Disposition {
    match v {
        Verdict::Allow => Disposition::Forward,
        Verdict::Deny => Disposition::Respond(STATUS_FORBIDDEN),
        Verdict::Failure(_) => Disposition::Respond(STATUS_BAD_GATEWAY),
    }
}

/// Classifies an enforce outcome: `Ok(true)` is allow, `Ok(false)` is
/// deny, and an error, already rendered to text, is a failure carrying
/// that text.
pub fn classify(outcome: Result<bool, String>) -> (v: Verdict)
    ensures
        v == (match outcome {
            Ok(true) => Verdict::Allow,
            Ok(false) => Verdict::Deny,
            Err(msg) => Verdict::Failure(msg),
        }),
{
    match outcome {
        Ok(true) => Verdict::Allow,
        Ok(false) => Verdict::Deny,
        Err(msg) => Verdict::Failure(msg),
    }
}

impl Verdict {
    /// Maps this verdict to the request's disposition.
    pub fn disposition(&self) -> (d: Disposition)
        ensures
            d == disposition_of(*self),
    {
        match self {
            Verdict::Allow => Disposition::Forward,
            Verdict::Deny => Disposition::Respond(STATUS_FORBIDDEN),
            Verdict::Failure(_) => Disposition::Respond(STATUS_BAD_GATEWAY),
        }
    }
}

/// Law (deny and error short-circuit): for a deny or failure verdict the
/// disposition is never to forward downstream; deny answers 403 and a
/// failure answers 502.
pub proof fn lemma_deny_or_failure_never_forwards(v: Verdict)
    requires
        v is Deny || v is Failure,
    ensures
        !(disposition_of(v) is Forward),
        v is Deny ==> disposition_of(v) == Disposition::Respond(STATUS_FORBIDDEN),
        v is Failure ==> disposition_of(v) == Disposition::Respond(STATUS_BAD_GATEWAY),
{
}

/// Law (allow forwards): the allow verdict, and only the allow verdict,
/// forwards the request downstream.
pub proof fn lemma_allow_forwards(v: Verdict)
    ensures
        disposition_of(v) is Forward <==> v is Allow,
{
}

} // verus!
