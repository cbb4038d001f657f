//! The per-request interception state machine: snapshot the path and
//! method, screen the caller's identity, form the policy query, consult the
//! enforcer under its writer lock, and settle on a disposition — with the
//! lock provably released before the request could be forwarded downstream.

use vstd::prelude::*;

use crate::identity::CasbinVals;
use crate::identity::identity_accepted;
use crate::query::PolicyQuery;
use crate::query::query_of;
use crate::verdict::Disposition;
use crate::verdict::STATUS_UNAUTHORIZED;
use crate::verdict::Verdict;
use crate::verdict::disposition_of;

verus! {

/// Where one request stands. Transitions are linear: `Received` to either
/// `Queried` or `Settled`, and `Queried` to `Settled`; `Settled` is
/// terminal (no transition accepts it).
pub enum Phase {
    /// Path and method are snapshotted; identity not yet examined.
    Received,
    /// Identity accepted and the policy query formed; the enforcer's
    /// verdict is pending.
    Queried(PolicyQuery),
    /// Decided: forward downstream, or answer locally with the given
    /// status.
    Settled(Disposition),
}

/// One request's interception record. The driver that owns the enforcer's
/// writer lock advances this machine and acts only on the settled
/// disposition, so every guarantee below is a guarantee on the request's
/// observable handling.
pub struct Interception {
    /// The request's URL path, snapshotted verbatim.
    pub path: String,
    /// The request's HTTP method name, snapshotted verbatim.
    pub action: String,
    pub phase: Phase,
    /// Whether this request currently holds the enforcer's writer lock.
    pub lock_held: bool,
    /// How often this request has been handed to the wrapped downstream
    /// service: at most once, and only after settling on forward.
    pub downstream_calls: u32,
}

/// What screening an identity record decides: an accepted identity yields
/// the pending query formed from it and the request's path and action; a
/// missing record or an empty subject settles on 401 at once, so the
/// enforcer is never consulted for such a request.
pub open spec fn resolution_of(vals: Option<CasbinVals>, path: String, action: String) -> Phase {
    match vals {
        Some(v) => if v.authenticated() {
            Phase::Queried(query_of(v, path, action))
        } else {
            Phase::Settled(Disposition::Respond(STATUS_UNAUTHORIZED))
        },
        None => Phase::Settled(Disposition::Respond(STATUS_UNAUTHORIZED)),
    }
}

impl Interception {
    /// Well-formedness, preserved by every transition: the writer lock is
    /// held only while a query is pending — never before identity is
    /// screened and never once the request is settled; a pending query has
    /// a non-empty subject and carries this request's own path and action;
    /// and downstream has been invoked at most once, only after settling
    /// on forward.
    pub open spec fn wf(&self) -> bool {
        &&& (self.lock_held ==> self.phase is Queried)
        &&& (self.phase matches Phase::Queried(q) ==> q.wf() && q.path == self.path
            && q.action == self.action)
        &&& self.downstream_calls <= 1
        &&& (self.downstream_calls == 1 ==> self.phase matches Phase::Settled(
            Disposition::Forward,
        ))
    }

    /// Begins interception of one request by snapshotting its path and
    /// method name as owned strings.
    pub fn begin(path: String, action: String) -> (s: Self)
        ensures
            s.wf(),
            s.path == path,
            s.action == action,
            s.phase is Received,
            !s.lock_held,
            s.downstream_calls == 0,
    {
        Interception {
            path,
            action,
            phase: Phase::Received,
            lock_held: false,
            downstream_calls: 0,
        }
    }

    /// Screens the identity record looked up in the request's extension
    /// map: settles on 401 when the record is missing or its subject is
    /// empty, and otherwise forms the policy query, exactly as
    /// `resolution_of` says. No lock is taken here.
    pub fn resolve_identity(&mut self, vals: &Option<CasbinVals>)
        requires
            old(self).wf(),
            old(self).phase is Received,
        ensures
            final(self).wf(),
            final(self).path == old(self).path,
            final(self).action == old(self).action,
            !final(self).lock_held,
            final(self).downstream_calls == old(self).downstream_calls,
            final(self).phase == resolution_of(*vals, old(self).path, old(self).action),
            identity_accepted(*vals) <==> final(self).phase is Queried,
    {
        match vals {
            None => {
                self.phase = Phase::Settled(Disposition::Respond(STATUS_UNAUTHORIZED));
            },
            Some(v) => {
                if v.subject.as_str().is_empty() {
                    self.phase = Phase::Settled(Disposition::Respond(STATUS_UNAUTHORIZED));
                } else {
                    let domain: Option<String> = match &v.domain {
                        Some(d) => Some(d.clone()),
                        None => None,
                    };
                    self.phase = Phase::Queried(
                        PolicyQuery {
                            subject: v.subject.clone(),
                            domain,
                            path: self.path.clone(),
                            action: self.action.clone(),
                        },
                    );
                }
            },
        }
    }

    /// Records that this request has acquired the enforcer's writer lock.
    /// Only a request with a pending query may take the lock, so a request
    /// that was settled at screening never touches the enforcer.
    pub fn lock_acquired(&mut self)
        requires
            old(self).wf(),
            old(self).phase is Queried,
            !old(self).lock_held,
        ensures
            final(self).wf(),
            final(self).lock_held,
            final(self).phase == old(self).phase,
            final(self).path == old(self).path,
            final(self).action == old(self).action,
            final(self).downstream_calls == old(self).downstream_calls,
    {
        self.lock_held = true;
    }

    /// Settles the request on the enforcer's verdict, releasing the writer
    /// lock in the same step: allow forwards downstream, deny answers 403,
    /// an engine failure answers 502 — and in every one of these the lock
    /// is no longer held.
    pub fn settle(&mut self, v: &Verdict)
        requires
            old(self).wf(),
            old(self).phase is Queried,
            old(self).lock_held,
        ensures
            final(self).wf(),
            !final(self).lock_held,
            final(self).phase == Phase::Settled(disposition_of(*v)),
            final(self).path == old(self).path,
            final(self).action == old(self).action,
            final(self).downstream_calls == old(self).downstream_calls,
    {
        self.lock_held = false;
        let d = v.disposition();
        self.phase = Phase::Settled(d);
    }

    /// Records handing the original request to the wrapped downstream
    /// service. Only a request settled on the forward disposition, with no
    /// prior downstream call, may do so — hence downstream is invoked at
    /// most once, never while the writer lock is held, and never for a
    /// request answered 401, 403 or 502.
    pub fn forward_downstream(&mut self)
        requires
            old(self).wf(),
            old(self).phase matches Phase::Settled(Disposition::Forward),
            old(self).downstream_calls == 0,
        ensures
            final(self).wf(),
            final(self).downstream_calls == 1,
            !final(self).lock_held,
            final(self).phase == old(self).phase,
            final(self).path == old(self).path,
            final(self).action == old(self).action,
    {
        self.downstream_calls = 1;
    }
}

/// Law (lock discipline): a well-formed, settled interception does not hold
/// the enforcer's writer lock. Since a request is forwarded downstream, or
/// answered with 403 or 502, only from the settled phase, the lock is
/// released before the downstream service is invoked and before either
/// short-circuit response is synthesized.
pub proof fn lemma_settled_releases_lock(s: Interception)
    requires
        s.wf(),
        s.phase is Settled,
    ensures
        !s.lock_held,
{
}

/// Law (downstream only on allow, at most once): a well-formed
/// interception has invoked the downstream service at most once, and only
/// if it settled on the forward disposition. So a request answered 401 at
/// screening, or denied (403) or failed (502) by the enforcer, has a
/// downstream invocation count of zero.
pub proof fn lemma_downstream_only_on_forward(s: Interception)
    requires
        s.wf(),
    ensures
        s.downstream_calls <= 1,
        s.downstream_calls == 1 ==> s.phase matches Phase::Settled(Disposition::Forward),
        !(s.phase matches Phase::Settled(Disposition::Forward)) ==> s.downstream_calls == 0,
{
}

/// Law (missing identity): a request with no identity record settles on a
/// 401 response at screening; no query is formed, so the enforcer is never
/// consulted and the request is never forwarded downstream.
pub proof fn lemma_missing_identity_answers_unauthorized(path: String, action: String)
    ensures
        resolution_of(None, path, action) == Phase::Settled(
            Disposition::Respond(STATUS_UNAUTHORIZED),
        ),
        !(resolution_of(None, path, action) is Queried),
{
}

/// Law (empty subject): a request whose identity record has an empty
/// subject settles on a 401 response at screening; no query is formed, so
/// the enforcer is never consulted and the request is never forwarded
/// downstream.
pub proof fn lemma_empty_subject_answers_unauthorized(
    vals: CasbinVals,
    path: String,
    action: String,
)
    requires
        vals.subject@.len() == 0,
    ensures
        resolution_of(Some(vals), path, action) == Phase::Settled(
            Disposition::Respond(STATUS_UNAUTHORIZED),
        ),
        !(resolution_of(Some(vals), path, action) is Queried),
{
}

/// Law (accepted identity queries the enforcer): a request with a non-empty
/// subject forms exactly the query built from its identity record and the
/// request's own path and action, and settles nothing before the verdict.
pub proof fn lemma_accepted_identity_queries(vals: CasbinVals, path: String, action: String)
    requires
        vals.authenticated(),
    ensures
        resolution_of(Some(vals), path, action) == Phase::Queried(query_of(vals, path, action)),
{
}

} // verus!
