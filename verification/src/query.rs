//! The policy query: the ordered tuple of strings formed from a caller's
//! identity and the request's path and method, handed to the enforcer.

use vstd::prelude::*;

use crate::identity::CasbinVals;

verus! {

/// An ordered tuple of strings for the enforcer: `(subject, domain, path,
/// action)` when a domain is present, otherwise `(subject, path, action)`.
/// `path` and `action` are taken verbatim from the request: no decoding,
/// case folding or slash normalization.
#[derive(Clone)]
pub struct PolicyQuery {
    pub subject: String,
    pub domain: Option<String>,
    pub path: String,
    pub action: String,
}

/// The query formed for one request: the caller's subject and domain as
/// attached upstream, and the request's path and method name verbatim.
pub open spec fn query_of(vals: CasbinVals, path: String, action: String) -> PolicyQuery {
    PolicyQuery { subject: vals.subject, domain: vals.domain, path: path, action: action }
}

impl PolicyQuery {
    /// The ordered tuple the enforcer receives, as a sequence of character
    /// sequences.
    pub open spec fn tuple(&self) -> Seq<Seq<char>> {
        match self.domain {
            Some(d) => seq![self.subject@, d@, self.path@, self.action@],
            None => seq![self.subject@, self.path@, self.action@],
        }
    }

    /// A query is well formed when its subject is non-empty: empty-subject
    /// requests are rejected before any query is built.
    pub open spec fn wf(&self) -> bool {
        self.subject@.len() > 0
    }

    /// Renders the query as the vector of strings the enforcer takes.
    pub fn to_args(&self) -> (r: Vec<String>)
        ensures
            r@.map_values(|s: String| s@) == self.tuple(),
    {
        let mut r: Vec<String> = Vec::new();
        r.push(self.subject.clone());
        if let Some(d) = &self.domain {
            r.push(d.clone());
        }
        r.push(self.path.clone());
        r.push(self.action.clone());
        proof {
            assert(r@.map_values(|s: String| s@) =~= self.tuple());
        }
        r
    }
}

/// Law (query shape): the enforcer receives a 4-tuple exactly when a domain
/// is present on the identity record, otherwise a 3-tuple; the first element
/// is always the subject, and the last two are always `(path, action)` in
/// that order.
pub proof fn lemma_query_shape(vals: CasbinVals, path: String, action: String)
    ensures
        ({
            let t = query_of(vals, path, action).tuple();
            &&& (t.len() == 4 <==> vals.domain is Some)
            &&& (t.len() == 3 <==> vals.domain is None)
            &&& t[0] == vals.subject@
            &&& t[t.len() - 2] == path@
            &&& t[t.len() - 1] == action@
        }),
{
}

} // verus!
