//! Caller identity as attached to a request by the upstream authentication
//! step: a principal name and an optional tenant domain.

use vstd::prelude::*;

verus! {

/// Identity record stored in a request's extension map by an upstream
/// authenticator. An empty `subject` means "no identity".
#[derive(Clone)]
pub struct CasbinVals {
    pub subject: String,
    pub domain: Option<String>,
}

impl CasbinVals {
    /// A record carries a usable identity exactly when its subject is
    /// non-empty.
    pub open spec fn authenticated(&self) -> bool {
        self.subject@.len() > 0
    }
}

/// A request is authenticated exactly when an identity record is present
/// and its subject is non-empty; absence means unauthenticated, not
/// anonymous.
pub open spec fn identity_accepted(vals: Option<CasbinVals>) -> bool {
    vals matches Some(v) && v.authenticated()
}

} // verus!
