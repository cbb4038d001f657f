//! Request-authorization middleware core: per-request interception that
//! screens caller identity, shapes a policy query, consults a shared cached
//! policy enforcer under a writer lock, and maps the verdict onto HTTP
//! status outcomes, releasing the lock before any downstream dispatch.

pub mod engine;
pub mod identity;
pub mod interception;
pub mod query;
pub mod verdict;
