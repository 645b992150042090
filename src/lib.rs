//! Request-scoped observability: a correlation identifier and a tracing span
//! for every request, stored in a per-request context and finalised with the
//! response status.

pub mod request_id;
pub mod span;
pub mod context;
pub mod handler;
pub mod logging;
