//! Cookie-based OpenID Connect authentication for web services.
//!
//! The library decides, request by request, whether a caller is authenticated,
//! when an authentication challenge must be issued, and what the callback and
//! logout endpoints answer. The network calls to the identity provider are made
//! by the host application, which hands their results back as plain values.
pub mod response;
pub mod cookies;
pub mod error;
pub mod outcome;
pub mod middleware;
pub mod accessors;
pub mod handlers;
pub mod laws;
