//! Request-handling core of a media-portal server.
//!
//! The crate covers the pieces that make one inbound API request safe to
//! serve: resolving an optional authenticated identity from request headers
//! or a persisted session, answering role-based capability questions with
//! unforgeable proof tokens, bookkeeping for the session store, and the
//! state machine that scopes exactly one database transaction to one
//! request and finalizes it exactly once.

pub mod auth;
pub mod headers;
pub mod session;
pub mod strutil;
pub mod bytesutil;
pub mod codec;
pub mod maintenance;
pub mod pool;
pub mod routing;
pub mod scope;
