//! Client-side construction and validation for the two request DSLs of a
//! datalog-style document database speaking a textual, s-expression-like
//! wire format: a read-query builder ([`types::query::Query`]) and a write
//! transaction builder ([`types::http::Actions`]).
//!
//! Both builders validate their input before any wire text is produced and
//! serialize to the fixed wire grammar; every rejection is a typed error
//! ([`types::error::CruxError`]). The transport that carries the emitted
//! payload is a separate, unverified concern of the caller.

pub mod http;
pub mod text;
pub mod types;
