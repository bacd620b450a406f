//! Context selection and session caching for a TLS-terminating endpoint.
//!
//! The TLS engine itself is an outside primitive. This crate holds the policy
//! built on top of it: which settings a handshake context gets, which context
//! a handshake is answered with, and how negotiated sessions are kept.

pub mod builder;
pub mod certificate;
pub mod context;
pub mod engine;
pub mod error;
pub mod session;
