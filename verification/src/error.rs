//! What can go wrong while a context is configured or substituted.

use openssl::error::ErrorStack;
use vstd::prelude::*;

use crate::engine::describe;

verus! {

/// The kinds of failure.
#[derive(Clone, Copy, Debug, PartialEq, Eq, Structural)]
pub enum ErrorKind {
    /// The engine could not allocate or set up a context.
    EngineInit,
    /// The engine rejected a certificate or key: the key does not belong to
    /// the certificate, or the material is malformed.
    CertificateMismatch,
    /// A bundle must hold exactly one certificate, and this one does not.
    CertificateCount,
    /// The context for a handshake in progress could not be replaced.
    ContextSubstitution,
}

/// A failure: its kind, and the engine's own words about it.
#[derive(Debug)]
pub struct ConfigError {
    pub kind: ErrorKind,
    pub detail: String,
}

impl ConfigError {
    /// The failure of the given kind that the engine reported as `cause`.
    pub fn from_engine(kind: ErrorKind, cause: &ErrorStack) -> (e: ConfigError)
        ensures
            e.kind == kind,
    {
        ConfigError { kind, detail: describe(cause) }
    }

    /// A failure of the given kind that the engine had no part in.
    pub fn plain(kind: ErrorKind, detail: &str) -> (e: ConfigError)
        ensures
            e.kind == kind,
            e.detail@ == detail@,
    {
        ConfigError { kind, detail: detail.to_string() }
    }
}

} // verus!
