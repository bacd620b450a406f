//! The context that handshakes fall back to.

use openssl::ssl::{SniError, SslContext, SslRef};
use vstd::prelude::*;

use crate::engine::{context_of, fatal_alert, install_context, share_context};
use crate::error::{ConfigError, ErrorKind};

verus! {

/// What the server-name callback answers the engine, given how the
/// substitution went: the handshake goes on exactly where the context was
/// substituted, and ends with a fatal alert where it was not.
pub fn server_name_verdict(substituted: Result<(), ConfigError>) -> (r: Result<(), SniError>)
    ensures
        r is Ok <==> substituted is Ok,
{
    match substituted {
        Ok(()) => Ok(()),
        Err(_) => Err(fatal_alert()),
    }
}

/// Holds the one default context. It is set when the store is made and never
/// changed afterwards.
pub struct ContextStore {
    default_context: SslContext,
}

impl ContextStore {
    /// The context that the store holds.
    pub closed spec fn view(&self) -> SslContext {
        self.default_context
    }

    pub fn new(default_context: SslContext) -> (store: ContextStore)
        ensures
            store@ == default_context,
    {
        ContextStore { default_context }
    }

    /// A handle to the held context. The handle shares the context; no
    /// certificate or key is copied.
    pub fn get_context(&self) -> (context: SslContext)
        ensures
            context == self@,
    {
        share_context(&self.default_context)
    }

    /// Answers the handshake `ssl` with the held context, whatever server name
    /// the client asked for.
    pub fn substitute(&self, ssl: &mut SslRef) -> (r: Result<(), ConfigError>)
        ensures
            match r {
                Ok(()) => context_of(final(ssl)) == self@,
                Err(e) => e.kind == ErrorKind::ContextSubstitution,
            },
    {
        let context = self.get_context();
        match install_context(ssl, &context) {
            Ok(()) => Ok(()),
            Err(cause) => Err(ConfigError::from_engine(ErrorKind::ContextSubstitution, &cause)),
        }
    }

    /// The server-name callback: substitutes the held context, and ends the
    /// handshake with a fatal alert where that fails.
    pub fn answer_server_name(&self, ssl: &mut SslRef) -> (r: Result<(), SniError>)
        ensures
            r is Ok ==> context_of(final(ssl)) == self@,
    {
        server_name_verdict(self.substitute(ssl))
    }
}

} // verus!
