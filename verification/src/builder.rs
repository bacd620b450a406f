//! Configures handshake contexts: the default context that handshakes fall
//! back to, and the acceptor that drives them.

use openssl::error::ErrorStack;
use openssl::ssl::{SslAcceptor, SslAcceptorBuilder, SslContext, SslContextBuilder};
use std::sync::Arc;
use vstd::prelude::*;

use crate::certificate::Certificate;
use crate::context::ContextStore;
use crate::engine::{
    acceptor_context, build_acceptor, build_context, built_acceptor, built_context,
    certificate_taken, clear_options, context_builder_of, key_taken, new_engine_acceptor,
    new_engine_context, set_certificate, set_new_session_callback, set_private_key,
    set_servername_callback, set_session_cache_mode, with_cache_mode, with_certificate,
    with_new_session_store, with_options_cleared, with_private_key, with_server_name_store,
};
use crate::error::{ConfigError, ErrorKind};
use crate::session::SessionStore;

verus! {

/// The engine's flag for caching sessions on the server side.
pub const SESSION_CACHE_SERVER: i64 = 0x2;

/// The engine's flag that keeps its internal cache out of session lookups.
pub const SESSION_CACHE_NO_INTERNAL_LOOKUP: i64 = 0x100;

/// The engine's flag that keeps new sessions out of its internal cache.
pub const SESSION_CACHE_NO_INTERNAL_STORE: i64 = 0x200;

/// The engine's option that disables TLS 1.3.
pub const OPTION_NO_TLSV1_3: u64 = 0x2000_0000;

/// How far a builder has come. A builder never steps back.
#[derive(Clone, Copy, Debug, PartialEq, Eq, Structural)]
pub enum Stage {
    /// Session caching and callbacks are wired; the engine has taken no
    /// bundle so far.
    Configured,
    /// The engine has taken a certificate with its key at least once.
    CertificateAttached,
}

/// What a builder has asked of the engine so far.
#[derive(Clone, Copy, Debug, PartialEq, Eq, Structural)]
pub struct ContextSettings {
    pub stage: Stage,
    /// The session-cache mode, as the engine's flags.
    pub session_cache_mode: i64,
    /// The options cleared whatever the engine's default.
    pub cleared_options: u64,
    /// Whether new sessions are forwarded to the session store.
    pub new_session_callback: bool,
    /// Whether the server-name callback substitutes the stored context.
    pub server_name_callback: bool,
}

/// The session-cache mode of every context: sessions are cached for the
/// server side, and only in the session store, never inside the engine.
pub open spec fn cache_policy() -> i64 {
    SESSION_CACHE_SERVER | SESSION_CACHE_NO_INTERNAL_LOOKUP | SESSION_CACHE_NO_INTERNAL_STORE
}

/// The settings of a default context, before a certificate is attached.
pub open spec fn default_settings() -> ContextSettings {
    ContextSettings {
        stage: Stage::Configured,
        session_cache_mode: cache_policy(),
        cleared_options: OPTION_NO_TLSV1_3,
        new_session_callback: true,
        server_name_callback: false,
    }
}

/// The settings of an acceptor, before a certificate is attached.
pub open spec fn acceptor_settings() -> ContextSettings {
    ContextSettings { server_name_callback: true, ..default_settings() }
}

/// Computes the session-cache mode.
pub fn session_cache_policy() -> (bits: i64)
    ensures
        bits == cache_policy(),
        bits == 0x302,
{
    let bits: i64 = SESSION_CACHE_SERVER | SESSION_CACHE_NO_INTERNAL_LOOKUP
        | SESSION_CACHE_NO_INTERNAL_STORE;
    assert(0x2i64 | 0x100i64 | 0x200i64 == 0x302i64) by (bit_vector);
    bits
}

impl ContextSettings {
    /// The settings after an attempt to attach a bundle. Only the stage can
    /// change: it is attached where the engine took both the certificate and
    /// the key, and stays what it was where the engine refused either.
    pub open spec fn after_attach(self, accepted: bool) -> ContextSettings {
        ContextSettings {
            stage: if accepted {
                Stage::CertificateAttached
            } else {
                self.stage
            },
            ..self
        }
    }

    /// Records the outcome of an attempt to attach a bundle.
    pub fn record_attach(self, accepted: bool) -> (settings: ContextSettings)
        ensures
            settings == self.after_attach(accepted),
    {
        let stage = if accepted {
            Stage::CertificateAttached
        } else {
            self.stage
        };
        ContextSettings { stage, ..self }
    }

    /// Whether the settings are those that every context gets: sessions are
    /// cached on the server side and only outside the engine, every new
    /// session is forwarded, and TLS 1.3 is not left disabled.
    pub open spec fn follows_policy(self) -> bool {
        &&& self.session_cache_mode == cache_policy()
        &&& self.cleared_options == OPTION_NO_TLSV1_3
        &&& self.new_session_callback
    }
}

/// The session-cache mode sets the server flag and both flags that keep the
/// engine's internal cache out, and no other: in particular not the flag for
/// caching on the client side.
pub proof fn lemma_cache_policy()
    ensures
        cache_policy() == 0x302,
        cache_policy() & SESSION_CACHE_SERVER == SESSION_CACHE_SERVER,
        cache_policy() & SESSION_CACHE_NO_INTERNAL_LOOKUP == SESSION_CACHE_NO_INTERNAL_LOOKUP,
        cache_policy() & SESSION_CACHE_NO_INTERNAL_STORE == SESSION_CACHE_NO_INTERNAL_STORE,
        cache_policy() & !(SESSION_CACHE_SERVER | SESSION_CACHE_NO_INTERNAL_LOOKUP
            | SESSION_CACHE_NO_INTERNAL_STORE) == 0,
{
    assert(0x2i64 | 0x100i64 | 0x200i64 == 0x302i64) by (bit_vector);
    assert(0x302i64 & 0x2i64 == 0x2i64) by (bit_vector);
    assert(0x302i64 & 0x100i64 == 0x100i64) by (bit_vector);
    assert(0x302i64 & 0x200i64 == 0x200i64) by (bit_vector);
    assert(0x302i64 & !0x302i64 == 0i64) by (bit_vector);
}

/// Whatever certificates are attached or refused, the settings keep to the
/// policy they started with, and a builder that has a bundle attached stays
/// so.
pub proof fn lemma_attach_keeps_policy(settings: ContextSettings, accepted: bool)
    ensures
        settings.after_attach(accepted).follows_policy() == settings.follows_policy(),
        settings.after_attach(accepted).server_name_callback == settings.server_name_callback,
        settings.stage == Stage::CertificateAttached ==> settings.after_attach(accepted).stage
            == Stage::CertificateAttached,
        settings.after_attach(accepted).stage == Stage::CertificateAttached <==> accepted
            || settings.stage == Stage::CertificateAttached,
        default_settings().follows_policy(),
        acceptor_settings().follows_policy(),
{
}

/// The engine's builder `engine` once the configuration that every context
/// shares was applied to it, step by step: the session-cache mode is set to
/// the policy, new sessions are forwarded to `store`, and the option that
/// disables TLS 1.3 is cleared.
pub open spec fn configured(engine: SslContextBuilder, store: SessionStore) -> SslContextBuilder {
    with_options_cleared(
        with_new_session_store(with_cache_mode(engine, cache_policy()), store),
        OPTION_NO_TLSV1_3,
    )
}

/// Whether the engine takes `bundle` for `engine`: first the certificate,
/// then, with the certificate in place, the key.
pub open spec fn bundle_taken(engine: SslContextBuilder, bundle: Certificate) -> bool {
    certificate_taken(engine, bundle.certificate) && key_taken(
        with_certificate(engine, bundle.certificate),
        bundle.private_key,
    )
}

/// The engine's builder `engine` once it was asked to take `bundle`: the
/// certificate is handed over first, and the key only where the certificate
/// was taken.
pub open spec fn after_bundle(engine: SslContextBuilder, bundle: Certificate) -> SslContextBuilder {
    if certificate_taken(engine, bundle.certificate) {
        with_private_key(with_certificate(engine, bundle.certificate), bundle.private_key)
    } else {
        with_certificate(engine, bundle.certificate)
    }
}

/// What can be configured as a handshake context.
pub trait ContextBuilderLike {
    /// What the finished builder yields.
    type Context;

    /// The engine's context builder that this builder configures.
    spec fn engine(&self) -> SslContextBuilder;

    /// What this builder yields when it is finished as it stands.
    spec fn finished(self) -> Self::Context;

    /// The engine's context builder, for configuring: what is done to it is
    /// done to this builder.
    fn as_ssl_context_builder(&mut self) -> (engine: &mut SslContextBuilder)
        ensures
            *engine == old(self).engine(),
            final(self).engine() == *final(engine),
    ;

    /// Finishes the builder.
    fn build(self) -> (context: Self::Context)
        ensures
            context == self.finished(),
    ;
}

impl ContextBuilderLike for SslContextBuilder {
    type Context = SslContext;

    open spec fn engine(&self) -> SslContextBuilder {
        *self
    }

    open spec fn finished(self) -> SslContext {
        built_context(self)
    }

    fn as_ssl_context_builder(&mut self) -> (engine: &mut SslContextBuilder) {
        self
    }

    fn build(self) -> (context: SslContext) {
        build_context(self)
    }
}

impl ContextBuilderLike for SslAcceptorBuilder {
    type Context = SslAcceptor;

    open spec fn engine(&self) -> SslContextBuilder {
        context_builder_of(*self)
    }

    open spec fn finished(self) -> SslAcceptor {
        built_acceptor(self)
    }

    fn as_ssl_context_builder(&mut self) -> (engine: &mut SslContextBuilder) {
        acceptor_context(self)
    }

    fn build(self) -> (acceptor: SslAcceptor) {
        build_acceptor(self)
    }
}

/// A context under construction, with a record of what was asked of the
/// engine for it.
pub struct ContextBuilder<T: ContextBuilderLike> {
    inner: T,
    settings: ContextSettings,
}

/// What a context under construction is made of.
pub ghost struct ContextBuilderView<T> {
    /// The engine's builder as it stands.
    pub inner: T,
    /// The record of what was asked of the engine.
    pub settings: ContextSettings,
}

impl<T: ContextBuilderLike> ContextBuilder<T> {
    /// The engine's builder as it stands, and the record kept of it.
    pub closed spec fn view(&self) -> ContextBuilderView<T> {
        ContextBuilderView { inner: self.inner, settings: self.settings }
    }

    /// Applies the configuration that every context shares to the engine's
    /// builder `inner`, and to nothing else of it.
    pub fn new(inner: T, session_store: &Arc<SessionStore>) -> (builder: Self)
        ensures
            builder@.settings == default_settings(),
            builder@.inner.engine() == configured(inner.engine(), **session_store),
    {
        let mut inner = inner;
        let engine = inner.as_ssl_context_builder();
        let mode = session_cache_policy();
        set_session_cache_mode(engine, mode);
        set_new_session_callback(engine, session_store);
        clear_options(engine, OPTION_NO_TLSV1_3);
        ContextBuilder {
            inner,
            settings: ContextSettings {
                stage: Stage::Configured,
                session_cache_mode: mode,
                cleared_options: OPTION_NO_TLSV1_3,
                new_session_callback: true,
                server_name_callback: false,
            },
        }
    }

    /// The builder for what the engine made, configured as every context
    /// is. It fails exactly where the engine did.
    pub fn from_engine(made: Result<T, ErrorStack>, session_store: &Arc<SessionStore>) -> (r:
        Result<Self, ConfigError>)
        ensures
            r is Ok <==> made is Ok,
            r is Ok ==> r->Ok_0@.settings == default_settings() && r->Ok_0@.inner.engine()
                == configured(made->Ok_0.engine(), **session_store),
            r is Err ==> r->Err_0.kind == ErrorKind::EngineInit,
    {
        match made {
            Ok(inner) => Ok(Self::new(inner, session_store)),
            Err(cause) => Err(ConfigError::from_engine(ErrorKind::EngineInit, &cause)),
        }
    }

    /// What was asked of the engine so far.
    pub fn settings(&self) -> (settings: ContextSettings)
        ensures
            settings == self@.settings,
    {
        self.settings
    }

    /// Attaches a certificate and its key: the certificate is handed to the
    /// engine first, and the key only where the certificate was taken. The
    /// call succeeds exactly where the engine took both. The engine refuses a
    /// key that does not belong to the certificate, and material that it
    /// cannot read.
    pub fn add_certificate(&mut self, certificate: &Certificate) -> (r: Result<(), ConfigError>)
        ensures
            r is Ok <==> bundle_taken(old(self)@.inner.engine(), *certificate),
            final(self)@.inner.engine() == after_bundle(old(self)@.inner.engine(), *certificate),
            final(self)@.settings == old(self)@.settings.after_attach(r is Ok),
            r is Err ==> r->Err_0.kind == ErrorKind::CertificateMismatch,
    {
        let engine = self.inner.as_ssl_context_builder();
        let attached = match set_certificate(engine, &certificate.certificate) {
            Ok(()) => set_private_key(engine, &certificate.private_key),
            Err(cause) => Err(cause),
        };
        self.settings = self.settings.record_attach(attached.is_ok());
        match attached {
            Ok(()) => Ok(()),
            Err(cause) => Err(ConfigError::from_engine(ErrorKind::CertificateMismatch, &cause)),
        }
    }

    /// Ends the configuration and hands out what the engine's builder
    /// yields as it stands: nothing can be configured afterwards.
    pub fn build(self) -> (context: T::Context)
        ensures
            context == self@.inner.finished(),
    {
        self.inner.build()
    }
}

impl ContextBuilder<SslContextBuilder> {
    /// Starts a default context, wired to `session_store`. Whether a context
    /// can be had is the engine's to say; what is made of its answer is what
    /// `from_engine` makes of it.
    pub fn new_context_builder(session_store: &Arc<SessionStore>) -> (r: Result<Self, ConfigError>)
        ensures
            match r {
                Ok(builder) => builder@.settings == default_settings() && exists|
                    made: SslContextBuilder,
                | builder@.inner.engine() == #[trigger] configured(made, **session_store),
                Err(e) => e.kind == ErrorKind::EngineInit,
            },
    {
        let made = new_engine_context();
        let r = Self::from_engine(made, session_store);
        proof {
            if r is Ok {
                assert(r->Ok_0@.inner.engine() == configured(made->Ok_0, **session_store));
            }
        }
        r
    }
}

impl ContextBuilder<SslAcceptorBuilder> {
    /// The acceptor for what the engine made: its server-name callback
    /// answers from `context_store`, and it is configured as every context
    /// is. It fails exactly where the engine did.
    pub fn acceptor_from_engine(
        made: Result<SslAcceptorBuilder, ErrorStack>,
        context_store: Arc<ContextStore>,
        session_store: &Arc<SessionStore>,
    ) -> (r: Result<Self, ConfigError>)
        ensures
            r is Ok <==> made is Ok,
            r is Ok ==> r->Ok_0@.settings == acceptor_settings() && r->Ok_0@.inner.engine()
                == configured(
                with_server_name_store(context_builder_of(made->Ok_0), *context_store),
                **session_store,
            ),
            r is Err ==> r->Err_0.kind == ErrorKind::EngineInit,
    {
        match made {
            Ok(inner) => {
                let mut inner = inner;
                set_servername_callback(acceptor_context(&mut inner), context_store);
                let mut builder = Self::new(inner, session_store);
                builder.settings.server_name_callback = true;
                Ok(builder)
            },
            Err(cause) => Err(ConfigError::from_engine(ErrorKind::EngineInit, &cause)),
        }
    }

    /// Starts an acceptor, wired to `session_store`, whose handshakes are
    /// answered with the context of `context_store`. Whether an acceptor can
    /// be had is the engine's to say; what is made of its answer is what
    /// `acceptor_from_engine` makes of it.
    pub fn new_acceptor_builder(
        context_store: Arc<ContextStore>,
        session_store: &Arc<SessionStore>,
    ) -> (r: Result<Self, ConfigError>)
        ensures
            match r {
                Ok(builder) => builder@.settings == acceptor_settings() && exists|
                    made: SslAcceptorBuilder,
                | builder@.inner.engine() == #[trigger] configured(
                    with_server_name_store(context_builder_of(made), *context_store),
                    **session_store,
                ),
                Err(e) => e.kind == ErrorKind::EngineInit,
            },
    {
        let made = new_engine_acceptor();
        let ghost store = context_store;
        let r = Self::acceptor_from_engine(made, context_store, session_store);
        proof {
            if r is Ok {
                assert(r->Ok_0@.inner.engine() == configured(
                    with_server_name_store(context_builder_of(made->Ok_0), *store),
                    **session_store,
                ));
            }
        }
        r
    }
}

} // verus!
