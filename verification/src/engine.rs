//! The TLS engine as this crate sees it: its types, carried as opaque values,
//! and the calls made into it. Nothing in this file is proved; every contract
//! here is taken on trust from the engine's own description.

use vstd::prelude::*;

verus! {

/// A negotiated session, as the engine hands it out after a handshake.
#[verifier::external_type_specification]
#[verifier::external_body]
pub struct ExSslSession(openssl::ssl::SslSession);

/// The identifier that the engine embedded in a session when it was negotiated.
pub uninterp spec fn session_id_of(session: openssl::ssl::SslSession) -> Seq<u8>;

/// Calls `SslSessionRef::id` and copies the bytes: the result is the
/// identifier that the session carries.
#[verifier::external_body]
pub(crate) fn session_id(session: &openssl::ssl::SslSession) -> (id: Vec<u8>)
    ensures
        id@ == session_id_of(*session),
{
    session.id().to_vec()
}

/// The engine's report of why a call failed.
#[verifier::external_type_specification]
#[verifier::external_body]
pub struct ExErrorStack(openssl::error::ErrorStack);

/// Formats an `ErrorStack` with its `Display` impl. Nothing is claimed of the
/// text.
#[verifier::external_body]
pub(crate) fn describe(cause: &openssl::error::ErrorStack) -> String {
    format!("{}", cause)
}

/// A handshake in progress.
#[verifier::external_type_specification]
#[verifier::external_body]
pub struct ExSslRef(openssl::ssl::SslRef);

/// A finished handshake context: a handle that shares the frozen context
/// with every other handle to it.
#[verifier::external_type_specification]
#[verifier::external_body]
pub struct ExSslContext(openssl::ssl::SslContext);

/// A parsed certificate.
#[verifier::external_type_specification]
#[verifier::external_body]
pub struct ExX509(openssl::x509::X509);

/// A parsed key.
#[verifier::external_type_specification]
#[verifier::external_body]
#[verifier::reject_recursive_types(T)]
pub struct ExPKey<T>(openssl::pkey::PKey<T>);

/// The mark of a key that has its private part.
#[verifier::external_type_specification]
#[verifier::external_body]
pub struct ExPrivate(openssl::pkey::Private);

/// What the server-name callback answers when the handshake must not go on.
#[verifier::external_type_specification]
#[verifier::external_body]
pub struct ExSniError(openssl::ssl::SniError);

/// The context that a handshake in progress is answered with.
pub uninterp spec fn context_of(ssl: &openssl::ssl::SslRef) -> openssl::ssl::SslContext;

/// Calls `Clone::clone` on an `SslContext`, which raises the reference count
/// and hands out the same context: nothing is copied.
#[verifier::external_body]
pub(crate) fn share_context(context: &openssl::ssl::SslContext) -> (handle:
    openssl::ssl::SslContext)
    ensures
        handle == *context,
{
    context.clone()
}

/// Calls `SslRef::set_ssl_context`. Where the engine reports success, the
/// handshake is answered with `context` from then on.
#[verifier::external_body]
pub(crate) fn install_context(
    ssl: &mut openssl::ssl::SslRef,
    context: &openssl::ssl::SslContext,
) -> (r: Result<(), openssl::error::ErrorStack>)
    ensures
        r is Ok ==> context_of(final(ssl)) == *context,
{
    ssl.set_ssl_context(context.as_ref())
}

/// The constant `SniError::ALERT_FATAL`.
#[verifier::external_body]
pub(crate) fn fatal_alert() -> openssl::ssl::SniError {
    openssl::ssl::SniError::ALERT_FATAL
}

/// A handshake context that is still being configured.
#[verifier::external_type_specification]
#[verifier::external_body]
pub struct ExSslContextBuilder(openssl::ssl::SslContextBuilder);

/// An acceptor that is still being configured.
#[verifier::external_type_specification]
#[verifier::external_body]
pub struct ExSslAcceptorBuilder(openssl::ssl::SslAcceptorBuilder);

/// A finished acceptor: it drives the handshakes of a listening transport.
#[verifier::external_type_specification]
#[verifier::external_body]
pub struct ExSslAcceptor(openssl::ssl::SslAcceptor);

/// Calls `SslContextBuilder::new` with `SslMethod::tls()`. The engine may
/// fail to allocate the context.
#[verifier::external_body]
pub(crate) fn new_engine_context() -> Result<
    openssl::ssl::SslContextBuilder,
    openssl::error::ErrorStack,
> {
    openssl::ssl::SslContextBuilder::new(openssl::ssl::SslMethod::tls())
}

/// Calls `SslAcceptor::mozilla_intermediate` with `SslMethod::tls()`. The
/// engine may fail to allocate the context or refuse part of the profile.
#[verifier::external_body]
pub(crate) fn new_engine_acceptor() -> Result<
    openssl::ssl::SslAcceptorBuilder,
    openssl::error::ErrorStack,
> {
    openssl::ssl::SslAcceptor::mozilla_intermediate(openssl::ssl::SslMethod::tls())
}

/// The context builder that an acceptor builder is made of.
pub uninterp spec fn context_builder_of(
    acceptor: openssl::ssl::SslAcceptorBuilder,
) -> openssl::ssl::SslContextBuilder;

/// Dereferences an `SslAcceptorBuilder`, which is a context builder under
/// another name: the reference leads to that context builder, and what is
/// done through it is done to the acceptor builder.
#[verifier::external_body]
pub(crate) fn acceptor_context(acceptor: &mut openssl::ssl::SslAcceptorBuilder) -> (engine:
    &mut openssl::ssl::SslContextBuilder)
    ensures
        *engine == context_builder_of(*old(acceptor)),
        context_builder_of(*final(acceptor)) == *final(engine),
{
    &mut *acceptor
}

/// A context builder once its session-cache mode was set to the mode whose
/// bits are `bits`.
pub uninterp spec fn with_cache_mode(
    builder: openssl::ssl::SslContextBuilder,
    bits: i64,
) -> openssl::ssl::SslContextBuilder;

/// A context builder once the options whose bits are `bits` were cleared.
pub uninterp spec fn with_options_cleared(
    builder: openssl::ssl::SslContextBuilder,
    bits: u64,
) -> openssl::ssl::SslContextBuilder;

/// A context builder once its new-session callback was set to file every
/// session in `store`.
pub uninterp spec fn with_new_session_store(
    builder: openssl::ssl::SslContextBuilder,
    store: crate::session::SessionStore,
) -> openssl::ssl::SslContextBuilder;

/// A context builder once its server-name callback was set to answer from
/// `store`.
pub uninterp spec fn with_server_name_store(
    builder: openssl::ssl::SslContextBuilder,
    store: crate::context::ContextStore,
) -> openssl::ssl::SslContextBuilder;

/// Whether the engine takes `certificate` as the leaf certificate of
/// `builder`.
pub uninterp spec fn certificate_taken(
    builder: openssl::ssl::SslContextBuilder,
    certificate: openssl::x509::X509,
) -> bool;

/// A context builder once it was asked to take `certificate` as its leaf
/// certificate, whether it did or not.
pub uninterp spec fn with_certificate(
    builder: openssl::ssl::SslContextBuilder,
    certificate: openssl::x509::X509,
) -> openssl::ssl::SslContextBuilder;

/// Whether the engine takes `key` as the private key of `builder`.
pub uninterp spec fn key_taken(
    builder: openssl::ssl::SslContextBuilder,
    key: openssl::pkey::PKey<openssl::pkey::Private>,
) -> bool;

/// A context builder once it was asked to take `key` as its private key,
/// whether it did or not.
pub uninterp spec fn with_private_key(
    builder: openssl::ssl::SslContextBuilder,
    key: openssl::pkey::PKey<openssl::pkey::Private>,
) -> openssl::ssl::SslContextBuilder;

/// Calls `SslContextBuilder::set_session_cache_mode` with the mode whose bits
/// are `bits`: the builder afterwards is the one before with that mode set.
#[verifier::external_body]
pub(crate) fn set_session_cache_mode(builder: &mut openssl::ssl::SslContextBuilder, bits: i64)
    ensures
        *final(builder) == with_cache_mode(*old(builder), bits),
{
    builder.set_session_cache_mode(openssl::ssl::SslSessionCacheMode::from_bits_retain(bits));
}

/// Calls `SslContextBuilder::clear_options` with the options whose bits are
/// `bits`: the builder afterwards is the one before with those cleared.
#[verifier::external_body]
pub(crate) fn clear_options(builder: &mut openssl::ssl::SslContextBuilder, bits: u64)
    ensures
        *final(builder) == with_options_cleared(*old(builder), bits),
{
    builder.clear_options(openssl::ssl::SslOptions::from_bits_retain(bits));
}

/// Calls `SslContextBuilder::set_new_session_callback`: from then on the
/// engine hands every newly negotiated session to `store`, of which the
/// callback keeps a handle of its own.
#[verifier::external_body]
pub(crate) fn set_new_session_callback(
    builder: &mut openssl::ssl::SslContextBuilder,
    store: &std::sync::Arc<crate::session::SessionStore>,
)
    ensures
        *final(builder) == with_new_session_store(*old(builder), **store),
{
    let store = std::sync::Arc::clone(store);
    builder.set_new_session_callback(move |ssl, session| store.insert(ssl, session));
}

/// Calls `SslContextBuilder::set_servername_callback`: from then on the
/// engine asks `store`, during each handshake, which context to go on with.
#[verifier::external_body]
pub(crate) fn set_servername_callback(
    builder: &mut openssl::ssl::SslContextBuilder,
    store: std::sync::Arc<crate::context::ContextStore>,
)
    ensures
        *final(builder) == with_server_name_store(*old(builder), *store),
{
    builder.set_servername_callback(move |ssl, _alert| store.answer_server_name(ssl));
}

/// Calls `SslContextBuilder::set_certificate`, which the engine may refuse:
/// the result is `Ok` exactly where it took the certificate.
#[verifier::external_body]
pub(crate) fn set_certificate(
    builder: &mut openssl::ssl::SslContextBuilder,
    certificate: &openssl::x509::X509,
) -> (r: Result<(), openssl::error::ErrorStack>)
    ensures
        r is Ok <==> certificate_taken(*old(builder), *certificate),
        *final(builder) == with_certificate(*old(builder), *certificate),
{
    builder.set_certificate(certificate.as_ref())
}

/// Calls `SslContextBuilder::set_private_key`, which the engine may refuse:
/// the result is `Ok` exactly where it took the key.
#[verifier::external_body]
pub(crate) fn set_private_key(
    builder: &mut openssl::ssl::SslContextBuilder,
    key: &openssl::pkey::PKey<openssl::pkey::Private>,
) -> (r: Result<(), openssl::error::ErrorStack>)
    ensures
        r is Ok <==> key_taken(*old(builder), *key),
        *final(builder) == with_private_key(*old(builder), *key),
{
    builder.set_private_key(key.as_ref())
}

/// The context that a context builder has been configuring.
pub uninterp spec fn built_context(
    builder: openssl::ssl::SslContextBuilder,
) -> openssl::ssl::SslContext;

/// The acceptor that an acceptor builder has been configuring.
pub uninterp spec fn built_acceptor(
    builder: openssl::ssl::SslAcceptorBuilder,
) -> openssl::ssl::SslAcceptor;

/// Calls `SslContextBuilder::build`, which hands out the context that the
/// builder holds.
#[verifier::external_body]
pub(crate) fn build_context(builder: openssl::ssl::SslContextBuilder) -> (context:
    openssl::ssl::SslContext)
    ensures
        context == built_context(builder),
{
    builder.build()
}

/// Calls `SslAcceptorBuilder::build`, which hands out the acceptor around
/// the context that the builder holds.
#[verifier::external_body]
pub(crate) fn build_acceptor(builder: openssl::ssl::SslAcceptorBuilder) -> (acceptor:
    openssl::ssl::SslAcceptor)
    ensures
        acceptor == built_acceptor(builder),
{
    builder.build()
}

/// The longest text that the engine reads from memory: it panics on a longer
/// one.
pub const MAX_TEXT: usize = 0x7fff_ffff;

/// Calls `X509::stack_from_pem`: the certificates of a PEM text, in the order
/// in which they stand there.
#[verifier::external_body]
pub(crate) fn parse_certificates(pem: &[u8]) -> Result<
    Vec<openssl::x509::X509>,
    openssl::error::ErrorStack,
>
    requires
        pem@.len() <= MAX_TEXT,
{
    openssl::x509::X509::stack_from_pem(pem)
}

/// Calls `PKey::private_key_from_pem`.
#[verifier::external_body]
pub(crate) fn parse_private_key(pem: &[u8]) -> Result<
    openssl::pkey::PKey<openssl::pkey::Private>,
    openssl::error::ErrorStack,
>
    requires
        pem@.len() <= MAX_TEXT,
{
    openssl::pkey::PKey::private_key_from_pem(pem)
}

/// std's readers-writer lock.
#[verifier::external_type_specification]
#[verifier::external_body]
#[verifier::reject_recursive_types(T)]
pub struct ExRwLock<T: ?Sized>(std::sync::RwLock<T>);

/// The exclusive hold on what a readers-writer lock guards.
#[verifier::external_type_specification]
#[verifier::external_body]
#[verifier::reject_recursive_types(T)]
pub struct ExRwLockWriteGuard<'a, T: ?Sized + 'a>(std::sync::RwLockWriteGuard<'a, T>);

/// The sessions that a lock guarded when it was made, by their identifiers.
pub uninterp spec fn made_with(lock: std::sync::RwLock<crate::session::SessionTable>) -> Map<
    Seq<u8>,
    openssl::ssl::SslSession,
>;

/// Calls `RwLock::new`: the new lock guards `table`.
#[verifier::external_body]
pub(crate) fn guard_table(table: crate::session::SessionTable) -> (lock: std::sync::RwLock<
    crate::session::SessionTable,
>)
    ensures
        made_with(lock) == table@,
{
    std::sync::RwLock::new(table)
}

/// Calls `RwLock::write`, which waits for exclusive access. `None` stands for
/// a lock that a panicking holder left poisoned. std lets the call panic
/// where the calling thread holds the lock already: the session store gives
/// up the guard before each of its methods returns, and calls nothing of its
/// own while it holds it.
#[verifier::external_body]
pub(crate) fn lock_for_write<'a>(
    lock: &'a std::sync::RwLock<crate::session::SessionTable>,
) -> Option<std::sync::RwLockWriteGuard<'a, crate::session::SessionTable>> {
    lock.write().ok()
}

/// Dereferences the guard to the table that the lock guards.
#[verifier::external_body]
pub(crate) fn guarded<'a, 'b>(
    guard: &'a mut std::sync::RwLockWriteGuard<'b, crate::session::SessionTable>,
) -> &'a mut crate::session::SessionTable {
    &mut **guard
}

} // verus!
