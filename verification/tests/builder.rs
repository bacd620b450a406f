use std::sync::Arc;

use openssl::asn1::Asn1Time;
use openssl::bn::BigNum;
use openssl::ec::{EcGroup, EcKey};
use openssl::hash::MessageDigest;
use openssl::nid::Nid;
use openssl::pkey::{PKey, Private};
use openssl::error::ErrorStack;
use openssl::ssl::{SniError, Ssl, SslContext, SslMethod, SslOptions, SslSessionCacheMode};
use openssl::x509::{X509NameBuilder, X509};
use tls_terminator::builder::{
    session_cache_policy, ContextBuilder, ContextSettings, Stage, OPTION_NO_TLSV1_3,
    SESSION_CACHE_NO_INTERNAL_LOOKUP, SESSION_CACHE_NO_INTERNAL_STORE, SESSION_CACHE_SERVER,
};
use tls_terminator::certificate::Certificate;
use tls_terminator::context::{server_name_verdict, ContextStore};
use tls_terminator::error::{ConfigError, ErrorKind};
use tls_terminator::session::SessionStore;

fn fresh_key() -> PKey<Private> {
    let group = EcGroup::from_curve_name(Nid::X9_62_PRIME256V1).unwrap();
    PKey::from_ec_key(EcKey::generate(&group).unwrap()).unwrap()
}

fn self_signed(key: &PKey<Private>, name: &str) -> X509 {
    let mut subject = X509NameBuilder::new().unwrap();
    subject.append_entry_by_text("CN", name).unwrap();
    let subject = subject.build();
    let mut builder = X509::builder().unwrap();
    builder.set_version(2).unwrap();
    builder.set_subject_name(&subject).unwrap();
    builder.set_issuer_name(&subject).unwrap();
    builder.set_pubkey(key).unwrap();
    builder.set_not_before(&Asn1Time::days_from_now(0).unwrap()).unwrap();
    builder.set_not_after(&Asn1Time::days_from_now(30).unwrap()).unwrap();
    let serial = BigNum::from_u32(1).unwrap().to_asn1_integer().unwrap();
    builder.set_serial_number(&serial).unwrap();
    builder.sign(key, MessageDigest::sha256()).unwrap();
    builder.build()
}

fn bundle(name: &str) -> Certificate {
    let key = fresh_key();
    let certificate = self_signed(&key, name);
    Certificate::new(certificate, key)
}

fn default_context(store: &Arc<SessionStore>, certificate: &Certificate) -> SslContext {
    let mut builder = ContextBuilder::new_context_builder(store).unwrap();
    builder.add_certificate(certificate).unwrap();
    builder.build()
}

#[test]
fn flag_values_are_the_engines() {
    assert_eq!(SESSION_CACHE_SERVER, SslSessionCacheMode::SERVER.bits() as i64);
    assert_eq!(
        SESSION_CACHE_NO_INTERNAL_LOOKUP,
        SslSessionCacheMode::NO_INTERNAL_LOOKUP.bits() as i64
    );
    assert_eq!(
        SESSION_CACHE_NO_INTERNAL_STORE,
        SslSessionCacheMode::NO_INTERNAL_STORE.bits() as i64
    );
    assert_eq!(OPTION_NO_TLSV1_3, SslOptions::NO_TLSV1_3.bits() as u64);
}

#[test]
fn cache_policy_is_server_without_internal_cache() {
    assert_eq!(session_cache_policy(), 0x302);
    assert_eq!(
        session_cache_policy(),
        (SslSessionCacheMode::SERVER | SslSessionCacheMode::NO_INTERNAL).bits() as i64
    );
}

#[test]
fn default_builder_starts_configured() {
    let store = Arc::new(SessionStore::new());
    let builder = ContextBuilder::new_context_builder(&store).unwrap();
    assert_eq!(
        builder.settings(),
        ContextSettings {
            stage: Stage::Configured,
            session_cache_mode: 0x302,
            cleared_options: 0x2000_0000,
            new_session_callback: true,
            server_name_callback: false,
        }
    );
}

#[test]
fn acceptor_builder_has_server_name_callback() {
    let sessions = Arc::new(SessionStore::new());
    let contexts = Arc::new(ContextStore::new(default_context(&sessions, &bundle("default"))));
    let builder = ContextBuilder::new_acceptor_builder(contexts, &sessions).unwrap();
    assert_eq!(
        builder.settings(),
        ContextSettings {
            stage: Stage::Configured,
            session_cache_mode: 0x302,
            cleared_options: 0x2000_0000,
            new_session_callback: true,
            server_name_callback: true,
        }
    );
}

#[test]
fn add_certificate_attaches_matching_pair() {
    let store = Arc::new(SessionStore::new());
    let pair = bundle("matching");
    let mut builder = ContextBuilder::new_context_builder(&store).unwrap();
    assert!(builder.add_certificate(&pair).is_ok());
    assert_eq!(builder.settings().stage, Stage::CertificateAttached);
    assert_eq!(builder.settings().session_cache_mode, 0x302);
    let context = builder.build();
    assert_eq!(
        context.certificate().unwrap().to_der().unwrap(),
        pair.certificate.to_der().unwrap()
    );
    assert!(context.private_key().unwrap().public_eq(&pair.private_key));
}

#[test]
fn add_certificate_refuses_foreign_key() {
    let store = Arc::new(SessionStore::new());
    let certificate = self_signed(&fresh_key(), "owner");
    let mismatched = Certificate::new(certificate, fresh_key());
    let mut builder = ContextBuilder::new_context_builder(&store).unwrap();
    let refused: Result<(), ConfigError> = builder.add_certificate(&mismatched);
    let e = refused.expect_err("a key of another certificate");
    assert_eq!(e.kind, ErrorKind::CertificateMismatch);
    assert!(!e.detail.is_empty());
    assert_eq!(builder.settings().stage, Stage::Configured);
}

#[test]
fn acceptor_refuses_foreign_key_too() {
    let sessions = Arc::new(SessionStore::new());
    let contexts = Arc::new(ContextStore::new(default_context(&sessions, &bundle("default"))));
    let mismatched = Certificate::new(self_signed(&fresh_key(), "owner"), fresh_key());
    let mut builder = ContextBuilder::new_acceptor_builder(contexts, &sessions).unwrap();
    let e = builder.add_certificate(&mismatched).expect_err("a key of another certificate");
    assert_eq!(e.kind, ErrorKind::CertificateMismatch);
    assert_eq!(builder.settings().stage, Stage::Configured);
    assert!(builder.settings().server_name_callback);
}

#[test]
fn refused_bundle_leaves_the_stage_where_it_was() {
    let store = Arc::new(SessionStore::new());
    let mut builder = ContextBuilder::new_context_builder(&store).unwrap();
    let mismatched = Certificate::new(self_signed(&fresh_key(), "owner"), fresh_key());
    assert!(builder.add_certificate(&mismatched).is_err());
    assert_eq!(builder.settings().stage, Stage::Configured);
    builder.add_certificate(&bundle("good")).unwrap();
    assert_eq!(builder.settings().stage, Stage::CertificateAttached);
    let e = builder.add_certificate(&mismatched).expect_err("a key of another certificate");
    assert_eq!(e.kind, ErrorKind::CertificateMismatch);
    assert_eq!(builder.settings().stage, Stage::CertificateAttached);
    builder.add_certificate(&bundle("again")).unwrap();
    assert_eq!(builder.settings().stage, Stage::CertificateAttached);
}

#[test]
fn second_bundle_is_checked_against_its_own_certificate() {
    let store = Arc::new(SessionStore::new());
    let first = bundle("first");
    let second = bundle("second");
    let mut builder = ContextBuilder::new_context_builder(&store).unwrap();
    builder.add_certificate(&first).unwrap();
    builder.add_certificate(&second).unwrap();
    let context = builder.build();
    assert_eq!(
        context.certificate().unwrap().to_der().unwrap(),
        second.certificate.to_der().unwrap()
    );
    assert!(context.private_key().unwrap().public_eq(&second.private_key));
}

#[test]
fn from_engine_configures_what_the_engine_made() {
    let store = Arc::new(SessionStore::new());
    let mut raw = openssl::ssl::SslContextBuilder::new(SslMethod::tls()).unwrap();
    raw.set_options(SslOptions::NO_TLSV1_3 | SslOptions::CIPHER_SERVER_PREFERENCE);
    let mut builder = ContextBuilder::from_engine(Ok(raw), &store).unwrap();
    assert_eq!(builder.settings().stage, Stage::Configured);
    assert_eq!(builder.settings().session_cache_mode, 0x302);
    assert!(builder.settings().new_session_callback);
    assert!(!builder.settings().server_name_callback);
    let pair = bundle("made");
    builder.add_certificate(&pair).unwrap();
    let context = builder.build();
    assert_eq!(
        context.certificate().unwrap().to_der().unwrap(),
        pair.certificate.to_der().unwrap()
    );
}

#[test]
fn from_engine_fails_where_the_engine_failed() {
    let store = Arc::new(SessionStore::new());
    let failed: Result<openssl::ssl::SslContextBuilder, ErrorStack> = Err(ErrorStack::get());
    let e = ContextBuilder::from_engine(failed, &store).err().expect("no context");
    assert_eq!(e.kind, ErrorKind::EngineInit);
    assert_eq!(store.len(), Some(0));
}

#[test]
fn acceptor_from_engine_fails_where_the_engine_failed() {
    let sessions = Arc::new(SessionStore::new());
    let contexts = Arc::new(ContextStore::new(default_context(&sessions, &bundle("default"))));
    let e = ContextBuilder::acceptor_from_engine(Err(ErrorStack::get()), contexts, &sessions)
        .err()
        .expect("no acceptor");
    assert_eq!(e.kind, ErrorKind::EngineInit);
}

#[test]
fn acceptor_from_engine_configures_what_the_engine_made() {
    let sessions = Arc::new(SessionStore::new());
    let contexts = Arc::new(ContextStore::new(default_context(&sessions, &bundle("default"))));
    let raw = openssl::ssl::SslAcceptor::mozilla_intermediate(SslMethod::tls()).unwrap();
    let builder = ContextBuilder::acceptor_from_engine(Ok(raw), contexts, &sessions).unwrap();
    assert_eq!(
        builder.settings(),
        ContextSettings {
            stage: Stage::Configured,
            session_cache_mode: 0x302,
            cleared_options: 0x2000_0000,
            new_session_callback: true,
            server_name_callback: true,
        }
    );
}

#[test]
fn build_without_certificate_gives_bare_context() {
    let store = Arc::new(SessionStore::new());
    let builder = ContextBuilder::new_context_builder(&store).unwrap();
    assert_eq!(builder.settings().stage, Stage::Configured);
    let context = builder.build();
    assert!(context.certificate().is_none());
    assert!(context.private_key().is_none());
}

#[test]
fn get_context_hands_out_the_same_context() {
    let sessions = Arc::new(SessionStore::new());
    let pair = bundle("shared");
    let store = ContextStore::new(default_context(&sessions, &pair));
    let expected = pair.certificate.to_der().unwrap();
    for _ in 0..10 {
        let handle = store.get_context();
        assert_eq!(handle.certificate().unwrap().to_der().unwrap(), expected);
        assert!(handle.private_key().unwrap().public_eq(&pair.private_key));
    }
}

#[test]
fn substitute_replaces_the_context_of_a_connection() {
    let sessions = Arc::new(SessionStore::new());
    let fallback = bundle("fallback");
    let store = ContextStore::new(default_context(&sessions, &fallback));
    let other = default_context(&sessions, &bundle("other"));
    let mut ssl = Ssl::new(&other).unwrap();
    assert_ne!(
        ssl.ssl_context().certificate().unwrap().to_der().unwrap(),
        fallback.certificate.to_der().unwrap()
    );
    assert!(store.substitute(&mut ssl).is_ok());
    assert_eq!(
        ssl.ssl_context().certificate().unwrap().to_der().unwrap(),
        fallback.certificate.to_der().unwrap()
    );
}

#[test]
fn answer_server_name_lets_the_handshake_go_on() {
    let sessions = Arc::new(SessionStore::new());
    let fallback = bundle("fallback");
    let store = ContextStore::new(default_context(&sessions, &fallback));
    let bare = SslContext::builder(SslMethod::tls()).unwrap().build();
    let mut ssl = Ssl::new(&bare).unwrap();
    assert!(store.answer_server_name(&mut ssl).is_ok());
    assert_eq!(
        ssl.ssl_context().certificate().unwrap().to_der().unwrap(),
        fallback.certificate.to_der().unwrap()
    );
}

#[test]
fn single_takes_a_chain_of_one() {
    let certificate = self_signed(&fresh_key(), "only");
    let der = certificate.to_der().unwrap();
    let got = Certificate::single(vec![certificate]).unwrap();
    assert_eq!(got.to_der().unwrap(), der);
}

#[test]
fn single_refuses_empty_chain() {
    let e = Certificate::single(Vec::new()).expect_err("an empty chain");
    assert_eq!(e.kind, ErrorKind::CertificateCount);
}

#[test]
fn single_refuses_longer_chain() {
    let a = self_signed(&fresh_key(), "a");
    let b = self_signed(&fresh_key(), "b");
    let e = Certificate::single(vec![a, b]).expect_err("two certificates");
    assert_eq!(e.kind, ErrorKind::CertificateCount);
}

#[test]
fn from_pem_reads_one_certificate_and_its_key() {
    let key = fresh_key();
    let certificate = self_signed(&key, "pem");
    let read = Certificate::from_pem(
        &certificate.to_pem().unwrap(),
        &key.private_key_to_pem_pkcs8().unwrap(),
    )
    .unwrap();
    assert_eq!(read.certificate.to_der().unwrap(), certificate.to_der().unwrap());
    assert!(read.private_key.public_eq(&key));
}

#[test]
fn from_pem_refuses_two_certificates() {
    let key = fresh_key();
    let mut chain = self_signed(&key, "first").to_pem().unwrap();
    chain.extend_from_slice(&self_signed(&fresh_key(), "second").to_pem().unwrap());
    let e = Certificate::from_pem(&chain, &key.private_key_to_pem_pkcs8().unwrap())
        .err()
        .expect("two certificates");
    assert_eq!(e.kind, ErrorKind::CertificateCount);
}

#[test]
fn from_pem_refuses_text_without_certificate() {
    let key = fresh_key();
    let e = Certificate::from_pem(b"", &key.private_key_to_pem_pkcs8().unwrap())
        .err()
        .expect("no certificate");
    assert_eq!(e.kind, ErrorKind::CertificateCount);
}

#[test]
fn from_pem_refuses_malformed_key() {
    let key = fresh_key();
    let certificate = self_signed(&key, "pem");
    let e = Certificate::from_pem(&certificate.to_pem().unwrap(), b"not a key")
        .err()
        .expect("a malformed key");
    assert_eq!(e.kind, ErrorKind::CertificateMismatch);
}

#[test]
fn from_pem_refuses_malformed_certificate() {
    let key = fresh_key();
    let broken = b"-----BEGIN CERTIFICATE-----\nAAAA\n-----END CERTIFICATE-----\n";
    let e = Certificate::from_pem(broken, &key.private_key_to_pem_pkcs8().unwrap())
        .err()
        .expect("a malformed certificate");
    assert_eq!(e.kind, ErrorKind::CertificateMismatch);
}

#[test]
fn plain_error_keeps_kind_and_detail() {
    let e = ConfigError::plain(ErrorKind::EngineInit, "no memory");
    assert_eq!(e.kind, ErrorKind::EngineInit);
    assert_eq!(e.detail, "no memory");
}

#[test]
fn record_attach_changes_only_the_stage() {
    let before = ContextSettings {
        stage: Stage::Configured,
        session_cache_mode: 0x302,
        cleared_options: 0x2000_0000,
        new_session_callback: true,
        server_name_callback: true,
    };
    let attached = before.record_attach(true);
    assert_eq!(attached, ContextSettings { stage: Stage::CertificateAttached, ..before });
    assert_eq!(attached.record_attach(true), attached);
    assert_eq!(attached.record_attach(false), attached);
    assert_eq!(before.record_attach(false), before);
}

#[test]
fn engine_errors_keep_their_kind() {
    let cause = openssl::error::ErrorStack::get();
    for kind in [
        ErrorKind::EngineInit,
        ErrorKind::CertificateMismatch,
        ErrorKind::CertificateCount,
        ErrorKind::ContextSubstitution,
    ] {
        let e = ConfigError::from_engine(kind, &cause);
        assert_eq!(e.kind, kind);
        assert_eq!(e.detail, format!("{}", cause));
    }
}

#[test]
fn verdict_lets_a_substituted_handshake_go_on() {
    assert_eq!(server_name_verdict(Ok(())), Ok(()));
}

#[test]
fn verdict_ends_a_handshake_that_kept_its_context() {
    let failed = ConfigError::plain(ErrorKind::ContextSubstitution, "refused");
    assert_eq!(server_name_verdict(Err(failed)), Err(SniError::ALERT_FATAL));
}

#[test]
fn from_parsed_takes_one_certificate_and_a_key() {
    let key = fresh_key();
    let certificate = self_signed(&key, "parsed");
    let der = certificate.to_der().unwrap();
    let made = Certificate::from_parsed(Ok(vec![certificate]), Ok(key.clone())).unwrap();
    assert_eq!(made.certificate.to_der().unwrap(), der);
    assert!(made.private_key.public_eq(&key));
}

#[test]
fn from_parsed_refuses_unread_certificates() {
    let e = Certificate::from_parsed(Err(ErrorStack::get()), Ok(fresh_key()))
        .err()
        .expect("certificates that the engine could not read");
    assert_eq!(e.kind, ErrorKind::CertificateMismatch);
}

#[test]
fn from_parsed_refuses_unread_key() {
    let certificate = self_signed(&fresh_key(), "parsed");
    let e = Certificate::from_parsed(Ok(vec![certificate]), Err(ErrorStack::get()))
        .err()
        .expect("a key that the engine could not read");
    assert_eq!(e.kind, ErrorKind::CertificateMismatch);
}

#[test]
fn from_parsed_counts_before_it_looks_at_the_key() {
    let none = Certificate::from_parsed(Ok(Vec::new()), Err(ErrorStack::get()))
        .err()
        .expect("no certificate");
    assert_eq!(none.kind, ErrorKind::CertificateCount);
    let a = self_signed(&fresh_key(), "a");
    let b = self_signed(&fresh_key(), "b");
    let two = Certificate::from_parsed(Ok(vec![a, b]), Ok(fresh_key()))
        .err()
        .expect("two certificates");
    assert_eq!(two.kind, ErrorKind::CertificateCount);
}

#[test]
fn from_parsed_reports_unread_certificates_first() {
    let e = Certificate::from_parsed(Err(ErrorStack::get()), Err(ErrorStack::get()))
        .err()
        .expect("nothing that the engine could read");
    assert_eq!(e.kind, ErrorKind::CertificateMismatch);
}

#[test]
fn from_pem_refuses_a_text_too_long_for_the_engine() {
    let key = fresh_key();
    let certificate = self_signed(&key, "pem");
    let long: Vec<u8> = vec![0u8; 0x8000_0000];
    let e = Certificate::from_pem(&long, &key.private_key_to_pem_pkcs8().unwrap())
        .err()
        .expect("a certificate text of two gibibytes");
    assert_eq!(e.kind, ErrorKind::CertificateMismatch);
    let e = Certificate::from_pem(&certificate.to_pem().unwrap(), &long)
        .err()
        .expect("a key text of two gibibytes");
    assert_eq!(e.kind, ErrorKind::CertificateMismatch);
}
