//! A certificate with the key that belongs to it.

use openssl::error::ErrorStack;
use openssl::pkey::{PKey, Private};
use openssl::x509::X509;
use vstd::prelude::*;

use crate::engine::{parse_certificates, parse_private_key, MAX_TEXT};
use crate::error::{ConfigError, ErrorKind};

verus! {

/// A certificate and its private key, as they are attached to a context.
pub struct Certificate {
    pub certificate: X509,
    pub private_key: PKey<Private>,
}

impl Certificate {
    pub fn new(certificate: X509, private_key: PKey<Private>) -> (bundle: Certificate)
        ensures
            bundle.certificate == certificate,
            bundle.private_key == private_key,
    {
        Certificate { certificate, private_key }
    }

    /// The one certificate of a parsed chain. A chain that holds none, or more
    /// than one, is refused.
    pub fn single(chain: Vec<X509>) -> (r: Result<X509, ConfigError>)
        ensures
            match r {
                Ok(certificate) => chain@.len() == 1 && certificate == chain@[0],
                Err(e) => chain@.len() != 1 && e.kind == ErrorKind::CertificateCount,
            },
    {
        let mut chain = chain;
        if chain.len() != 1 {
            return Err(
                ConfigError::plain(
                    ErrorKind::CertificateCount,
                    "expected exactly one certificate",
                ),
            );
        }
        match chain.pop() {
            Some(certificate) => Ok(certificate),
            None => Err(
                ConfigError::plain(
                    ErrorKind::CertificateCount,
                    "expected exactly one certificate",
                ),
            ),
        }
    }

    /// The bundle that parsed material makes. It is refused where the engine
    /// could not read the certificates, where they are not exactly one, and
    /// where the engine could not read the key, in this order.
    pub fn from_parsed(
        chain: Result<Vec<X509>, ErrorStack>,
        private_key: Result<PKey<Private>, ErrorStack>,
    ) -> (r: Result<Certificate, ConfigError>)
        ensures
            r is Ok <==> chain is Ok && chain->Ok_0@.len() == 1 && private_key is Ok,
            r is Ok ==> r->Ok_0.certificate == chain->Ok_0@[0] && r->Ok_0.private_key
                == private_key->Ok_0,
            r is Err ==> r->Err_0.kind == (if chain is Ok && chain->Ok_0@.len() != 1 {
                ErrorKind::CertificateCount
            } else {
                ErrorKind::CertificateMismatch
            }),
    {
        let chain = match chain {
            Ok(chain) => chain,
            Err(cause) => {
                return Err(ConfigError::from_engine(ErrorKind::CertificateMismatch, &cause));
            },
        };
        let certificate = match Certificate::single(chain) {
            Ok(certificate) => certificate,
            Err(e) => {
                return Err(e);
            },
        };
        match private_key {
            Ok(private_key) => Ok(Certificate::new(certificate, private_key)),
            Err(cause) => Err(ConfigError::from_engine(ErrorKind::CertificateMismatch, &cause)),
        }
    }

    /// Reads a bundle from PEM text: exactly one certificate, and its key. A
    /// text longer than the engine reads is refused before the engine sees
    /// it. Whether the texts parse is the engine's to say; what is made of
    /// its answers is what `from_parsed` makes of them.
    pub fn from_pem(certificate_pem: &[u8], private_key_pem: &[u8]) -> (r: Result<
        Certificate,
        ConfigError,
    >)
        ensures
            certificate_pem@.len() > MAX_TEXT || private_key_pem@.len() > MAX_TEXT ==> r is Err
                && r->Err_0.kind == ErrorKind::CertificateMismatch,
            r is Err ==> r->Err_0.kind == ErrorKind::CertificateMismatch || r->Err_0.kind
                == ErrorKind::CertificateCount,
    {
        if certificate_pem.len() > MAX_TEXT || private_key_pem.len() > MAX_TEXT {
            return Err(
                ConfigError::plain(
                    ErrorKind::CertificateMismatch,
                    "text too long for the engine to read",
                ),
            );
        }
        let chain = parse_certificates(certificate_pem);
        let private_key = parse_private_key(private_key_pem);
        Certificate::from_parsed(chain, private_key)
    }
}

} // verus!
