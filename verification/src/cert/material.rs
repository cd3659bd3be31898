//! From a bundle in PEM to material that a TLS server can use.
//!
//! Reading PEM is the work of `rustls_pemfile`, and building the server
//! configuration that of `rustls`.  What is decided here is the order of the
//! steps and the failure that each of them stands for.

use crate::error::{Error, ErrorView};
use crate::text::{join2, starts_with};
use rustls::pki_types::{CertificateDer, PrivateKeyDer};
use rustls::ServerConfig;
use vstd::prelude::*;
use vstd::string::*;

verus! {

/// What `rustls_pemfile::certs` makes of a text when all that it yields is
/// collected: the number of certificate sections, or `None` where a section
/// is malformed.
pub uninterp spec fn pem_certificates(text: Seq<char>) -> Option<nat>;

/// What `rustls_pemfile::private_key` makes of a text: whether a section
/// with a private key is found, or `None` where a section before it is
/// malformed.
pub uninterp spec fn pem_private_key(text: Seq<char>) -> Option<bool>;

/// Calls `rustls_pemfile::certs` on the bytes of the text and collects what
/// it yields: the certificate sections in their order, other sections
/// skipped, or the first error.  The contract names the outcome and says no
/// more of it than how many certificates there are.
#[verifier::external_body]
fn read_certs(cert_pem: &str) -> (found: Result<Vec<CertificateDer<'static>>, std::io::Error>)
    ensures
        match found {
            Ok(certs) => pem_certificates(cert_pem@) == Some(certs@.len()),
            Err(_) => pem_certificates(cert_pem@) is None,
        },
{
    rustls_pemfile::certs(&mut cert_pem.as_bytes()).collect()
}

/// Calls `rustls_pemfile::private_key` on the bytes of the text, which
/// returns the first section that holds a private key of any kind, nothing
/// where there is none, or an error where a section is malformed.  The
/// contract names the outcome.
#[verifier::external_body]
fn read_private_key(key_pem: &str) -> (found: Result<Option<PrivateKeyDer<'static>>, std::io::Error>)
    ensures
        match found {
            Ok(key) => pem_private_key(key_pem@) == Some(key is Some),
            Err(_) => pem_private_key(key_pem@) is None,
        },
{
    rustls_pemfile::private_key(&mut key_pem.as_bytes())
}

/// Calls `rustls::ServerConfig::builder`, `with_no_client_auth` and
/// `with_single_cert`: a configuration with the process's default
/// cryptography, no client authentication, and the one chain and key.  It
/// fails where the key is not usable or does not belong to the first
/// certificate; which of the two the contract does not say, nor when.
#[verifier::external_body]
fn single_cert_config(certs: Vec<CertificateDer<'static>>, key: PrivateKeyDer<'static>) -> Result<
    ServerConfig,
    rustls::Error,
> {
    ServerConfig::builder().with_no_client_auth().with_single_cert(certs, key)
}

/// The words in which `std::io::Error` describes itself.
#[verifier::external_body]
fn describe_io(e: &std::io::Error) -> String {
    format!("{e}")
}

/// The words in which `rustls::Error` describes itself.
#[verifier::external_body]
fn describe_tls(e: &rustls::Error) -> String {
    format!("{e}")
}

/// How far a bundle gets on its way to server material.
pub enum Readiness {
    /// The certificate text is malformed.
    CertificatesUnreadable,
    /// The certificate text holds no certificate.
    NoCertificate,
    /// The key text is malformed.
    KeyUnreadable,
    /// The key text holds no private key.
    NoKey,
    /// Chain and key were read; it is for `rustls` to accept them.
    Complete,
}

/// How far the two texts get: the certificates are read first, and the key
/// only where there is at least one certificate.
pub open spec fn readiness(cert_pem: Seq<char>, key_pem: Seq<char>) -> Readiness {
    match pem_certificates(cert_pem) {
        None => Readiness::CertificatesUnreadable,
        Some(n) => if n == 0 {
            Readiness::NoCertificate
        } else {
            match pem_private_key(key_pem) {
                None => Readiness::KeyUnreadable,
                Some(found) => if found {
                    Readiness::Complete
                } else {
                    Readiness::NoKey
                },
            }
        },
    }
}

/// Whether `e` is a failure to read PEM whose text begins with `head`.
pub open spec fn parse_failure(e: ErrorView, head: Seq<char>) -> bool {
    e is CertParse && starts_with(e.detail(), head)
}

/// Whether `e` is the failure of `rustls` to accept chain and key.
pub open spec fn build_failure(e: ErrorView) -> bool {
    e is Tls && starts_with(e.detail(), "failed to build TLS server config: "@)
}

/// Turns what `rustls` made of chain and key into the keeper's own terms: the
/// configuration as it is, or a TLS failure that quotes the reason.
pub fn server_config_from(built: Result<ServerConfig, rustls::Error>) -> (made: Result<
    ServerConfig,
    Error,
>)
    ensures
        match built {
            Ok(config) => made == Ok::<ServerConfig, Error>(config),
            Err(_) => made is Err && build_failure(made->Err_0@),
        },
{
    match built {
        Ok(config) => Ok(config),
        Err(e) => {
            let why = describe_tls(&e);
            let text = join2("failed to build TLS server config: ", why.as_str());
            assert(text@.subrange(0, "failed to build TLS server config: "@.len() as int)
                == "failed to build TLS server config: "@);
            Err(Error::Tls(text))
        },
    }
}

/// Judges what reading the certificate text gave: the chain as it is, if it
/// holds at least one certificate, or the parse failure that tells why not.
pub fn require_certificates(found: Result<Vec<CertificateDer<'static>>, std::io::Error>) -> (chain:
    Result<Vec<CertificateDer<'static>>, Error>)
    ensures
        match found {
            Ok(certs) => if certs@.len() == 0 {
                chain is Err && chain->Err_0@ == ErrorView::CertParse(
                    "no certificates found in PEM"@,
                )
            } else {
                chain == Ok::<Vec<CertificateDer<'static>>, Error>(certs)
            },
            Err(_) => chain is Err && parse_failure(
                chain->Err_0@,
                "failed to parse certificate PEM: "@,
            ),
        },
{
    match found {
        Ok(certs) => {
            if certs.len() == 0 {
                Err(Error::CertParse(String::from_str("no certificates found in PEM")))
            } else {
                Ok(certs)
            }
        },
        Err(e) => {
            let why = describe_io(&e);
            let text = join2("failed to parse certificate PEM: ", why.as_str());
            assert(text@.subrange(0, "failed to parse certificate PEM: "@.len() as int)
                == "failed to parse certificate PEM: "@);
            Err(Error::CertParse(text))
        },
    }
}

/// Judges what reading the key text gave: the key, if there is one, or the
/// parse failure that tells why not.
pub fn require_private_key(found: Result<Option<PrivateKeyDer<'static>>, std::io::Error>) -> (key:
    Result<PrivateKeyDer<'static>, Error>)
    ensures
        match found {
            Ok(Some(k)) => key == Ok::<PrivateKeyDer<'static>, Error>(k),
            Ok(None) => key is Err && key->Err_0@ == ErrorView::CertParse(
                "no private key found in PEM"@,
            ),
            Err(_) => key is Err && parse_failure(
                key->Err_0@,
                "failed to parse private key PEM: "@,
            ),
        },
{
    match found {
        Ok(Some(k)) => Ok(k),
        Ok(None) => Err(Error::CertParse(String::from_str("no private key found in PEM"))),
        Err(e) => {
            let why = describe_io(&e);
            let text = join2("failed to parse private key PEM: ", why.as_str());
            assert(text@.subrange(0, "failed to parse private key PEM: "@.len() as int)
                == "failed to parse private key PEM: "@);
            Err(Error::CertParse(text))
        },
    }
}

/// Builds server material from a certificate chain and a private key in PEM.
///
/// The chain is read first and must hold at least one certificate; then the
/// key is read and must be there.  Each of these four failures is a parse
/// failure with its own text.  Chain and key then go to `rustls`, and the
/// outcome is its configuration or a TLS failure.
pub fn build_server_config(cert_pem: &str, key_pem: &str) -> (made: Result<ServerConfig, Error>)
    ensures
        match readiness(cert_pem@, key_pem@) {
            Readiness::CertificatesUnreadable => made is Err && parse_failure(
                made->Err_0@,
                "failed to parse certificate PEM: "@,
            ),
            Readiness::NoCertificate => made is Err && made->Err_0@ == ErrorView::CertParse(
                "no certificates found in PEM"@,
            ),
            Readiness::KeyUnreadable => made is Err && parse_failure(
                made->Err_0@,
                "failed to parse private key PEM: "@,
            ),
            Readiness::NoKey => made is Err && made->Err_0@ == ErrorView::CertParse(
                "no private key found in PEM"@,
            ),
            Readiness::Complete => made is Ok || build_failure(made->Err_0@),
        },
{
    let certs = match require_certificates(read_certs(cert_pem)) {
        Ok(certs) => certs,
        Err(e) => {
            return Err(e);
        },
    };
    let key = match require_private_key(read_private_key(key_pem)) {
        Ok(key) => key,
        Err(e) => {
            return Err(e);
        },
    };
    server_config_from(single_cert_config(certs, key))
}

} // verus!
