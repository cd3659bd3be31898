//! The types of `rustls` and of `std::io` that pass through the keeper
//! unopened.

use rustls::pki_types::{CertificateDer, PrivateKeyDer};
use rustls::Error as TlsFailure;
use rustls::ServerConfig;
use vstd::prelude::*;

verus! {

/// `rustls::ServerConfig`: a ready server configuration, here with a single
/// certificate chain and without client authentication.
#[verifier::external_type_specification]
#[verifier::external_body]
pub struct ExServerConfig(ServerConfig);

/// `rustls::pki_types::CertificateDer`: one certificate in DER.
#[verifier::external_type_specification]
#[verifier::external_body]
pub struct ExCertificateDer<'a>(CertificateDer<'a>);

/// `rustls::pki_types::PrivateKeyDer`: one private key in DER.
#[verifier::external_type_specification]
#[verifier::external_body]
pub struct ExPrivateKeyDer<'a>(PrivateKeyDer<'a>);

/// `rustls::Error`: why `rustls` refused something.
#[verifier::external_type_specification]
#[verifier::external_body]
pub struct ExTlsError(TlsFailure);

/// `std::io::Error`: why reading failed.
#[verifier::external_type_specification]
#[verifier::external_body]
pub struct ExIoError(std::io::Error);

} // verus!
