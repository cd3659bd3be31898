//! Issuing a certificate.

use crate::config::Config;
use crate::error::{Error, ErrorView};
use crate::text::{join3, opt_text, trim, trimmed};
use crate::vault::auth::{headers_for, request_headers};
use crate::vault::client::VaultClient;
use crate::vault::http::{is_success, status_is_success, HttpReply, HttpRequest, HttpRequestView};
use crate::vault::json::{empty_object, no_members, put_text};
use vstd::prelude::*;
use vstd::string::*;

verus! {

/// What one successful issuance yields.  Nothing changes it afterwards.
#[derive(Debug, Clone)]
pub struct CertBundle {
    /// The leaf certificate, a line break, and the issuer's certificate, in PEM.
    pub certificate: String,
    /// The private key, in PEM.
    pub private_key: String,
    /// The issuer's certificate alone, in PEM.
    pub ca_certificate: String,
    /// For how many seconds the authority granted the identity.
    pub lease_duration_secs: u64,
}

/// What a [`CertBundle`] holds, as sequences of characters.
pub struct CertBundleView {
    pub certificate: Seq<char>,
    pub private_key: Seq<char>,
    pub ca_certificate: Seq<char>,
    pub lease_duration_secs: u64,
}

impl View for CertBundle {
    type V = CertBundleView;

    open spec fn view(&self) -> CertBundleView {
        CertBundleView {
            certificate: self.certificate@,
            private_key: self.private_key@,
            ca_certificate: self.ca_certificate@,
            lease_duration_secs: self.lease_duration_secs,
        }
    }
}

/// What the authority returns for one issuance.
#[derive(Debug, Clone)]
pub struct IssuedCertificate {
    /// The leaf certificate alone, in PEM.
    pub certificate: String,
    /// The issuer's certificate, in PEM.
    pub issuing_ca: String,
    /// The private key, in PEM.
    pub private_key: String,
    /// For how many seconds the identity is granted.
    pub lease_duration: u64,
}

/// The members of the request body: the common name and the time to live,
/// and the alternative names and the IP addresses where they are set.
pub open spec fn issue_body(
    common_name: Seq<char>,
    ttl: Seq<char>,
    alt_names: Option<Seq<char>>,
    ip_sans: Option<Seq<char>>,
) -> Map<Seq<char>, Option<Seq<char>>> {
    let base = no_members().insert("common_name"@, Some(common_name)).insert("ttl"@, Some(ttl));
    let with_names = match alt_names {
        Some(names) => base.insert("alt_names"@, Some(names)),
        None => base,
    };
    match ip_sans {
        Some(ips) => with_names.insert("ip_sans"@, Some(ips)),
        None => with_names,
    }
}

/// The request for a certificate: sent to the issue endpoint of the PKI
/// mount for the PKI role, with the session token.
pub open spec fn issue_request_for(
    addr: Seq<char>,
    namespace: Option<Seq<char>>,
    token: Seq<char>,
    mount: Seq<char>,
    role: Seq<char>,
    body: Map<Seq<char>, Option<Seq<char>>>,
) -> HttpRequestView {
    HttpRequestView {
        url: addr + "/v1/"@ + mount + "/issue/"@ + role,
        headers: request_headers(Some(token), namespace),
        body,
    }
}

/// The chain that is published: the leaf, a line break, the issuer, each
/// without the white space around it.  The leaf comes first.
pub open spec fn chain_of(leaf: Seq<char>, issuer: Seq<char>) -> Seq<char> {
    trimmed(leaf) + "\n"@ + trimmed(issuer)
}

/// The bundle made from what the authority returned.
pub open spec fn bundle_of(issued: IssuedCertificate) -> CertBundleView {
    CertBundleView {
        certificate: chain_of(issued.certificate@, issued.issuing_ca@),
        private_key: issued.private_key@,
        ca_certificate: issued.issuing_ca@,
        lease_duration_secs: issued.lease_duration,
    }
}

/// The failure of a request that the authority turned down.
pub open spec fn issue_rejected(status: Seq<char>, body: Seq<char>) -> ErrorView {
    ErrorView::VaultPki("PKI issue returned "@ + status + ": "@ + body)
}

/// What a reply to the request for a certificate means.
pub open spec fn issue_outcome(reply: HttpReply<IssuedCertificate>) -> Result<
    CertBundleView,
    ErrorView,
> {
    match reply {
        HttpReply::Unsent { reason } => Err(ErrorView::Http(reason@)),
        HttpReply::Answered { code, status, body, decoded } => {
            if !is_success(code) {
                Err(issue_rejected(status@, body@))
            } else {
                match decoded {
                    Ok(issued) => Ok(bundle_of(issued)),
                    Err(why) => Err(ErrorView::Http(why@)),
                }
            }
        },
    }
}

/// What to send in order to have a certificate issued.
pub fn issue_request(client: &VaultClient, config: &Config) -> (request: HttpRequest)
    ensures
        request@ == issue_request_for(
            client@.addr,
            client@.namespace,
            client@.token,
            config.vault_pki_mount@,
            config.vault_pki_role@,
            issue_body(
                config.cert_common_name@,
                config.cert_ttl@,
                opt_text(config.cert_alt_names),
                opt_text(config.cert_ip_sans),
            ),
        ),
{
    let url = join3(client.addr.as_str(), "/v1/", config.vault_pki_mount.as_str()).concat(
        "/issue/",
    ).concat(config.vault_pki_role.as_str());
    let token = client.token();
    let headers = headers_for(Some(token.as_str()), &client.namespace);
    let mut body = empty_object();
    put_text(&mut body, "common_name", config.cert_common_name.as_str());
    put_text(&mut body, "ttl", config.cert_ttl.as_str());
    match &config.cert_alt_names {
        Some(names) => {
            put_text(&mut body, "alt_names", names.as_str());
        },
        None => {},
    }
    match &config.cert_ip_sans {
        Some(ips) => {
            put_text(&mut body, "ip_sans", ips.as_str());
        },
        None => {},
    }
    HttpRequest { url, headers, body }
}

/// Builds the chain from the leaf and its issuer, the leaf first.
pub fn full_chain(leaf: &str, issuer: &str) -> (chain: String)
    ensures
        chain@ == chain_of(leaf@, issuer@),
{
    join3(trim(leaf), "\n", trim(issuer))
}

/// Judges the reply to the request for a certificate.
///
/// What was issued becomes a bundle: the chain of leaf and issuer, the key,
/// the issuer alone, and the lease.  A status outside the two hundreds is a
/// PKI failure that quotes status and body; a request that was not answered,
/// or a body that could not be read, is a transport failure.
pub fn issue_certificate(reply: HttpReply<IssuedCertificate>) -> (outcome: Result<
    CertBundle,
    Error,
>)
    ensures
        match outcome {
            Ok(bundle) => issue_outcome(reply) == Ok::<CertBundleView, ErrorView>(bundle@),
            Err(e) => issue_outcome(reply) == Err::<CertBundleView, ErrorView>(e@),
        },
{
    match reply {
        HttpReply::Unsent { reason } => Err(Error::Http(reason)),
        HttpReply::Answered { code, status, body, decoded } => {
            if !status_is_success(code) {
                let head = join3("PKI issue returned ", status.as_str(), ": ");
                Err(Error::VaultPki(head.concat(body.as_str())))
            } else {
                match decoded {
                    Ok(issued) => {
                        let certificate = full_chain(
                            issued.certificate.as_str(),
                            issued.issuing_ca.as_str(),
                        );
                        Ok(
                            CertBundle {
                                certificate,
                                private_key: issued.private_key,
                                ca_certificate: issued.issuing_ca,
                                lease_duration_secs: issued.lease_duration,
                            },
                        )
                    },
                    Err(why) => Err(Error::Http(why)),
                }
            }
        },
    }
}

} // verus!
