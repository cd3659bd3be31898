//! Logging in with the workload's own token.

use crate::config::Config;
use crate::error::{Error, ErrorView};
use crate::text::{join3, opt_text, trim, trimmed};
use crate::vault::client::{VaultClient, VaultClientView};
use crate::vault::json::{empty_object, no_members, put_text};
use crate::vault::http::{
    is_success, pairs_view, push_pair, status_is_success, HttpReply, HttpRequest, HttpRequestView,
};
use vstd::prelude::*;
use vstd::string::*;

verus! {

/// Where the orchestrator puts the workload's token.
pub const SA_TOKEN_PATH: &'static str = "/var/run/secrets/kubernetes.io/serviceaccount/token";

/// What a successful login grants.
#[derive(Debug, Clone)]
pub struct LoginGrant {
    /// The session token.
    pub client_token: String,
    /// For how many seconds the session lasts.
    pub lease_duration: u64,
}

/// The headers that every request carries: the content type, then the
/// session token where there is one to send, then the tenant namespace where
/// one is set.
pub open spec fn request_headers(session: Option<Seq<char>>, namespace: Option<Seq<char>>) -> Seq<
    (Seq<char>, Seq<char>),
> {
    let content = seq![("Content-Type"@, "application/json"@)];
    let with_session = match session {
        Some(token) => content.push(("X-Vault-Token"@, token)),
        None => content,
    };
    match namespace {
        Some(ns) => with_session.push(("X-Vault-Namespace"@, ns)),
        None => with_session,
    }
}

/// The login request: the role, and the workload's token without the white
/// space around it, sent to the login endpoint of the auth mount.
pub open spec fn login_request_for(
    addr: Seq<char>,
    namespace: Option<Seq<char>>,
    mount: Seq<char>,
    role: Seq<char>,
    workload_token: Seq<char>,
) -> HttpRequestView {
    HttpRequestView {
        url: addr + "/v1/auth/"@ + mount + "/login"@,
        headers: request_headers(None, namespace),
        body: no_members().insert("role"@, Some(role)).insert(
            "jwt"@,
            Some(trimmed(workload_token)),
        ),
    }
}

/// The failure of a login that the authority turned down.
pub open spec fn login_rejected(status: Seq<char>, body: Seq<char>) -> ErrorView {
    ErrorView::VaultAuth("login returned "@ + status + ": "@ + body)
}

/// The failure of a login for which the workload's token could not be read.
pub open spec fn token_unreadable_error(why: Seq<char>) -> ErrorView {
    ErrorView::VaultAuth(
        "failed to read service account token from "@ + SA_TOKEN_PATH@ + ": "@ + why,
    )
}

/// The headers of a request, as [`request_headers`] lists them.
pub fn headers_for(session: Option<&str>, namespace: &Option<String>) -> (headers: Vec<
    (String, String),
>)
    ensures
        pairs_view(headers@) == request_headers(
            match session {
                Some(token) => Some(token@),
                None => None,
            },
            opt_text(*namespace),
        ),
{
    let mut headers: Vec<(String, String)> = Vec::new();
    assert(pairs_view(headers@) =~= Seq::empty());
    push_pair(&mut headers, "Content-Type", "application/json");
    assert(pairs_view(headers@) =~= seq![("Content-Type"@, "application/json"@)]);
    match session {
        Some(token) => {
            push_pair(&mut headers, "X-Vault-Token", token);
        },
        None => {},
    }
    match namespace {
        Some(ns) => {
            push_pair(&mut headers, "X-Vault-Namespace", ns.as_str());
        },
        None => {},
    }
    headers
}

/// What to send in order to log in with the workload's token.
pub fn login_request(client: &VaultClient, config: &Config, workload_token: &str) -> (request:
    HttpRequest)
    ensures
        request@ == login_request_for(
            client@.addr,
            client@.namespace,
            config.vault_auth_mount@,
            config.vault_auth_role@,
            workload_token@,
        ),
{
    let url = join3(client.addr.as_str(), "/v1/auth/", config.vault_auth_mount.as_str()).concat(
        "/login",
    );
    let headers = headers_for(None, &client.namespace);
    let mut body = empty_object();
    put_text(&mut body, "role", config.vault_auth_role.as_str());
    put_text(&mut body, "jwt", trim(workload_token));
    HttpRequest { url, headers, body }
}

/// The failure to report when the workload's token cannot be read.
pub fn token_unreadable(why: &str) -> (e: Error)
    ensures
        e@ == token_unreadable_error(why@),
{
    let head = join3("failed to read service account token from ", SA_TOKEN_PATH, ": ");
    Error::VaultAuth(head.concat(why))
}

/// What a reply to the login request means.
pub open spec fn login_outcome(reply: HttpReply<LoginGrant>) -> Result<u64, ErrorView> {
    match reply {
        HttpReply::Unsent { reason } => Err(ErrorView::Http(reason@)),
        HttpReply::Answered { code, status, body, decoded } => {
            if !is_success(code) {
                Err(login_rejected(status@, body@))
            } else {
                match decoded {
                    Ok(grant) => Ok(grant.lease_duration),
                    Err(why) => Err(ErrorView::Http(why@)),
                }
            }
        },
    }
}

/// The client after a reply to the login request: with the token that was
/// granted, or as it was.
pub open spec fn logged_in(client: VaultClientView, reply: HttpReply<LoginGrant>)
    -> VaultClientView {
    match reply {
        HttpReply::Answered { code, decoded: Ok(grant), .. } => if is_success(code) {
            VaultClientView { token: grant.client_token@, ..client }
        } else {
            client
        },
        _ => client,
    }
}

/// Judges the reply to a login request.
///
/// A grant becomes the client's session token and its lease is returned.  A
/// status outside the two hundreds is an authentication failure that quotes
/// status and body; a request that was not answered, or a body that could not
/// be read, is a transport failure.  Every failure leaves the client as it was.
pub fn kubernetes_login(client: &mut VaultClient, reply: HttpReply<LoginGrant>) -> (outcome: Result<
    u64,
    Error,
>)
    ensures
        match outcome {
            Ok(lease) => login_outcome(reply) == Ok::<u64, ErrorView>(lease),
            Err(e) => login_outcome(reply) == Err::<u64, ErrorView>(e@),
        },
        final(client)@ == logged_in(old(client)@, reply),
{
    match reply {
        HttpReply::Unsent { reason } => Err(Error::Http(reason)),
        HttpReply::Answered { code, status, body, decoded } => {
            if !status_is_success(code) {
                let head = join3("login returned ", status.as_str(), ": ");
                Err(Error::VaultAuth(head.concat(body.as_str())))
            } else {
                match decoded {
                    Ok(grant) => {
                        client.set_token(grant.client_token);
                        Ok(grant.lease_duration)
                    },
                    Err(why) => Err(Error::Http(why)),
                }
            }
        },
    }
}

} // verus!
