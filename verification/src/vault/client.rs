//! Who the keeper is to the authority.

use crate::config::Config;
use crate::text::{opt_text, strip_trailing_slashes, without_trailing};
use vstd::prelude::*;
use vstd::string::*;

verus! {

/// The authority as the keeper knows it: where it is, which tenant the
/// keeper belongs to, and the session token of the last login.
#[derive(Debug, Clone)]
pub struct VaultClient {
    /// The base URL, without a slash at its end.
    pub addr: String,
    /// The tenant namespace, where one is set.
    pub namespace: Option<String>,
    /// The session token of the last login; empty before the first.
    pub token: String,
}

/// A [`VaultClient`] as sequences of characters.
pub struct VaultClientView {
    pub addr: Seq<char>,
    pub namespace: Option<Seq<char>>,
    pub token: Seq<char>,
}

impl View for VaultClient {
    type V = VaultClientView;

    open spec fn view(&self) -> VaultClientView {
        VaultClientView {
            addr: self.addr@,
            namespace: opt_text(self.namespace),
            token: self.token@,
        }
    }
}

impl VaultClient {

    /// The client for the authority that the settings name, not yet logged in.
    pub fn new(config: &Config) -> (client: VaultClient)
        ensures
            client@ == (VaultClientView {
                addr: without_trailing(config.vault_addr@, '/'),
                namespace: opt_text(config.vault_namespace),
                token: Seq::empty(),
            }),
    {
        let addr = String::from_str(strip_trailing_slashes(config.vault_addr.as_str()));
        let namespace = match &config.vault_namespace {
            Some(ns) => Some(ns.clone()),
            None => None,
        };
        VaultClient { addr, namespace, token: String::new() }
    }

    /// Replaces the session token as a whole.
    pub fn set_token(&mut self, token: String)
        ensures
            final(self)@ == (VaultClientView { token: token@, ..old(self)@ }),
    {
        self.token = token;
    }

    /// The session token.
    pub fn token(&self) -> (token: String)
        ensures
            token@ == self@.token,
    {
        self.token.clone()
    }
}

} // verus!
