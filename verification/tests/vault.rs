use cert_keeper::config::{Config, Environment, Setting};
use cert_keeper::error::Error;
use cert_keeper::vault::auth::{
    headers_for, kubernetes_login, login_request, token_unreadable, LoginGrant, SA_TOKEN_PATH,
};
use cert_keeper::vault::client::VaultClient;
use cert_keeper::vault::http::{push_pair, status_is_success, HttpReply};
use cert_keeper::vault::pki::{full_chain, issue_certificate, issue_request, IssuedCertificate};

fn pair(name: &str, value: &str) -> (String, String) {
    (name.to_string(), value.to_string())
}

fn object(members: &[(&str, &str)]) -> serde_json::Map<String, serde_json::Value> {
    let mut made = serde_json::Map::new();
    for (name, text) in members {
        made.insert(name.to_string(), serde_json::Value::String(text.to_string()));
    }
    made
}

fn config(addr: &str, namespace: Option<&str>, alt: Option<&str>, ips: Option<&str>) -> Config {
    Config::from_env(Environment {
        vault_addr: Some(addr.to_string()),
        vault_auth_role: Some("web-role".to_string()),
        vault_auth_mount: Some("k8s".to_string()),
        vault_pki_role: Some("server".to_string()),
        vault_pki_mount: Some("pki-int".to_string()),
        vault_namespace: namespace.map(str::to_string),
        vault_cacert: None,
        cert_common_name: Some("web.example".to_string()),
        cert_alt_names: alt.map(str::to_string),
        cert_ip_sans: ips.map(str::to_string),
        cert_ttl: Some("12h".to_string()),
        cert_dir: None,
        listen_addr: Setting::Unset,
        backend_addr: Setting::Unset,
        renewal_threshold: Setting::Unset,
        log_format: None,
    })
    .expect("valid")
}

fn answered<T>(code: u16, status: &str, body: &str, decoded: Result<T, String>) -> HttpReply<T> {
    HttpReply::Answered { code, status: status.to_string(), body: body.to_string(), decoded }
}

fn grant(token: &str, lease: u64) -> LoginGrant {
    LoginGrant { client_token: token.to_string(), lease_duration: lease }
}

fn issued() -> IssuedCertificate {
    IssuedCertificate {
        certificate: "\n-----BEGIN CERTIFICATE-----\nLEAF\n-----END CERTIFICATE-----\n\n".to_string(),
        issuing_ca: "  -----BEGIN CERTIFICATE-----\nCA\n-----END CERTIFICATE-----\n".to_string(),
        private_key: "the key, as it came\n".to_string(),
        lease_duration: 3600,
    }
}

#[test]
fn client_strips_the_slash_and_has_no_token() {
    let client = VaultClient::new(&config("https://vault.example:8200/", Some("team"), None, None));
    assert_eq!(client.addr, "https://vault.example:8200");
    assert_eq!(client.namespace.as_deref(), Some("team"));
    assert_eq!(client.token(), "");
    let client = VaultClient::new(&config("https://vault.example//", None, None, None));
    assert_eq!(client.addr, "https://vault.example");
    assert_eq!(client.namespace, None);
}

#[test]
fn token_is_replaced_as_a_whole() {
    let mut client = VaultClient::new(&config("https://v", None, None, None));
    client.set_token("s.first".to_string());
    assert_eq!(client.token(), "s.first");
    client.set_token("s.2".to_string());
    assert_eq!(client.token(), "s.2");
    assert_eq!(client.addr, "https://v");
}

#[test]
fn login_request_names_mount_role_and_trimmed_token() {
    let config = config("https://vault.example/", None, None, None);
    let client = VaultClient::new(&config);
    let request = login_request(&client, &config, "  header.payload.signature\n");
    assert_eq!(request.url, "https://vault.example/v1/auth/k8s/login");
    assert_eq!(request.headers, vec![pair("Content-Type", "application/json")]);
    assert_eq!(request.body, object(&[("role", "web-role"), ("jwt", "header.payload.signature")]));
    assert_eq!(
        serde_json::to_string(&request.body).expect("json"),
        "{\"jwt\":\"header.payload.signature\",\"role\":\"web-role\"}"
    );
}

#[test]
fn login_request_carries_the_namespace_and_never_the_session_token() {
    let config = config("https://vault.example", Some("team-a"), None, None);
    let mut client = VaultClient::new(&config);
    client.set_token("s.old".to_string());
    let request = login_request(&client, &config, "jwt");
    assert_eq!(
        request.headers,
        vec![pair("Content-Type", "application/json"), pair("X-Vault-Namespace", "team-a")]
    );
}

#[test]
fn headers_come_in_their_order() {
    assert_eq!(
        headers_for(Some("s.tok"), &Some("ns".to_string())),
        vec![
            pair("Content-Type", "application/json"),
            pair("X-Vault-Token", "s.tok"),
            pair("X-Vault-Namespace", "ns")
        ]
    );
    assert_eq!(headers_for(None, &None), vec![pair("Content-Type", "application/json")]);
}

#[test]
fn pairs_are_added_at_the_end() {
    let mut pairs = vec![pair("a", "1")];
    push_pair(&mut pairs, "b", "2");
    assert_eq!(pairs, vec![pair("a", "1"), pair("b", "2")]);
}

#[test]
fn only_the_two_hundreds_are_success() {
    for code in [200u16, 201, 204, 299] {
        assert!(status_is_success(code));
    }
    for code in [0u16, 100, 199, 300, 301, 400, 403, 404, 500, 503, u16::MAX] {
        assert!(!status_is_success(code));
    }
}

#[test]
fn successful_login_stores_the_token_and_returns_the_lease() {
    let mut client = VaultClient::new(&config("https://v", Some("ns"), None, None));
    let lease = kubernetes_login(&mut client, answered(200, "200 OK", "{}", Ok(grant("s.abc", 900))));
    assert_eq!(lease.expect("granted"), 900);
    assert_eq!(client.token(), "s.abc");
    assert_eq!(client.addr, "https://v");
    assert_eq!(client.namespace.as_deref(), Some("ns"));
}

#[test]
fn rejected_login_quotes_status_and_body_and_keeps_the_token() {
    let mut client = VaultClient::new(&config("https://v", None, None, None));
    client.set_token("s.old".to_string());
    let outcome = kubernetes_login(
        &mut client,
        answered(403, "403 Forbidden", "permission denied", Ok(grant("s.new", 1))),
    );
    match outcome {
        Err(Error::VaultAuth(m)) => assert_eq!(m, "login returned 403 Forbidden: permission denied"),
        other => panic!("expected an authentication error, got {:?}", other),
    }
    assert_eq!(client.token(), "s.old");
}

#[test]
fn redirect_and_server_error_are_rejections_too() {
    for (code, status) in [(302u16, "302 Found"), (500, "500 Internal Server Error"), (199, "199 <unknown status code>")] {
        let mut client = VaultClient::new(&config("https://v", None, None, None));
        let outcome = kubernetes_login(&mut client, answered(code, status, "", Err("eof".to_string())));
        match outcome {
            Err(Error::VaultAuth(m)) => assert_eq!(m, format!("login returned {}: ", status)),
            other => panic!("expected an authentication error, got {:?}", other),
        }
        assert_eq!(client.token(), "");
    }
}

#[test]
fn unanswered_login_is_a_transport_failure() {
    let mut client = VaultClient::new(&config("https://v", None, None, None));
    client.set_token("s.old".to_string());
    let outcome = kubernetes_login(&mut client, HttpReply::Unsent { reason: "connection refused".to_string() });
    match outcome {
        Err(Error::Http(m)) => assert_eq!(m, "connection refused"),
        other => panic!("expected a transport error, got {:?}", other),
    }
    assert_eq!(client.token(), "s.old");
}

#[test]
fn undecodable_login_body_is_a_transport_failure() {
    let mut client = VaultClient::new(&config("https://v", None, None, None));
    let outcome = kubernetes_login(
        &mut client,
        answered(200, "200 OK", "<html>", Err("expected value at line 1 column 1".to_string())),
    );
    match outcome {
        Err(Error::Http(m)) => assert_eq!(m, "expected value at line 1 column 1"),
        other => panic!("expected a transport error, got {:?}", other),
    }
    assert_eq!(client.token(), "");
}

#[test]
fn unreadable_workload_token_is_an_authentication_failure() {
    assert_eq!(SA_TOKEN_PATH, "/var/run/secrets/kubernetes.io/serviceaccount/token");
    match token_unreadable("No such file or directory (os error 2)") {
        Error::VaultAuth(m) => assert_eq!(
            m,
            "failed to read service account token from /var/run/secrets/kubernetes.io/serviceaccount/token: No such file or directory (os error 2)"
        ),
        other => panic!("expected an authentication error, got {:?}", other),
    }
}

#[test]
fn issue_request_names_mount_role_and_token() {
    let config = config("https://vault.example/", Some("team-a"), None, None);
    let mut client = VaultClient::new(&config);
    client.set_token("s.session".to_string());
    let request = issue_request(&client, &config);
    assert_eq!(request.url, "https://vault.example/v1/pki-int/issue/server");
    assert_eq!(
        request.headers,
        vec![
            pair("Content-Type", "application/json"),
            pair("X-Vault-Token", "s.session"),
            pair("X-Vault-Namespace", "team-a")
        ]
    );
    assert_eq!(request.body, object(&[("common_name", "web.example"), ("ttl", "12h")]));
    assert_eq!(request.body.len(), 2);
}

#[test]
fn issue_request_adds_the_optional_names() {
    let config = config("https://v", None, Some("a.example,b.example"), Some("10.0.0.1"));
    let client = VaultClient::new(&config);
    let request = issue_request(&client, &config);
    assert_eq!(
        request.body,
        object(&[
            ("common_name", "web.example"),
            ("ttl", "12h"),
            ("alt_names", "a.example,b.example"),
            ("ip_sans", "10.0.0.1")
        ])
    );
    assert_eq!(request.body.get("alt_names").and_then(|v| v.as_str()), Some("a.example,b.example"));
    assert_eq!(request.headers, vec![pair("Content-Type", "application/json"), pair("X-Vault-Token", "")]);

    let only_ips = config_with_ips();
    let request = issue_request(&VaultClient::new(&only_ips), &only_ips);
    assert_eq!(
        request.body,
        object(&[("common_name", "web.example"), ("ttl", "12h"), ("ip_sans", "::1")])
    );
    assert!(!request.body.contains_key("alt_names"));
}

fn config_with_ips() -> Config {
    config("https://v", None, None, Some("::1"))
}

#[test]
fn chain_is_leaf_then_issuer_trimmed() {
    assert_eq!(full_chain(" LEAF \n", "\n ISSUER\n\n"), "LEAF\nISSUER");
    assert_eq!(full_chain("LEAF", "ISSUER"), "LEAF\nISSUER");
    assert_eq!(full_chain("a\nb", "c\nd"), "a\nb\nc\nd");
    assert_eq!(full_chain("", ""), "\n");
    assert_eq!(full_chain("\n", "x"), "\nx");
}

#[test]
fn chain_equals_trim_newline_trim_bytewise() {
    let leaf = "\r\n-----BEGIN CERTIFICATE-----\nMIIB\n-----END CERTIFICATE-----\r\n";
    let issuer = "\t-----BEGIN CERTIFICATE-----\nMIIC\n-----END CERTIFICATE-----  ";
    let expected = format!("{}\n{}", leaf.trim(), issuer.trim());
    assert_eq!(full_chain(leaf, issuer).as_bytes(), expected.as_bytes());
}

#[test]
fn issued_certificate_becomes_a_bundle() {
    let bundle = issue_certificate(answered(200, "200 OK", "{}", Ok(issued()))).expect("issued");
    assert_eq!(
        bundle.certificate,
        "-----BEGIN CERTIFICATE-----\nLEAF\n-----END CERTIFICATE-----\n-----BEGIN CERTIFICATE-----\nCA\n-----END CERTIFICATE-----"
    );
    assert_eq!(bundle.private_key, "the key, as it came\n");
    assert_eq!(bundle.ca_certificate, "  -----BEGIN CERTIFICATE-----\nCA\n-----END CERTIFICATE-----\n");
    assert_eq!(bundle.lease_duration_secs, 3600);
}

#[test]
fn rejected_issue_quotes_status_and_body() {
    let outcome = issue_certificate(answered(400, "400 Bad Request", "{\"errors\":[\"unknown role\"]}", Ok(issued())));
    match outcome {
        Err(Error::VaultPki(m)) => assert_eq!(m, "PKI issue returned 400 Bad Request: {\"errors\":[\"unknown role\"]}"),
        other => panic!("expected a PKI error, got {:?}", other.map(|_| ())),
    }
}

#[test]
fn unanswered_or_undecodable_issue_is_a_transport_failure() {
    match issue_certificate(HttpReply::Unsent { reason: "timed out".to_string() }) {
        Err(Error::Http(m)) => assert_eq!(m, "timed out"),
        other => panic!("expected a transport error, got {:?}", other.map(|_| ())),
    }
    match issue_certificate(answered::<IssuedCertificate>(204, "204 No Content", "", Err("EOF while parsing".to_string()))) {
        Err(Error::Http(m)) => assert_eq!(m, "EOF while parsing"),
        other => panic!("expected a transport error, got {:?}", other.map(|_| ())),
    }
}
