use cert_keeper::cert::store::{CertStore, FileStep};
use cert_keeper::vault::pki::CertBundle;

fn bundle() -> CertBundle {
    CertBundle {
        certificate: "LEAF\nISSUER".to_string(),
        private_key: "KEY".to_string(),
        ca_certificate: "ISSUER\n".to_string(),
        lease_duration_secs: 3600,
    }
}

#[test]
fn paths_lie_in_the_directory() {
    let store = CertStore::new("/certs");
    assert_eq!(store.cert_path(), "/certs/tls.crt");
    assert_eq!(store.key_path(), "/certs/tls.key");
    assert_eq!(store.ca_path(), "/certs/ca.crt");
}

#[test]
fn a_slash_at_the_end_is_not_doubled() {
    let store = CertStore::new("/certs/");
    assert_eq!(store.cert_path(), "/certs/tls.crt");
    assert_eq!(store.key_path(), "/certs/tls.key");
    let root = CertStore::new("/");
    assert_eq!(root.ca_path(), "/ca.crt");
}

#[test]
fn an_empty_directory_gives_relative_paths() {
    let store = CertStore::new("");
    assert_eq!(store.cert_path(), "tls.crt");
    assert_eq!(store.key_path(), "tls.key");
    assert_eq!(store.ca_path(), "ca.crt");
}

#[test]
fn relative_and_unicode_directories_work() {
    assert_eq!(CertStore::new("out/identity").cert_path(), "out/identity/tls.crt");
    assert_eq!(CertStore::new("zertifikate/größe").key_path(), "zertifikate/größe/tls.key");
}

#[test]
fn paths_agree_with_std_path_join() {
    for dir in ["/certs", "/certs/", "", "a/b", "/"] {
        let store = CertStore::new(dir);
        let expected = std::path::Path::new(dir).join("tls.crt");
        assert_eq!(std::path::PathBuf::from(store.cert_path()), expected);
    }
}

fn written(step: &FileStep) -> (&str, &str) {
    match step {
        FileStep::Write { path, contents } => (path.as_str(), contents.as_str()),
        other => panic!("expected a write, got {:?}", other),
    }
}

fn renamed(step: &FileStep) -> (&str, &str) {
    match step {
        FileStep::Rename { from, to } => (from.as_str(), to.as_str()),
        other => panic!("expected a rename, got {:?}", other),
    }
}

#[test]
fn write_plans_directory_then_certificate_key_issuer() {
    let plan = CertStore::new("/certs").write(&bundle());
    assert_eq!(plan.dir, "/certs");
    assert_eq!(plan.steps.len(), 7);
    match &plan.steps[0] {
        FileStep::CreateDirAll { dir } => assert_eq!(dir, "/certs"),
        other => panic!("expected the directory first, got {:?}", other),
    }
    assert_eq!(written(&plan.steps[1]), ("/certs/tls.crt.tmp", "LEAF\nISSUER"));
    assert_eq!(renamed(&plan.steps[2]), ("/certs/tls.crt.tmp", "/certs/tls.crt"));
    assert_eq!(written(&plan.steps[3]), ("/certs/tls.key.tmp", "KEY"));
    assert_eq!(renamed(&plan.steps[4]), ("/certs/tls.key.tmp", "/certs/tls.key"));
    assert_eq!(written(&plan.steps[5]), ("/certs/ca.crt.tmp", "ISSUER\n"));
    assert_eq!(renamed(&plan.steps[6]), ("/certs/ca.crt.tmp", "/certs/ca.crt"));
}

#[test]
fn nothing_is_written_into_a_final_file() {
    for dir in ["", "/", "x", "/certs/", "a/b"] {
        let store = CertStore::new(dir);
        let finals = [store.cert_path(), store.key_path(), store.ca_path()];
        let plan = store.write(&bundle());
        for (i, step) in plan.steps.iter().enumerate() {
            if let FileStep::Write { path, .. } = step {
                assert!(!finals.contains(path));
                let (from, to) = renamed(&plan.steps[i + 1]);
                assert_eq!(from, path);
                assert!(finals.iter().any(|f| f == to));
            }
        }
    }
}
