use cert_keeper::cert::manager::{Action, CertManager, Event, Phase, State};
use cert_keeper::config::{Config, Environment, Setting};
use cert_keeper::threshold::RenewalThreshold;

fn config(threshold: &str, dir: &str) -> Config {
    Config::from_env(Environment {
        vault_addr: Some("https://vault.example".to_string()),
        vault_auth_role: Some("web".to_string()),
        vault_auth_mount: None,
        vault_pki_role: Some("server".to_string()),
        vault_pki_mount: None,
        vault_namespace: None,
        vault_cacert: None,
        cert_common_name: Some("web.example".to_string()),
        cert_alt_names: None,
        cert_ip_sans: None,
        cert_ttl: None,
        cert_dir: Some(dir.to_string()),
        listen_addr: Setting::Unset,
        backend_addr: Setting::Unset,
        renewal_threshold: Setting::Value(threshold.to_string()),
        log_format: None,
    })
    .expect("valid")
}

fn started(threshold: &str, lease: u64) -> CertManager {
    let mut manager = CertManager::new(config(threshold, "/certs"));
    assert_eq!(manager.init(), Action::Login);
    assert_eq!(manager.step(Event::LoginSucceeded), Action::Issue);
    assert_eq!(manager.step(Event::Issued { lease_secs: lease }), Action::Write);
    assert_eq!(manager.step(Event::Written), Action::Parse);
    assert_eq!(manager.step(Event::Parsed), Action::Publish);
    assert_eq!(manager.step(Event::Published), Action::Started { lease_secs: lease });
    manager
}

fn serving(threshold: &str, lease: u64) -> CertManager {
    let mut manager = started(threshold, lease);
    manager.run_renewal_loop(lease);
    manager
}

#[test]
fn a_new_manager_is_about_to_log_in() {
    let manager = CertManager::new(config("0.5", "/certs"));
    assert_eq!(
        manager.state(),
        State {
            phase: Phase::StartLogin,
            lease_secs: 0,
            backoff_secs: 5,
            failures: 0,
            offered_lease_secs: 0,
            published: 0
        }
    );
    assert_eq!(manager.config().cert_dir, "/certs");
    assert_eq!(manager.store().cert_path(), "/certs/tls.crt");
}

#[test]
fn startup_runs_login_issue_write_parse_publish() {
    let manager = started("0.5", 3600);
    let state = manager.state();
    assert_eq!(state.phase, Phase::Ready);
    assert_eq!(state.lease_secs, 3600);
    assert_eq!(state.published, 1);
    assert_eq!(state.backoff_secs, 5);
}

#[test]
fn every_startup_failure_aborts() {
    let mut m = CertManager::new(config("0.5", "/certs"));
    m.init();
    assert_eq!(m.step(Event::LoginFailed), Action::Abort);
    assert_eq!(m.state().phase, Phase::Failed);

    let mut m = CertManager::new(config("0.5", "/certs"));
    m.init();
    m.step(Event::LoginSucceeded);
    assert_eq!(m.step(Event::IssueFailed), Action::Abort);

    let mut m = CertManager::new(config("0.5", "/certs"));
    m.init();
    m.step(Event::LoginSucceeded);
    m.step(Event::Issued { lease_secs: 60 });
    assert_eq!(m.step(Event::WriteFailed), Action::Abort);

    let mut m = CertManager::new(config("0.5", "/certs"));
    m.init();
    m.step(Event::LoginSucceeded);
    m.step(Event::Issued { lease_secs: 60 });
    m.step(Event::Written);
    assert_eq!(m.step(Event::ParseFailed), Action::Abort);
    assert_eq!(m.state().published, 0);
    assert_eq!(m.step(Event::Parsed), Action::Abort);
    assert_eq!(m.step(Event::LoginSucceeded), Action::Abort);
}

#[test]
fn happy_path_schedules_renewal_at_half_the_lease() {
    let mut manager = started("0.5", 3600);
    assert_eq!(manager.run_renewal_loop(3600), Action::Sleep { secs: 1800 });
    assert_eq!(manager.state().phase, Phase::Waiting);
    assert_eq!(manager.step(Event::TimerFired), Action::Login);
    assert_eq!(manager.step(Event::LoginSucceeded), Action::Issue);
    assert_eq!(manager.step(Event::Issued { lease_secs: 7200 }), Action::Write);
    assert_eq!(manager.step(Event::Written), Action::Parse);
    assert_eq!(manager.step(Event::Parsed), Action::Publish);
    assert_eq!(manager.step(Event::Published), Action::Sleep { secs: 3600 });
    let state = manager.state();
    assert_eq!(state.lease_secs, 7200);
    assert_eq!(state.published, 2);
    assert_eq!(state.phase, Phase::Waiting);
}

#[test]
fn auth_flake_backs_off_five_then_ten_then_resets() {
    let mut manager = serving("0.5", 3600);
    assert_eq!(manager.step(Event::TimerFired), Action::Login);
    assert_eq!(manager.step(Event::LoginFailed), Action::Sleep { secs: 5 });
    assert_eq!(manager.state().phase, Phase::AuthBackoff);
    assert_eq!(manager.step(Event::TimerFired), Action::Sleep { secs: 1800 });
    assert_eq!(manager.step(Event::TimerFired), Action::Login);
    assert_eq!(manager.step(Event::LoginFailed), Action::Sleep { secs: 10 });
    assert_eq!(manager.state().published, 1);
    assert_eq!(manager.step(Event::TimerFired), Action::Sleep { secs: 1800 });
    assert_eq!(manager.step(Event::TimerFired), Action::Login);
    assert_eq!(manager.step(Event::LoginSucceeded), Action::Issue);
    assert_eq!(manager.state().backoff_secs, 5);
    assert_eq!(manager.state().failures, 0);
    assert_eq!(manager.state().published, 1);
    assert_eq!(manager.step(Event::Issued { lease_secs: 3600 }), Action::Write);
    assert_eq!(manager.step(Event::Written), Action::Parse);
    assert_eq!(manager.step(Event::Parsed), Action::Publish);
    assert_eq!(manager.state().published, 1);
    assert_eq!(manager.step(Event::Published), Action::Sleep { secs: 1800 });
    assert_eq!(manager.state().published, 2);
}

#[test]
fn backoff_doubles_up_to_three_hundred_seconds() {
    let mut manager = serving("0.5", 100);
    let expected = [5u64, 10, 20, 40, 80, 160, 300, 300, 300];
    for (k, pause) in expected.iter().enumerate() {
        assert_eq!(manager.step(Event::TimerFired), Action::Login);
        assert_eq!(manager.state().failures, k as u64);
        assert_eq!(manager.step(Event::LoginFailed), Action::Sleep { secs: *pause });
        assert_eq!(manager.step(Event::TimerFired), Action::Sleep { secs: 50 });
    }
    assert_eq!(manager.state().backoff_secs, 300);
    assert_eq!(manager.state().failures, 9);
}

#[test]
fn issue_failure_after_successful_login_pauses_five_seconds() {
    let mut manager = serving("0.5", 100);
    for _ in 0..3 {
        manager.step(Event::TimerFired);
        manager.step(Event::LoginFailed);
        manager.step(Event::TimerFired);
    }
    assert_eq!(manager.state().backoff_secs, 40);
    assert_eq!(manager.step(Event::TimerFired), Action::Login);
    assert_eq!(manager.step(Event::LoginSucceeded), Action::Issue);
    assert_eq!(manager.step(Event::IssueFailed), Action::Sleep { secs: 5 });
    assert_eq!(manager.state().phase, Phase::IssueBackoff);
    assert_eq!(manager.step(Event::TimerFired), Action::Sleep { secs: 50 });
    assert_eq!(manager.state().backoff_secs, 10);
    assert_eq!(manager.state().lease_secs, 100);
    assert_eq!(manager.state().published, 1);
}

#[test]
fn write_failure_still_publishes() {
    let mut manager = serving("0.5", 3600);
    manager.step(Event::TimerFired);
    manager.step(Event::LoginSucceeded);
    manager.step(Event::Issued { lease_secs: 1000 });
    assert_eq!(manager.step(Event::WriteFailed), Action::Parse);
    assert_eq!(manager.step(Event::Parsed), Action::Publish);
    assert_eq!(manager.step(Event::Published), Action::Sleep { secs: 500 });
    assert_eq!(manager.state().published, 2);
    assert_eq!(manager.state().lease_secs, 1000);
}

#[test]
fn parse_failure_publishes_nothing_and_keeps_the_lease() {
    let mut manager = serving("0.5", 3600);
    manager.step(Event::TimerFired);
    manager.step(Event::LoginSucceeded);
    manager.step(Event::Issued { lease_secs: 1000 });
    manager.step(Event::Written);
    assert_eq!(manager.step(Event::ParseFailed), Action::Sleep { secs: 1800 });
    let state = manager.state();
    assert_eq!(state.phase, Phase::Waiting);
    assert_eq!(state.lease_secs, 3600);
    assert_eq!(state.published, 1);
    assert_eq!(state.backoff_secs, 5);
}

#[test]
fn shutdown_during_backoff_exits_at_once() {
    let mut manager = serving("0.5", 3600);
    for _ in 0..8 {
        manager.step(Event::TimerFired);
        manager.step(Event::LoginFailed);
        manager.step(Event::TimerFired);
    }
    manager.step(Event::TimerFired);
    assert_eq!(manager.step(Event::LoginFailed), Action::Sleep { secs: 300 });
    assert_eq!(manager.step(Event::Shutdown), Action::Exit);
    assert_eq!(manager.state().phase, Phase::Stopped);
    for event in [
        Event::TimerFired,
        Event::LoginSucceeded,
        Event::LoginFailed,
        Event::Issued { lease_secs: 1 },
        Event::Parsed,
        Event::Published,
        Event::Shutdown,
    ] {
        assert_eq!(manager.step(event), Action::Exit);
        assert_eq!(manager.state().phase, Phase::Stopped);
    }
}

#[test]
fn shutdown_ends_the_wait_for_renewal_and_the_issue_backoff() {
    let mut manager = serving("0.5", 3600);
    assert_eq!(manager.step(Event::Shutdown), Action::Exit);

    let mut manager = serving("0.5", 3600);
    manager.step(Event::TimerFired);
    manager.step(Event::LoginSucceeded);
    manager.step(Event::IssueFailed);
    assert_eq!(manager.step(Event::Shutdown), Action::Exit);
}

#[test]
fn shutdown_is_not_noticed_outside_a_sleep() {
    let mut manager = serving("0.5", 3600);
    manager.step(Event::TimerFired);
    assert_eq!(manager.step(Event::Shutdown), Action::Login);
    assert_eq!(manager.state().phase, Phase::Login);
}

#[test]
fn an_event_out_of_turn_changes_nothing() {
    let mut manager = serving("0.5", 3600);
    let before = manager.state();
    assert_eq!(manager.step(Event::Parsed), Action::Sleep { secs: 1800 });
    assert_eq!(manager.step(Event::Published), Action::Sleep { secs: 1800 });
    assert_eq!(manager.step(Event::Issued { lease_secs: 5 }), Action::Sleep { secs: 1800 });
    assert_eq!(manager.state(), before);
}

#[test]
fn init_again_restarts_startup_and_keeps_the_count() {
    let mut manager = started("0.5", 3600);
    assert_eq!(manager.init(), Action::Login);
    let state = manager.state();
    assert_eq!(state.phase, Phase::StartLogin);
    assert_eq!(state.published, 1);
    assert_eq!(state.lease_secs, 0);
}

#[test]
fn state_advances_without_a_manager() {
    let threshold = RenewalThreshold::from_decimal("0.25").expect("a fraction");
    let state = State {
        phase: Phase::Publish,
        lease_secs: 100,
        backoff_secs: 5,
        failures: 0,
        offered_lease_secs: 400,
        published: u64::MAX,
    };
    let (next, action) = state.advance(Event::Published, &threshold);
    assert_eq!(action, Action::Sleep { secs: 100 });
    assert_eq!(next.lease_secs, 400);
    assert_eq!(next.published, u64::MAX);
    assert_eq!(state.action(&threshold), Action::Publish);
    let odd = State { phase: Phase::AuthBackoff, backoff_secs: 200, failures: u64::MAX, ..state };
    let (next, _) = odd.advance(Event::TimerFired, &threshold);
    assert_eq!(next.backoff_secs, 300);
    assert_eq!(next.failures, u64::MAX);
    let odd = State { phase: Phase::IssueBackoff, backoff_secs: 149, ..state };
    assert_eq!(odd.advance(Event::TimerFired, &threshold).0.backoff_secs, 298);
}
