use dbcore::init::{InitAction, InitConfig, InitEvent, InitMachine};

fn remote_config(url: &str) -> InitConfig {
    InitConfig {
        url: Some(String::from(url)),
        auth_token: Some(String::from("token")),
    }
}

/// Drives the machine with a remote that fails `fail_first` attempts and
/// then succeeds, recording the URLs attempted and the delays taken.
/// Returns (attempted urls, delays, final action).
fn drive(
    config: &InitConfig,
    fail_first: usize,
    local_ok: bool,
    sync_ok: bool,
) -> (Vec<String>, usize, InitAction) {
    let mut m = InitMachine::new(config);
    let mut attempts: Vec<String> = Vec::new();
    let mut delays: usize = 0;
    loop {
        match m.current_action() {
            InitAction::AttemptRemote { url } => {
                attempts.push(url);
                if attempts.len() <= fail_first {
                    m.step(InitEvent::RemoteErr);
                } else {
                    m.step(InitEvent::RemoteOk);
                }
            }
            InitAction::Delay { secs } => {
                assert_eq!(secs, 2);
                delays += 1;
                m.step(InitEvent::Slept);
            }
            InitAction::OpenLocal => {
                if local_ok {
                    m.step(InitEvent::LocalOk);
                } else {
                    m.step(InitEvent::LocalErr);
                }
            }
            InitAction::AttemptSync => {
                if sync_ok {
                    m.step(InitEvent::SyncOk);
                } else {
                    m.step(InitEvent::SyncErr);
                }
            }
            done => return (attempts, delays, done),
        }
    }
}

#[test]
fn always_failing_remote_attempts_three_rounds_of_both_variants_then_falls_back() {
    let config = remote_config("libsql://h");
    let (attempts, delays, done) = drive(&config, usize::MAX, true, true);
    assert_eq!(
        attempts,
        vec![
            String::from("libsql://h"),
            String::from("https://h"),
            String::from("libsql://h"),
            String::from("https://h"),
            String::from("libsql://h"),
            String::from("https://h"),
        ]
    );
    assert_eq!(delays, 2);
    assert_eq!(done, InitAction::Done { remote: false });
}

#[test]
fn single_variant_url_attempts_once_per_round() {
    let config = remote_config("example.com");
    let (attempts, delays, done) = drive(&config, usize::MAX, true, true);
    assert_eq!(
        attempts,
        vec![
            String::from("example.com"),
            String::from("example.com"),
            String::from("example.com"),
        ]
    );
    assert_eq!(delays, 2);
    assert_eq!(done, InitAction::Done { remote: false });
}

#[test]
fn no_remote_credentials_skips_remote_logic_entirely() {
    let config = InitConfig { url: None, auth_token: None };
    let (attempts, delays, done) = drive(&config, 0, true, true);
    assert!(attempts.is_empty());
    assert_eq!(delays, 0);
    assert_eq!(done, InitAction::Done { remote: false });
}

#[test]
fn empty_url_or_token_selects_local_mode() {
    let config = InitConfig {
        url: Some(String::from("")),
        auth_token: Some(String::from("t")),
    };
    let (attempts, _, done) = drive(&config, 0, true, true);
    assert!(attempts.is_empty());
    assert_eq!(done, InitAction::Done { remote: false });

    let config = InitConfig {
        url: Some(String::from("libsql://h")),
        auth_token: Some(String::from("")),
    };
    let (attempts, _, done) = drive(&config, 0, true, true);
    assert!(attempts.is_empty());
    assert_eq!(done, InitAction::Done { remote: false });
}

#[test]
fn success_on_a_later_round_yields_remote_mode() {
    // The first round fails on both variants (as stale metadata would make it
    // do); each attempt is preceded by a metadata wipe, so the third attempt
    // is allowed to succeed and must yield a remote handle.
    let config = remote_config("libsql://h");
    let (attempts, delays, done) = drive(&config, 2, true, true);
    assert_eq!(attempts.len(), 3);
    assert_eq!(attempts[2], String::from("libsql://h"));
    assert_eq!(delays, 1);
    assert_eq!(done, InitAction::Done { remote: true });
}

#[test]
fn failed_initial_sync_is_not_fatal() {
    let config = remote_config("libsql://h");
    let (_, _, done) = drive(&config, 0, true, false);
    assert_eq!(done, InitAction::Done { remote: true });
}

#[test]
fn failing_local_open_aborts() {
    let config = InitConfig { url: None, auth_token: None };
    let (_, _, done) = drive(&config, 0, false, true);
    assert_eq!(done, InitAction::Abort);
}
