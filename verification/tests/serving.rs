use std::time::Duration;
use via::server::{
    check_path, exit_code, AcceptAction, AcceptEvent, AcceptLoop, Exit, Server, ServerConfig,
};

#[test]
fn server_defaults() {
    let config = ServerConfig::default();
    assert!(config.keep_alive());
    assert_eq!(config.max_buf_size(), 16384);
    assert_eq!(config.max_connections(), 1000);
    assert_eq!(config.max_request_size(), 104_857_600);
    assert_eq!(config.shutdown_timeout(), Duration::from_secs(10));
}

#[test]
fn server_builders_set_the_config() {
    let server = Server::new("app")
        .keep_alive(false)
        .max_buf_size(1)
        .max_connections(2)
        .max_request_size(3)
        .shutdown_timeout(Duration::from_secs(4));
    let (app, config) = server.into_parts();
    assert_eq!(app, "app");
    assert!(!config.keep_alive());
    assert_eq!(config.max_buf_size(), 1);
    assert_eq!(config.max_connections(), 2);
    assert_eq!(config.max_request_size(), 3);
    assert_eq!(config.shutdown_timeout(), Duration::from_secs(4));
}

#[test]
fn long_paths_are_refused() {
    assert!(check_path(&"a".repeat(8192)).is_ok());
    let error = check_path(&"a".repeat(8193)).unwrap_err();
    assert_eq!(error.status(), 414);
    assert_eq!(error.message(), "path exceeds the maximum allowed length of 8 KB");
}

#[test]
fn accept_loop_hands_off_full_batches() {
    let mut accept = AcceptLoop::new();
    for _ in 0..1023 {
        assert!(matches!(
            accept.step(AcceptEvent::Accepted { permit: true }),
            AcceptAction::Serve { drain: false }
        ));
    }
    assert!(matches!(
        accept.step(AcceptEvent::Accepted { permit: true }),
        AcceptAction::Serve { drain: true }
    ));
    assert!(matches!(
        accept.step(AcceptEvent::Accepted { permit: true }),
        AcceptAction::Serve { drain: false }
    ));
    assert!(matches!(accept.step(AcceptEvent::Accepted { permit: false }), AcceptAction::Reject));
}

#[test]
fn accept_loop_exit_codes() {
    let mut accept = AcceptLoop::new();
    assert!(matches!(accept.step(AcceptEvent::Failed(Some(104))), AcceptAction::Accept));
    assert!(matches!(accept.step(AcceptEvent::Failed(None)), AcceptAction::Accept));
    for code in [12, 23, 24] {
        assert!(matches!(
            accept.step(AcceptEvent::Failed(Some(code))),
            AcceptAction::Stop(Exit::Failure)
        ));
    }
    assert!(matches!(accept.step(AcceptEvent::Shutdown), AcceptAction::Stop(Exit::Success)));
    assert!(matches!(exit_code(Exit::Success, true), Exit::Success));
    assert!(matches!(exit_code(Exit::Success, false), Exit::Failure));
}

#[test]
fn no_more_than_the_maximum_is_served_at_once() {
    let max = 2usize;
    let mut accept = AcceptLoop::new();
    let mut active = 0usize;
    for arrives in [true, true, true, false, true, true] {
        if arrives {
            match accept.step(AcceptEvent::Accepted { permit: active < max }) {
                AcceptAction::Serve { .. } => active += 1,
                AcceptAction::Reject => {}
                _ => panic!("unexpected action"),
            }
        } else {
            active -= 1;
        }
        assert!(active <= max);
    }
    assert_eq!(active, 2);
}
