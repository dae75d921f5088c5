use http::header::{HeaderMap, HeaderValue};
use std::ops::ControlFlow;
use via::error::{Error, IoErrorKind, SourceChain};
use via::guard::ErrorKind;
use via::ws::{
    already_closed, relay, rescue, run_outcome, sha1, ws, Action, Event, ResultExt, RunOutcome,
    Stage, UpgradeError, WebSocketError, WsConfig, DEFAULT_FRAME_SIZE,
};

fn handshake(pairs: &[(&'static str, &'static str)]) -> HeaderMap {
    let mut map = HeaderMap::new();
    for (name, value) in pairs {
        map.append(*name, HeaderValue::from_static(value));
    }
    map
}

#[test]
fn accept_key_of_the_rfc_example() {
    let digest = sha1(b"dGhlIHNhbXBsZSBub25jZQ==").ok().unwrap();
    assert_eq!(digest.as_str(), "s3pPLMBiTxaQ9kYGzzhZRbK+xOo=");
}

#[test]
fn accept_key_refuses_non_ascii() {
    assert!(matches!(sha1("clé".as_bytes()), Err(UpgradeError::InvalidAcceptEncoding)));
}

#[test]
fn verify_accepts_a_valid_handshake() {
    let upgrade = ws(());
    let headers = handshake(&[
        ("sec-websocket-version", "13"),
        ("connection", "keep-alive, Upgrade"),
        ("upgrade", "websocket"),
        ("sec-websocket-key", "dGhlIHNhbXBsZSBub25jZQ=="),
    ]);
    assert_eq!(upgrade.verify(&headers).ok().unwrap().as_str(), "s3pPLMBiTxaQ9kYGzzhZRbK+xOo=");
}

#[test]
fn verify_reports_the_failed_check() {
    let upgrade = ws(());
    let bad_version = handshake(&[
        ("sec-websocket-version", "12"),
        ("connection", "upgrade"),
        ("upgrade", "websocket"),
    ]);
    assert!(matches!(upgrade.verify(&bad_version), Err(UpgradeError::UnknownVersion)));
    let bad_connection = handshake(&[
        ("sec-websocket-version", "13"),
        ("connection", "close"),
        ("upgrade", "websocket"),
    ]);
    assert!(matches!(upgrade.verify(&bad_connection), Err(UpgradeError::InvalidConnectionHeader)));
    let bad_upgrade = handshake(&[
        ("sec-websocket-version", "13"),
        ("connection", "upgrade"),
        ("upgrade", "h2c"),
    ]);
    assert!(matches!(upgrade.verify(&bad_upgrade), Err(UpgradeError::InvalidUpgradeHeader)));
    let no_key = handshake(&[
        ("sec-websocket-version", "13"),
        ("connection", "upgrade"),
        ("upgrade", "websocket"),
    ]);
    assert!(matches!(upgrade.verify(&no_key), Err(UpgradeError::MissingAcceptKey)));
}

#[test]
fn upgrade_errors_have_messages() {
    assert_eq!(
        UpgradeError::UnknownVersion.message(),
        "\"sec-websocket-version\" must be \"13\"."
    );
    assert_eq!(
        UpgradeError::MissingAcceptKey.message(),
        "missing required header: \"sec-websocket-key\"."
    );
    assert_eq!(
        UpgradeError::Unsupported.message(),
        "connection does not support websocket upgrades."
    );
    assert_eq!(
        UpgradeError::InvalidAcceptEncoding.message(),
        "header \"sec-websocket-key\" must be base64 encoded."
    );
}

#[test]
fn guard_failures_become_upgrade_errors() {
    let connection = UpgradeError::from(ErrorKind::Header("connection".to_owned()));
    assert!(matches!(connection, UpgradeError::InvalidConnectionHeader));
    let upgrade = UpgradeError::from(ErrorKind::Header("upgrade".to_owned()));
    assert!(matches!(upgrade, UpgradeError::InvalidUpgradeHeader));
    assert!(matches!(UpgradeError::from(ErrorKind::Match), UpgradeError::UnknownVersion));
}

#[test]
fn config_defaults_and_builders() {
    let config = WsConfig::default();
    assert_eq!(config.buffer_size, DEFAULT_FRAME_SIZE);
    assert_eq!(config.max_frame_size, Some(16384));
    assert_eq!(config.write_buffer_size(), Some(32768));
    let upgrade = ws(()).buffer_size(1024).max_frame_size(None).max_message_size(Some(100));
    assert_eq!(upgrade.config().buffer_size, 1024);
    assert_eq!(upgrade.config().max_frame_size, None);
    assert_eq!(upgrade.config().write_buffer_size(), Some(200));
    let unlimited = ws(()).max_message_size(None);
    assert_eq!(unlimited.config().write_buffer_size(), None);
    let huge = ws(()).max_message_size(Some(usize::MAX));
    assert_eq!(huge.config().write_buffer_size(), None);
}

#[test]
fn rescue_reconnects_on_transient_io_errors() {
    let interrupted = WebSocketError { io: Some(IoErrorKind::Interrupted), source: SourceChain::single("i") };
    assert!(matches!(rescue(interrupted), ControlFlow::Continue(_)));
    let timed_out = WebSocketError { io: Some(IoErrorKind::TimedOut), source: SourceChain::single("t") };
    assert!(matches!(rescue(timed_out), ControlFlow::Continue(_)));
    let reset = WebSocketError { io: Some(IoErrorKind::ConnectionReset), source: SourceChain::single("r") };
    match rescue(reset) {
        ControlFlow::Break(error) => {
            assert_eq!(error.status(), 500);
            assert_eq!(error.message(), "r");
        }
        ControlFlow::Continue(_) => panic!("expected the connection to close"),
    }
    let protocol = WebSocketError { io: None, source: SourceChain::single("p") };
    assert!(matches!(rescue(protocol), ControlFlow::Break(_)));
}

#[test]
fn already_closed_closes_the_connection() {
    match already_closed() {
        ControlFlow::Break(error) => {
            assert_eq!(error.message(), "Trying to work with closed connection");
            assert_eq!(error.status(), 500);
        }
        ControlFlow::Continue(_) => panic!("expected a break"),
    }
}

#[test]
fn result_ext_chooses_close_or_reconnect() {
    let failed: Result<(), Error> = Err(Error::new("x"));
    assert!(matches!(failed.or_close(), Err(ControlFlow::Break(_))));
    let failed: Result<(), Error> = Err(Error::new("y"));
    assert!(matches!(failed.or_reconnect(), Err(ControlFlow::Continue(_))));
    let fine: Result<u8, Error> = Ok(1);
    assert!(matches!(fine.or_close(), Ok(1)));
}

#[test]
fn relay_receives_delivers_and_sends() {
    let stage: Stage<&str> = Stage::start();
    let (stage, action) = relay(stage, Event::Resume);
    assert!(matches!(action, Action::CheckCapacity));
    let (stage, action) = relay(stage, Event::Capacity(true));
    assert!(matches!(action, Action::PollStream));
    let (stage, action) = relay(stage, Event::StreamItem("ping"));
    assert!(matches!(action, Action::Deliver("ping")));
    let (stage, action) = relay(stage, Event::Delivered);
    assert!(matches!(action, Action::PollListener));
    let (stage, action) = relay(stage, Event::ListenerPending);
    assert!(matches!(action, Action::TryRecv));
    let (stage, action) = relay(stage, Event::Received(Some("pong")));
    assert!(matches!(action, Action::PollReady));
    let (stage, action) = relay(stage, Event::SinkPending);
    assert!(matches!(action, Action::Yield));
    let (stage, action) = relay(stage, Event::Resume);
    assert!(matches!(action, Action::PollReady));
    let (stage, action) = relay(stage, Event::SinkReady);
    assert!(matches!(action, Action::StartSend("pong")));
    let (stage, action) = relay(stage, Event::Sent);
    assert!(matches!(action, Action::PollFlush));
    let (stage, action) = relay(stage, Event::Flushed);
    assert!(matches!(action, Action::CheckCapacity));
    let (stage, action) = relay(stage, Event::Capacity(false));
    assert!(matches!(action, Action::PollListener));
    let (_, action) = relay(stage, Event::ListenerDone);
    assert!(matches!(action, Action::Finish(Ok(()))));
}

#[test]
fn relay_ends_on_failure_and_stream_end() {
    let (stage, _) = relay(Stage::<u8>::start(), Event::Capacity(true));
    let (stage, action) = relay(stage, Event::StreamEnd);
    assert!(matches!(action, Action::Finish(Ok(()))));
    assert!(matches!(stage, Stage::Done));
    let (stage, action) = relay(Stage::<u8>::start(), Event::Failed(already_closed()));
    assert!(matches!(action, Action::Finish(Err(ControlFlow::Break(_)))));
    assert!(matches!(stage, Stage::Done));
}

#[test]
fn run_outcome_reconnects_on_continue() {
    assert!(matches!(run_outcome(Ok(())), RunOutcome::Complete(Ok(()))));
    assert!(matches!(
        run_outcome(Err(ControlFlow::Continue(Error::new("again")))),
        RunOutcome::Reconnect
    ));
    assert!(matches!(
        run_outcome(Err(ControlFlow::Break(Error::new("stop")))),
        RunOutcome::Complete(Err(_))
    ));
}

#[test]
fn try_verify_checks_a_handshake() {
    let upgrade = ws(());
    let headers = handshake(&[
        ("sec-websocket-version", "13"),
        ("connection", "Upgrade"),
        ("upgrade", "websocket"),
        ("sec-websocket-key", "dGhlIHNhbXBsZSBub25jZQ=="),
    ]);
    let verified = upgrade.try_verify(&headers).unwrap();
    assert_eq!(verified.ok().unwrap().as_str(), "s3pPLMBiTxaQ9kYGzzhZRbK+xOo=");
    let no_key = handshake(&[
        ("sec-websocket-version", "13"),
        ("connection", "Upgrade"),
        ("upgrade", "websocket"),
    ]);
    assert!(matches!(upgrade.try_verify(&no_key), Some(Err(UpgradeError::MissingAcceptKey))));
}
