use hwwctl::client::{
    build_request, default_socket_path, response_exit_code, would_benefit_from_spawn, Cmd,
    ConnectErrorKind, EXIT_CLIENT_ERROR, EXIT_DAEMON_ERROR, EXIT_OK,
};
use hwwctl::output::{client_error_line, render_response};
use hwwctl::protocol::{
    BridgeStatsSnapshot, Error, ErrorCode, InstanceId, InstanceState, InstanceSummary, LogEntry,
    LogSource, PongInfo, Request, Response, Wallet, FALLBACK_SOCKET_PATH,
};

#[test]
fn default_socket_path_respects_env() {
    assert_eq!(
        default_socket_path(Some("/tmp/hwwctl-test-override.sock"), Some("/run/user/1000"), true),
        "/tmp/hwwctl-test-override.sock"
    );
}

#[test]
fn socket_path_fallbacks() {
    assert_eq!(default_socket_path(Some(""), Some("/run/user/1000"), true), "/run/user/1000/hwwctl.sock");
    assert_eq!(default_socket_path(None, Some("/run/user/1000/"), true), "/run/user/1000/hwwctl.sock");
    assert_eq!(default_socket_path(None, Some("/run/user/1000"), false), FALLBACK_SOCKET_PATH);
    assert_eq!(default_socket_path(None, Some(""), true), FALLBACK_SOCKET_PATH);
    assert_eq!(default_socket_path(None, None, true), "/tmp/hwwctl.sock");
}

#[test]
fn build_request_per_subcommand() {
    assert!(matches!(build_request(Cmd::Ping), Ok(Request::Ping)));
    assert!(matches!(build_request(Cmd::Shutdown), Ok(Request::Shutdown)));
    match build_request(Cmd::Start { wallet: Wallet::BitBox02, no_wait: true, timeout: Some(9) }) {
        Ok(Request::Start(s)) => {
            assert_eq!(s.wallet, Wallet::BitBox02);
            assert!(!s.wait_ready);
            assert_eq!(s.timeout_secs, Some(9));
        }
        other => panic!("unexpected {other:?}"),
    }
    match build_request(Cmd::Stop { instance: "bitbox02-a3f912".to_string() }) {
        Ok(Request::Stop(s)) => assert_eq!(s.instance.0, "bitbox02-a3f912"),
        other => panic!("unexpected {other:?}"),
    }
    match build_request(Cmd::Status { instance: None }) {
        Ok(Request::Status(s)) => assert!(s.instance.is_none()),
        other => panic!("unexpected {other:?}"),
    }
    assert_eq!(
        build_request(Cmd::Daemon { log_file: None }).unwrap_err(),
        "`daemon` is not a client subcommand"
    );
}

#[test]
fn exit_codes() {
    assert_eq!(response_exit_code(&Response::Stopped), EXIT_OK);
    let e = Response::Error(Error::new(ErrorCode::InstanceNotFound, "x"));
    assert_eq!(response_exit_code(&e), EXIT_DAEMON_ERROR);
    assert_eq!((EXIT_OK, EXIT_DAEMON_ERROR, EXIT_CLIENT_ERROR), (0, 1, 2));
}

#[test]
fn spawn_only_when_nothing_listens() {
    assert!(would_benefit_from_spawn(ConnectErrorKind::ConnectionRefused));
    assert!(would_benefit_from_spawn(ConnectErrorKind::NotFound));
    assert!(!would_benefit_from_spawn(ConnectErrorKind::Other));
}

fn summary() -> InstanceSummary {
    InstanceSummary {
        instance: InstanceId::new("bitbox02-a3f912"),
        wallet: Wallet::BitBox02,
        state: InstanceState::Running,
        vid: 0x03EB,
        pid: 0x2403,
        serial: "hwwctl-bb02-a3f912".into(),
        hidraw: None,
        transport: "tcp 127.0.0.1:15423".into(),
        error: None,
    }
}

#[test]
fn render_started_summary() {
    let r = render_response(&Response::Started(summary()));
    assert_eq!(
        r.stdout,
        vec![
            "started bitbox02-a3f912",
            "  instance  bitbox02-a3f912",
            "  wallet    bitbox02",
            "  state     Running",
            "  vid       0x03eb",
            "  pid       0x2403",
            "  serial    hwwctl-bb02-a3f912",
            "  transport tcp 127.0.0.1:15423",
        ]
    );
    assert!(r.stderr.is_empty());
}

#[test]
fn render_status_blocks() {
    let mut s = summary();
    s.hidraw = Some("/dev/hidraw3".into());
    s.state = InstanceState::Error;
    s.error = Some("bridge died".into());
    let r = render_response(&Response::Status { instances: vec![s] });
    assert_eq!(r.stdout[5], "  serial    hwwctl-bb02-a3f912");
    assert_eq!(r.stdout[6], "  hidraw    /dev/hidraw3");
    assert_eq!(r.stdout[2], "  state     Error");
    assert_eq!(r.stdout[8], "  error     bridge died");
    assert_eq!(r.stdout[9], "");
    assert_eq!(r.stdout.len(), 10);
    let empty = render_response(&Response::Status { instances: vec![] });
    assert_eq!(empty.stdout, vec!["(no instances)"]);
}

#[test]
fn render_simple_responses() {
    let pong = Response::Pong(PongInfo { daemon_version: "0.1.0".into(), protocol_version: 1, pid: 4242 });
    assert_eq!(render_response(&pong).stdout, vec!["daemon ok  version=0.1.0  proto=1  pid=4242"]);
    assert_eq!(render_response(&Response::Stopped).stdout, vec!["stopped"]);
    assert_eq!(render_response(&Response::ShuttingDown).stdout, vec!["daemon is shutting down"]);
    let e = render_response(&Response::Error(Error::new(ErrorCode::InstanceNotFound, "no instance with id 'x'")));
    assert!(e.stdout.is_empty());
    assert_eq!(e.stderr, vec!["error [InstanceNotFound]: no instance with id 'x'"]);
    assert_eq!(client_error_line("bad arguments: nope"), "hwwctl: bad arguments: nope");
}

#[test]
fn render_logs_and_stats() {
    let entries = vec![
        LogEntry {
            ts_ms: 12,
            source: LogSource::Bridge,
            message: String::new(),
            direction: "h2d".into(),
            raw_hex: "0a0b".into(),
        },
        LogEntry {
            ts_ms: 123456789,
            source: LogSource::Emulator,
            message: "ready".into(),
            direction: String::new(),
            raw_hex: String::new(),
        },
    ];
    let r = render_response(&Response::Logs { entries });
    assert_eq!(r.stdout, vec!["        12ms  br   h2d 0a0b", "  123456789ms  emu  ready"]);
    assert_eq!(render_response(&Response::Logs { entries: vec![] }).stdout, vec!["(no log entries)"]);
    let stats = BridgeStatsSnapshot {
        instance: InstanceId::new("bitbox02-a3f912"),
        host_to_device_reports: 3,
        host_to_device_bytes: 192,
        device_to_host_reports: 1234567,
        device_to_host_bytes: 0,
    };
    assert_eq!(
        render_response(&Response::BridgeStats(stats)).stdout,
        vec![
            "  instance         bitbox02-a3f912",
            "  host → device         3 reports       192 bytes",
            "  device → host    1234567 reports         0 bytes",
        ]
    );
}
