use hwwctl::daemon::{dispatch, is_shutdown, started_response, Dispatched};
use hwwctl::logs::{collect_logs, BridgeLog};
use hwwctl::protocol::{
    BridgeStatsRequest, ErrorCode, InstanceId, InstanceState, LogSource, LogsRequest, Request,
    Response, StartRequest, StatusRequest, StopRequest, Wallet, PROTOCOL_VERSION,
};
use hwwctl::registry::{internal, BridgeStatsCounters, Instance, Registry};
use hwwctl::spawn::{
    begin_start, AllocationRefused, BundleLookup, EmulatorStatus, WalletHidConfig, HIDRAW_SETTLE_TIMEOUT_MS,
};

fn instance(id: &str) -> Instance {
    Instance {
        id: InstanceId::new(id),
        wallet: Wallet::BitBox02,
        state: InstanceState::Running,
        vid: 0x03EB,
        pid: 0x2403,
        serial: format!("hwwctl-bb02-{}", &id[9..]),
        hidraw: None,
        transport: "tcp 127.0.0.1:15423".to_string(),
        error: None,
    }
}

fn ids_of(list: &[hwwctl::protocol::InstanceSummary]) -> Vec<String> {
    list.iter().map(|s| s.instance.0.clone()).collect()
}

#[test]
fn status_lists_recorded_instances() {
    let mut r = Registry::new();
    r.insert(instance("bitbox02-aaaaaa"));
    r.insert(instance("bitbox02-bbbbbb"));
    let all = r.status(&None).unwrap();
    assert_eq!(ids_of(&all), vec!["bitbox02-aaaaaa", "bitbox02-bbbbbb"]);
    let one = r.status(&Some(InstanceId::new("bitbox02-bbbbbb"))).unwrap();
    assert_eq!(ids_of(&one), vec!["bitbox02-bbbbbb"]);
    assert_eq!(one[0].vid, 0x03EB);
    assert_eq!(one[0].serial, "hwwctl-bb02-bbbbbb");
}

#[test]
fn status_of_unknown_id_is_not_found() {
    let r = Registry::new();
    let e = r.status(&Some(InstanceId::new("bitbox02-zzzzzz"))).unwrap_err();
    assert_eq!(e.code, ErrorCode::InstanceNotFound);
    assert_eq!(e.message, "no instance with id 'bitbox02-zzzzzz'");
}

#[test]
fn stop_is_idempotent() {
    let mut r = Registry::new();
    r.insert(instance("bitbox02-aaaaaa"));
    r.insert(instance("bitbox02-bbbbbb"));
    let id = InstanceId::new("bitbox02-aaaaaa");
    let stopped = r.stop(&id).unwrap();
    assert_eq!(stopped.state, InstanceState::Stopping);
    assert_eq!(stopped.id.0, "bitbox02-aaaaaa");
    assert!(r.stop(&id).is_none());
    assert_eq!(r.len(), 1);
    assert_eq!(r.status(&Some(id)).unwrap_err().code, ErrorCode::InstanceNotFound);
}

#[test]
fn insert_replaces_same_id() {
    let mut r = Registry::new();
    r.insert(instance("bitbox02-aaaaaa"));
    let mut again = instance("bitbox02-aaaaaa");
    again.transport = "tcp 127.0.0.1:1".to_string();
    r.insert(again);
    let all = r.status(&None).unwrap();
    assert_eq!(all.len(), 1);
    assert_eq!(all[0].transport, "tcp 127.0.0.1:1");
}

#[test]
fn shutdown_stops_everything_once() {
    let mut r = Registry::new();
    r.insert(instance("bitbox02-aaaaaa"));
    r.insert(instance("bitbox02-bbbbbb"));
    let down = r.shutdown();
    assert_eq!(down.len(), 2);
    assert!(down.iter().all(|i| i.state == InstanceState::Stopping));
    assert_eq!(r.len(), 0);
    assert!(r.shutdown().is_empty());
}

#[test]
fn internal_error() {
    let e = internal("registry dropped reply");
    assert_eq!(e.code, ErrorCode::Internal);
    assert_eq!(e.message, "registry dropped reply");
}

#[test]
fn bridge_stats_snapshot_copies_counters() {
    let c = BridgeStatsCounters {
        host_to_device_reports: 3,
        host_to_device_bytes: 192,
        device_to_host_reports: 4,
        device_to_host_bytes: 256,
    };
    let s = c.snapshot(&InstanceId::new("bitbox02-aaaaaa"));
    assert_eq!(s.instance.0, "bitbox02-aaaaaa");
    assert_eq!(
        (s.host_to_device_reports, s.host_to_device_bytes, s.device_to_host_reports, s.device_to_host_bytes),
        (3, 192, 4, 256)
    );
}

fn report(ts: u64, dir: &str, hex: &str) -> BridgeLog {
    BridgeLog { ts_ms: ts, direction: dir.to_string(), raw_hex: hex.to_string() }
}

#[test]
fn logs_merge_in_stable_timestamp_order() {
    let emu = vec!["boot".to_string(), "ready".to_string()];
    let br = vec![report(10, "h2d", "aa"), report(50, "d2h", "bb"), report(30, "h2d", "cc"), report(30, "d2h", "dd")];
    let out = collect_logs(&emu, 30, &br, LogSource::All, None);
    let got: Vec<(u64, String)> = out
        .iter()
        .map(|e| (e.ts_ms, if e.source == LogSource::Bridge { e.raw_hex.clone() } else { e.message.clone() }))
        .collect();
    assert_eq!(
        got,
        vec![
            (0, "boot".to_string()),
            (10, "aa".to_string()),
            (30, "ready".to_string()),
            (30, "cc".to_string()),
            (30, "dd".to_string()),
            (50, "bb".to_string()),
        ]
    );
    assert_eq!(out[0].source, LogSource::Emulator);
    assert_eq!(out[0].direction, "");
    assert_eq!(out[1].direction, "h2d");
    assert_eq!(out[1].message, "");
}

#[test]
fn emulator_lines_spread_over_elapsed_time() {
    let emu: Vec<String> = ["a", "b", "c", "d", "e"].iter().map(|s| s.to_string()).collect();
    let out = collect_logs(&emu, 100, &vec![], LogSource::Emulator, None);
    let stamps: Vec<u64> = out.iter().map(|e| e.ts_ms).collect();
    assert_eq!(stamps, vec![0, 25, 50, 75, 100]);
    let one = collect_logs(&vec!["x".to_string()], 42, &vec![], LogSource::All, None);
    assert_eq!(one[0].ts_ms, 42);
    let big = collect_logs(&vec!["x".to_string(), "y".to_string()], u64::MAX, &vec![], LogSource::All, None);
    assert_eq!((big[0].ts_ms, big[1].ts_ms), (0, u64::MAX));
}

#[test]
fn logs_filter_by_source_and_tail() {
    let emu = vec!["a".to_string(), "b".to_string(), "c".to_string()];
    let br = vec![report(1, "h2d", "00")];
    assert_eq!(collect_logs(&emu, 5, &br, LogSource::Emulator, None).len(), 3);
    let only_bridge = collect_logs(&emu, 5, &br, LogSource::Bridge, None);
    assert_eq!(only_bridge.len(), 1);
    assert_eq!(only_bridge[0].raw_hex, "00");
    let tail = collect_logs(&emu, 5, &br, LogSource::All, Some(2));
    let msgs: Vec<&str> = tail.iter().map(|e| e.message.as_str()).collect();
    assert_eq!(msgs, vec!["b", "c"]);
    assert_eq!(collect_logs(&emu, 5, &br, LogSource::All, Some(10)).len(), 4);
    assert!(collect_logs(&emu, 5, &br, LogSource::All, Some(0)).is_empty());
}

const CFG: WalletHidConfig = WalletHidConfig { vid: 0x03EB, pid: 0x2403, startup_timeout_secs: 30 };

fn start_req(wallet: Wallet, wait_ready: bool, timeout_secs: Option<u64>) -> StartRequest {
    StartRequest { wallet, wait_ready, timeout_secs }
}

#[test]
fn start_refuses_unwired_wallets() {
    let e = begin_start(start_req(Wallet::Trezor, true, None), CFG).unwrap_err();
    assert_eq!(e.code, ErrorCode::WalletUnsupported);
    assert_eq!(
        e.message,
        "trezor is not wired into the daemon yet — currently only `bitbox02` is supported"
    );
}

#[test]
fn start_bundle_errors() {
    let s = begin_start(start_req(Wallet::BitBox02, true, None), CFG).unwrap();
    let e = s.bundle_located(BundleLookup::NotInstalled).unwrap_err();
    assert_eq!(e.code, ErrorCode::BundleMissing);
    assert_eq!(
        e.message,
        "BitBox02 simulator bundle is not installed. Run `just bundle-install bitbox02` or download it via the TUI."
    );
    let s = begin_start(start_req(Wallet::BitBox02, true, None), CFG).unwrap();
    let e = s
        .bundle_located(BundleLookup::Found { bin_path: "/b/sim".to_string(), exists: false })
        .unwrap_err();
    assert_eq!(e.code, ErrorCode::BundleMissing);
    assert_eq!(
        e.message,
        "BitBox02 simulator binary not found at /b/sim — bundle manifest references a missing file, reinstall the bundle."
    );
    let s = begin_start(start_req(Wallet::BitBox02, true, None), CFG).unwrap();
    let e = s.bundle_located(BundleLookup::ManagerFailed("no home".to_string())).unwrap_err();
    assert_eq!(e.code, ErrorCode::Internal);
    assert_eq!(e.message, "no home");
}

#[test]
fn start_resource_and_launch_errors() {
    let s = begin_start(start_req(Wallet::BitBox02, true, None), CFG)
        .unwrap()
        .bundle_located(BundleLookup::Found { bin_path: "/b/sim".to_string(), exists: true })
        .unwrap();
    let e = match s.resources_allocated(0, Err("no ports".to_string()), &Registry::new()) {
        Err(AllocationRefused::Failed(e)) => e,
        other => panic!("unexpected {other:?}"),
    };
    assert_eq!(e.code, ErrorCode::ResourceExhausted);
    assert_eq!(e.message, "could not find a free TCP port for the simulator: no ports");

    let s = begin_start(start_req(Wallet::BitBox02, true, None), CFG)
        .unwrap()
        .bundle_located(BundleLookup::Found { bin_path: "/b/sim".to_string(), exists: true })
        .unwrap()
        .resources_allocated(0xA3F912, Ok(15423), &Registry::new())
        .unwrap();
    let e = s.profile_dir_created(Err("denied".to_string())).unwrap_err();
    assert_eq!(e.code, ErrorCode::Internal);
    assert_eq!(e.message, "could not create profile dir /tmp/hwwctl-bitbox02-a3f912: denied");
}

#[test]
fn start_full_sequence_records_instance() {
    let mut reg = Registry::new();
    let s = begin_start(start_req(Wallet::BitBox02, true, Some(7)), CFG)
        .unwrap()
        .bundle_located(BundleLookup::Found { bin_path: "/b/sim".to_string(), exists: true })
        .unwrap()
        .resources_allocated(0xFFA3F912, Ok(15423), &reg)
        .unwrap();
    assert_eq!(s.id.0, "bitbox02-a3f912");
    assert_eq!(s.serial, "hwwctl-bb02-a3f912");
    assert_eq!(s.profile_dir, "/tmp/hwwctl-bitbox02-a3f912");
    let s = s.profile_dir_created(Ok(())).unwrap();
    assert_eq!(s.timeout_secs, 7);
    assert_eq!(s.port, 15423);
    let s = s.emulator_started(Ok(())).unwrap();
    let s = s.emulator_checked(EmulatorStatus::Running).unwrap();
    let s = s.bridge_started(Ok(())).unwrap();
    assert!(s.scan_hidraw);
    let summary = s.finish(Some("/dev/hidraw4".to_string()), &mut reg).unwrap();
    assert_eq!(summary.instance.0, "bitbox02-a3f912");
    assert_eq!(summary.state, InstanceState::Running);
    assert_eq!(summary.transport, "tcp 127.0.0.1:15423");
    assert_eq!(summary.hidraw.as_deref(), Some("/dev/hidraw4"));
    assert_eq!((summary.vid, summary.pid), (0x03EB, 0x2403));
    let listed = reg.status(&Some(InstanceId::new("bitbox02-a3f912"))).unwrap();
    assert_eq!(listed[0].serial, "hwwctl-bb02-a3f912");
    assert_eq!(HIDRAW_SETTLE_TIMEOUT_MS, 3000);
}

#[test]
fn start_default_timeout_and_no_wait() {
    let mut reg = Registry::new();
    let s = begin_start(start_req(Wallet::BitBox02, false, None), CFG)
        .unwrap()
        .bundle_located(BundleLookup::Found { bin_path: "/b/sim".to_string(), exists: true })
        .unwrap()
        .resources_allocated(1, Ok(80), &reg)
        .unwrap()
        .profile_dir_created(Ok(()))
        .unwrap();
    assert_eq!(s.timeout_secs, 30);
    let s = s.emulator_started(Ok(())).unwrap().emulator_checked(EmulatorStatus::Running).unwrap();
    let s = s.bridge_started(Ok(())).unwrap();
    assert!(!s.scan_hidraw);
    let summary = s.finish(Some("/dev/hidraw9".to_string()), &mut reg).unwrap();
    assert_eq!(summary.instance.0, "bitbox02-000001");
    assert_eq!(summary.transport, "tcp 127.0.0.1:80");
    assert!(summary.hidraw.is_none());
}

#[test]
fn start_failures_after_launch() {
    let launched = || {
        begin_start(start_req(Wallet::BitBox02, true, None), CFG)
            .unwrap()
            .bundle_located(BundleLookup::Found { bin_path: "/b/sim".to_string(), exists: true })
            .unwrap()
            .resources_allocated(1, Ok(80), &Registry::new())
            .unwrap()
            .profile_dir_created(Ok(()))
            .unwrap()
    };
    let e = launched().emulator_started(Err("exec format error".to_string())).unwrap_err();
    assert_eq!(e.code, ErrorCode::SpawnFailed);
    assert_eq!(e.message, "BitBox02 simulator failed to start: exec format error");

    let f = launched()
        .emulator_started(Ok(()))
        .unwrap()
        .emulator_checked(EmulatorStatus::Error("timed out".to_string()))
        .unwrap_err();
    assert!(f.stop_emulator && !f.stop_bridge);
    assert_eq!(f.error.code, ErrorCode::StartupTimeout);
    assert_eq!(f.error.message, "BitBox02 simulator never became reachable: timed out");

    let f = launched()
        .emulator_started(Ok(()))
        .unwrap()
        .emulator_checked(EmulatorStatus::Other("stopped".to_string()))
        .unwrap_err();
    assert!(f.stop_emulator);
    assert_eq!(f.error.code, ErrorCode::Internal);
    assert_eq!(f.error.message, "BitBox02 simulator in unexpected state after start: stopped");

    let f = launched()
        .emulator_started(Ok(()))
        .unwrap()
        .emulator_checked(EmulatorStatus::Running)
        .unwrap()
        .bridge_started(Err("EACCES".to_string()))
        .unwrap_err();
    assert!(f.stop_emulator);
    assert_eq!(f.error.code, ErrorCode::BridgeFailed);
    assert_eq!(
        f.error.message,
        "UHID bridge for BitBox02 failed to start: EACCES. Common cause: /dev/uhid is not writable (run `just setup-udev` once, or check group membership)."
    );
}

#[test]
fn dispatch_answers_each_request() {
    let mut reg = Registry::new();
    reg.insert(instance("bitbox02-aaaaaa"));

    match dispatch(Request::Ping, &mut reg, "0.1.0", 42) {
        Dispatched::Reply { response: Response::Pong(info), teardown } => {
            assert_eq!(info.daemon_version, "0.1.0");
            assert_eq!(info.protocol_version, PROTOCOL_VERSION);
            assert_eq!(info.pid, 42);
            assert!(teardown.is_empty());
        }
        other => panic!("unexpected {other:?}"),
    }

    let start = Request::Start(start_req(Wallet::BitBox02, true, None));
    assert!(matches!(dispatch(start, &mut reg, "0.1.0", 42), Dispatched::Start(_)));

    let status = Request::Status(StatusRequest { instance: None });
    match dispatch(status, &mut reg, "0.1.0", 42) {
        Dispatched::Reply { response: Response::Status { instances }, .. } => {
            assert_eq!(ids_of(&instances), vec!["bitbox02-aaaaaa"])
        }
        other => panic!("unexpected {other:?}"),
    }

    let logs = Request::Logs(LogsRequest {
        instance: InstanceId::new("bitbox02-aaaaaa"),
        source: LogSource::All,
        tail: None,
    });
    assert!(matches!(dispatch(logs, &mut reg, "0.1.0", 42), Dispatched::Logs(_)));
    let stats = Request::BridgeStats(BridgeStatsRequest { instance: InstanceId::new("nope") });
    match dispatch(stats, &mut reg, "0.1.0", 42) {
        Dispatched::Reply { response: Response::Error(e), .. } => {
            assert_eq!(e.code, ErrorCode::InstanceNotFound);
            assert_eq!(e.message, "no instance with id 'nope'");
        }
        other => panic!("unexpected {other:?}"),
    }

    let stop = |id: &str| Request::Stop(StopRequest { instance: InstanceId::new(id) });
    match dispatch(stop("bitbox02-aaaaaa"), &mut reg, "0.1.0", 42) {
        Dispatched::Reply { response: Response::Stopped, teardown } => assert_eq!(teardown.len(), 1),
        other => panic!("unexpected {other:?}"),
    }
    match dispatch(stop("bitbox02-aaaaaa"), &mut reg, "0.1.0", 42) {
        Dispatched::Reply { response: Response::Stopped, teardown } => assert!(teardown.is_empty()),
        other => panic!("unexpected {other:?}"),
    }

    reg.insert(instance("bitbox02-cccccc"));
    assert!(is_shutdown(&Request::Shutdown));
    assert!(!is_shutdown(&Request::Ping));
    match dispatch(Request::Shutdown, &mut reg, "0.1.0", 42) {
        Dispatched::Reply { response: Response::ShuttingDown, teardown } => assert_eq!(teardown.len(), 1),
        other => panic!("unexpected {other:?}"),
    }
    assert_eq!(reg.len(), 0);
}

#[test]
fn started_response_maps_outcome() {
    assert!(matches!(
        started_response(Err(internal("boom"))),
        Response::Error(e) if e.message == "boom"
    ));
    let summary = instance("bitbox02-aaaaaa").summary();
    assert!(matches!(started_response(Ok(summary)), Response::Started(_)));
}

#[test]
fn start_refuses_a_suffix_already_in_use() {
    let mut reg = Registry::new();
    reg.insert(instance("bitbox02-a3f912"));
    let stage = begin_start(start_req(Wallet::BitBox02, false, None), CFG)
        .unwrap()
        .bundle_located(BundleLookup::Found { bin_path: "/b/sim".to_string(), exists: true })
        .unwrap();
    let stage = match stage.resources_allocated(0xA3F912, Ok(80), &reg) {
        Err(AllocationRefused::SuffixTaken(back)) => back,
        other => panic!("unexpected {other:?}"),
    };
    let s = stage.resources_allocated(0xA3F913, Ok(80), &reg).unwrap();
    assert_eq!(s.id.0, "bitbox02-a3f913");
    assert_eq!(s.serial, "hwwctl-bb02-a3f913");
}

#[test]
fn finish_never_replaces_a_running_instance() {
    let mut reg = Registry::new();
    let ready = begin_start(start_req(Wallet::BitBox02, false, None), CFG)
        .unwrap()
        .bundle_located(BundleLookup::Found { bin_path: "/b/sim".to_string(), exists: true })
        .unwrap()
        .resources_allocated(0xA3F912, Ok(80), &reg)
        .unwrap()
        .profile_dir_created(Ok(()))
        .unwrap()
        .emulator_started(Ok(()))
        .unwrap()
        .emulator_checked(EmulatorStatus::Running)
        .unwrap()
        .bridge_started(Ok(()))
        .unwrap();
    let mut other = instance("bitbox02-a3f912");
    other.transport = "tcp 127.0.0.1:1".to_string();
    reg.insert(other);
    let f = ready.finish(None, &mut reg).unwrap_err();
    assert!(f.stop_emulator && f.stop_bridge);
    assert_eq!(f.error.code, ErrorCode::Internal);
    assert_eq!(f.error.message, "instance id bitbox02-a3f912 is already in use");
    let all = reg.status(&None).unwrap();
    assert_eq!(all.len(), 1);
    assert_eq!(all[0].transport, "tcp 127.0.0.1:1");
}
