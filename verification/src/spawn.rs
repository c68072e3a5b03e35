//! The start sequence of an emulator instance. Starting alternates work
//! outside the library (looking up the bundle, picking a port, creating
//! the profile directory, launching the simulator and its UHID bridge,
//! scanning for the hidraw node) with decisions. Each stage below is a
//! state: the caller does the stage's outside work and hands its outcome
//! to the stage's method, which decides the error to answer or the next
//! stage and what it needs. Only BitBox02 is wired into the daemon.

use vstd::prelude::*;
use vstd::string::*;
use crate::protocol::{
    wallet_name, Error, ErrorCode, InstanceId, InstanceState, InstanceSummary, StartRequest, Wallet,
};
use crate::registry::{has_id, has_serial, removed, summary_of, Instance, Registry};
use crate::text::{decimal, hex6_text, push_decimal, push_hex6};

verus! {

/// How long, in milliseconds, to wait after the bridge is up for the
/// kernel to expose the `/dev/hidrawN` node.
pub const HIDRAW_SETTLE_TIMEOUT_MS: u64 = 3000;

/// What the wallet's emulator configuration contributes: the USB ids the
/// bridge presents and the default startup timeout.
#[derive(Debug, Clone, Copy)]
pub struct WalletHidConfig {
    pub vid: u16,
    pub pid: u16,
    pub startup_timeout_secs: u64,
}

/// The outcome of looking up the simulator binary in the bundle store.
#[derive(Debug)]
pub enum BundleLookup {
    /// The bundle store could not be opened; its error text.
    ManagerFailed(String),
    /// No bundle for the wallet is installed.
    NotInstalled,
    /// The bundle names a binary at `bin_path`; `exists` says whether a
    /// file is there.
    Found { bin_path: String, exists: bool },
}

/// What the simulator reports after it was launched.
#[derive(Debug)]
pub enum EmulatorStatus {
    Running,
    /// It gave up waiting for its transport; its message.
    Error(String),
    /// Any other state, as it displays.
    Other(String),
}

/// A failed start once the simulator process runs: `stop_emulator` and
/// `stop_bridge` say whether the caller must stop that process and the
/// UHID bridge (with its drain) before answering `error`.
#[derive(Debug)]
pub struct StartFailure {
    pub error: Error,
    pub stop_emulator: bool,
    pub stop_bridge: bool,
}

/// Why the per-instance resources were not allocated.
#[derive(Debug)]
pub enum AllocationRefused {
    /// The suffix gives an id or serial an instance already has: draw
    /// another suffix and allocate again from the stage handed back.
    SuffixTaken(AwaitResources),
    /// No free port could be had.
    Failed(Error),
}

pub open spec fn id_in_use_message(id: Seq<char>) -> Seq<char> {
    "instance id "@ + id + " is already in use"@
}

/// The suffix `bits` names an id or a serial already in the registry.
pub open spec fn suffix_taken(s: Seq<Instance>, bits: u32) -> bool {
    has_id(s, instance_id_text(bits)) || has_serial(s, serial_text(bits))
}

pub open spec fn unsupported_message(w: Wallet) -> Seq<char> {
    wallet_name(w) + " is not wired into the daemon yet — currently only `bitbox02` is supported"@
}

pub open spec fn not_installed_message() -> Seq<char> {
    "BitBox02 simulator bundle is not installed. Run `just bundle-install bitbox02` or download it via the TUI."@
}

pub open spec fn binary_missing_message(path: Seq<char>) -> Seq<char> {
    "BitBox02 simulator binary not found at "@ + path
        + " — bundle manifest references a missing file, reinstall the bundle."@
}

pub open spec fn no_port_message(e: Seq<char>) -> Seq<char> {
    "could not find a free TCP port for the simulator: "@ + e
}

pub open spec fn profile_dir_message(dir: Seq<char>, e: Seq<char>) -> Seq<char> {
    "could not create profile dir "@ + dir + ": "@ + e
}

pub open spec fn spawn_failed_message(e: Seq<char>) -> Seq<char> {
    "BitBox02 simulator failed to start: "@ + e
}

pub open spec fn unreachable_message(m: Seq<char>) -> Seq<char> {
    "BitBox02 simulator never became reachable: "@ + m
}

pub open spec fn unexpected_state_message(s: Seq<char>) -> Seq<char> {
    "BitBox02 simulator in unexpected state after start: "@ + s
}

pub open spec fn bridge_failed_message(e: Seq<char>) -> Seq<char> {
    "UHID bridge for BitBox02 failed to start: "@ + e
        + ". Common cause: /dev/uhid is not writable (run `just setup-udev` once, or check group membership)."@
}

/// The instance id for a random suffix: `bitbox02-{6 hex digits}`.
pub open spec fn instance_id_text(bits: u32) -> Seq<char> {
    "bitbox02-"@ + hex6_text(bits)
}

/// The HID serial for a random suffix: `hwwctl-bb02-{6 hex digits}`.
pub open spec fn serial_text(bits: u32) -> Seq<char> {
    "hwwctl-bb02-"@ + hex6_text(bits)
}

/// The profile directory of an instance: `/tmp/hwwctl-{id}`.
pub open spec fn profile_dir_text(id: Seq<char>) -> Seq<char> {
    "/tmp/hwwctl-"@ + id
}

/// How the daemon reaches the simulator: `tcp 127.0.0.1:{port}`.
pub open spec fn transport_text(port: u16) -> Seq<char> {
    "tcp 127.0.0.1:"@ + decimal(port as nat)
}

/// The concatenation of three pieces of text.
fn message(a: &str, b: &str, c: &str) -> (r: String)
    ensures
        r@ == a@ + b@ + c@,
{
    let mut m = a.to_owned();
    m.append(b);
    m.append(c);
    m
}

/// First stage: the wallet must be one the daemon can start.
pub fn begin_start(req: StartRequest, cfg: WalletHidConfig) -> (r: Result<AwaitBundle, Error>)
    ensures
        req.wallet == Wallet::BitBox02 ==> r == Ok::<AwaitBundle, Error>(AwaitBundle { req, cfg }),
        req.wallet != Wallet::BitBox02 ==> r is Err && r->Err_0.code == ErrorCode::WalletUnsupported
            && r->Err_0.message@ == unsupported_message(req.wallet),
{
    match req.wallet {
        Wallet::BitBox02 => Ok(AwaitBundle { req, cfg }),
        _ => {
            let m = message(
                req.wallet.as_str(),
                " is not wired into the daemon yet — currently only `bitbox02` is supported",
                "",
            );
            proof {
                reveal_strlit("");
                assert(m@ =~= unsupported_message(req.wallet));
            }
            Err(Error { code: ErrorCode::WalletUnsupported, message: m })
        },
    }
}

/// Waiting for the simulator binary to be looked up.
#[derive(Debug)]
pub struct AwaitBundle {
    pub req: StartRequest,
    pub cfg: WalletHidConfig,
}

impl AwaitBundle {
    /// A binary that is not installed, or installed but missing on disk,
    /// is `BundleMissing`; a store that cannot be opened is `Internal`.
    pub fn bundle_located(self, lookup: BundleLookup) -> (r: Result<AwaitResources, Error>)
        ensures
            match lookup {
                BundleLookup::ManagerFailed(m) => r is Err && r->Err_0.code == ErrorCode::Internal
                    && r->Err_0.message@ == m@,
                BundleLookup::NotInstalled => r is Err && r->Err_0.code == ErrorCode::BundleMissing
                    && r->Err_0.message@ == not_installed_message(),
                BundleLookup::Found { bin_path, exists } => if exists {
                    r == Ok::<AwaitResources, Error>(AwaitResources { req: self.req, cfg: self.cfg })
                } else {
                    r is Err && r->Err_0.code == ErrorCode::BundleMissing && r->Err_0.message@
                        == binary_missing_message(bin_path@)
                },
            },
    {
        match lookup {
            BundleLookup::ManagerFailed(m) => Err(Error { code: ErrorCode::Internal, message: m }),
            BundleLookup::NotInstalled => Err(
                Error::new(
                    ErrorCode::BundleMissing,
                    "BitBox02 simulator bundle is not installed. Run `just bundle-install bitbox02` or download it via the TUI.",
                ),
            ),
            BundleLookup::Found { bin_path, exists } => {
                if exists {
                    Ok(AwaitResources { req: self.req, cfg: self.cfg })
                } else {
                    let m = message(
                        "BitBox02 simulator binary not found at ",
                        bin_path.as_str(),
                        " — bundle manifest references a missing file, reinstall the bundle.",
                    );
                    Err(Error { code: ErrorCode::BundleMissing, message: m })
                }
            },
        }
    }
}

/// Waiting for the random suffix and a free TCP port.
#[derive(Debug)]
pub struct AwaitResources {
    pub req: StartRequest,
    pub cfg: WalletHidConfig,
}

impl AwaitResources {
    /// Names the instance after the low 24 bits of `suffix_bits`. A suffix
    /// whose id or serial an instance in `registry` already has is refused
    /// so that every instance keeps a unique id and serial; otherwise a
    /// port that could not be had is `ResourceExhausted`.
    pub fn resources_allocated(
        self,
        suffix_bits: u32,
        port: Result<u16, String>,
        registry: &Registry,
    ) -> (r: Result<AwaitProfileDir, AllocationRefused>)
        ensures
            suffix_taken(registry@, suffix_bits) ==> r == Err::<AwaitProfileDir, AllocationRefused>(
                AllocationRefused::SuffixTaken(AwaitResources { req: self.req, cfg: self.cfg }),
            ),
            !suffix_taken(registry@, suffix_bits) ==> match port {
                Err(e) => {
                    &&& r matches Err(AllocationRefused::Failed(err))
                    &&& err.code == ErrorCode::ResourceExhausted
                    &&& err.message@ == no_port_message(e@)
                },
                Ok(p) => {
                    &&& r matches Ok(s)
                    &&& s.req == self.req
                    &&& s.cfg == self.cfg
                    &&& s.id.0@ == instance_id_text(suffix_bits)
                    &&& s.serial@ == serial_text(suffix_bits)
                    &&& s.port == p
                    &&& s.profile_dir@ == profile_dir_text(instance_id_text(suffix_bits))
                    &&& !has_id(registry@, s.id.0@)
                    &&& !has_serial(registry@, s.serial@)
                },
            },
    {
        let mut id = "bitbox02-".to_owned();
        push_hex6(&mut id, suffix_bits);
        let mut serial = "hwwctl-bb02-".to_owned();
        push_hex6(&mut serial, suffix_bits);
        let id = InstanceId(id);
        let id_taken = match registry.find(&id) {
            Some(_) => true,
            None => false,
        };
        if id_taken || registry.serial_in_use(serial.as_str()) {
            return Err(AllocationRefused::SuffixTaken(AwaitResources { req: self.req, cfg: self.cfg }));
        }
        match port {
            Err(e) => {
                let m = message("could not find a free TCP port for the simulator: ", e.as_str(), "");
                proof {
                    reveal_strlit("");
                    assert(m@ =~= no_port_message(e@));
                }
                Err(AllocationRefused::Failed(Error { code: ErrorCode::ResourceExhausted, message: m }))
            },
            Ok(p) => {
                let dir = message("/tmp/hwwctl-", id.0.as_str(), "");
                proof {
                    reveal_strlit("");
                    assert(dir@ =~= profile_dir_text(instance_id_text(suffix_bits)));
                }
                Ok(
                    AwaitProfileDir {
                        req: self.req,
                        cfg: self.cfg,
                        id,
                        serial,
                        port: p,
                        profile_dir: dir,
                    },
                )
            },
        }
    }
}

/// Waiting for the profile directory to be created.
#[derive(Debug)]
pub struct AwaitProfileDir {
    pub req: StartRequest,
    pub cfg: WalletHidConfig,
    pub id: InstanceId,
    pub serial: String,
    pub port: u16,
    pub profile_dir: String,
}

impl AwaitProfileDir {
    /// A directory that could not be created is `Internal`. The simulator
    /// then gets the request's timeout, or the wallet's default.
    pub fn profile_dir_created(self, result: Result<(), String>) -> (r: Result<
        AwaitEmulatorStart,
        Error,
    >)
        ensures
            match result {
                Err(e) => r is Err && r->Err_0.code == ErrorCode::Internal && r->Err_0.message@
                    == profile_dir_message(self.profile_dir@, e@),
                Ok(()) => r == Ok::<AwaitEmulatorStart, Error>(
                    AwaitEmulatorStart {
                        req: self.req,
                        cfg: self.cfg,
                        id: self.id,
                        serial: self.serial,
                        port: self.port,
                        timeout_secs: match self.req.timeout_secs {
                            Some(t) => t,
                            None => self.cfg.startup_timeout_secs,
                        },
                    },
                ),
            },
    {
        match result {
            Err(e) => {
                let mut m = message("could not create profile dir ", self.profile_dir.as_str(), ": ");
                m.append(e.as_str());
                Err(Error { code: ErrorCode::Internal, message: m })
            },
            Ok(()) => {
                let timeout_secs = match self.req.timeout_secs {
                    Some(t) => t,
                    None => self.cfg.startup_timeout_secs,
                };
                Ok(
                    AwaitEmulatorStart {
                        req: self.req,
                        cfg: self.cfg,
                        id: self.id,
                        serial: self.serial,
                        port: self.port,
                        timeout_secs,
                    },
                )
            },
        }
    }
}

/// Waiting for the simulator process to be launched with `--port` and
/// `timeout_secs`.
#[derive(Debug)]
pub struct AwaitEmulatorStart {
    pub req: StartRequest,
    pub cfg: WalletHidConfig,
    pub id: InstanceId,
    pub serial: String,
    pub port: u16,
    pub timeout_secs: u64,
}

impl AwaitEmulatorStart {
    /// A launch failure is `SpawnFailed`.
    pub fn emulator_started(self, result: Result<(), String>) -> (r: Result<
        AwaitEmulatorStatus,
        Error,
    >)
        ensures
            match result {
                Err(e) => r is Err && r->Err_0.code == ErrorCode::SpawnFailed && r->Err_0.message@
                    == spawn_failed_message(e@),
                Ok(()) => r == Ok::<AwaitEmulatorStatus, Error>(
                    AwaitEmulatorStatus {
                        req: self.req,
                        cfg: self.cfg,
                        id: self.id,
                        serial: self.serial,
                        port: self.port,
                    },
                ),
            },
    {
        match result {
            Err(e) => {
                let m = message("BitBox02 simulator failed to start: ", e.as_str(), "");
                proof {
                    reveal_strlit("");
                    assert(m@ =~= spawn_failed_message(e@));
                }
                Err(Error { code: ErrorCode::SpawnFailed, message: m })
            },
            Ok(()) => Ok(
                AwaitEmulatorStatus {
                    req: self.req,
                    cfg: self.cfg,
                    id: self.id,
                    serial: self.serial,
                    port: self.port,
                },
            ),
        }
    }
}

/// Waiting for the launched simulator's status.
#[derive(Debug)]
pub struct AwaitEmulatorStatus {
    pub req: StartRequest,
    pub cfg: WalletHidConfig,
    pub id: InstanceId,
    pub serial: String,
    pub port: u16,
}

impl AwaitEmulatorStatus {
    /// Only a running simulator goes on to the bridge. One that gave up is
    /// `StartupTimeout`, any other state `Internal`; both must be stopped.
    pub fn emulator_checked(self, status: EmulatorStatus) -> (r: Result<AwaitBridge, StartFailure>)
        ensures
            match status {
                EmulatorStatus::Running => r == Ok::<AwaitBridge, StartFailure>(
                    AwaitBridge {
                        req: self.req,
                        cfg: self.cfg,
                        id: self.id,
                        serial: self.serial,
                        port: self.port,
                    },
                ),
                EmulatorStatus::Error(m) => r is Err && r->Err_0.stop_emulator && !r->Err_0.stop_bridge
                    && r->Err_0.error.code == ErrorCode::StartupTimeout && r->Err_0.error.message@
                    == unreachable_message(m@),
                EmulatorStatus::Other(s) => r is Err && r->Err_0.stop_emulator && !r->Err_0.stop_bridge
                    && r->Err_0.error.code == ErrorCode::Internal && r->Err_0.error.message@
                    == unexpected_state_message(s@),
            },
    {
        match status {
            EmulatorStatus::Running => Ok(
                AwaitBridge {
                    req: self.req,
                    cfg: self.cfg,
                    id: self.id,
                    serial: self.serial,
                    port: self.port,
                },
            ),
            EmulatorStatus::Error(m) => {
                let t = message("BitBox02 simulator never became reachable: ", m.as_str(), "");
                proof {
                    reveal_strlit("");
                    assert(t@ =~= unreachable_message(m@));
                }
                Err(
                    StartFailure {
                        error: Error { code: ErrorCode::StartupTimeout, message: t },
                        stop_emulator: true,
                        stop_bridge: false,
                    },
                )
            },
            EmulatorStatus::Other(s) => {
                let t = message("BitBox02 simulator in unexpected state after start: ", s.as_str(), "");
                proof {
                    reveal_strlit("");
                    assert(t@ =~= unexpected_state_message(s@));
                }
                Err(
                    StartFailure {
                        error: Error { code: ErrorCode::Internal, message: t },
                        stop_emulator: true,
                        stop_bridge: false,
                    },
                )
            },
        }
    }
}

/// Waiting for the UHID bridge (presenting `cfg.vid`, `cfg.pid` and
/// `serial`, connected to the simulator on `port`) to start.
#[derive(Debug)]
pub struct AwaitBridge {
    pub req: StartRequest,
    pub cfg: WalletHidConfig,
    pub id: InstanceId,
    pub serial: String,
    pub port: u16,
}

impl AwaitBridge {
    /// A bridge that failed is `BridgeFailed`, and the simulator must be
    /// stopped. Otherwise the hidraw node is scanned for only when the
    /// request asked to wait until ready.
    pub fn bridge_started(self, result: Result<(), String>) -> (r: Result<AwaitHidraw, StartFailure>)
        ensures
            match result {
                Err(e) => r is Err && r->Err_0.stop_emulator && !r->Err_0.stop_bridge && r->Err_0.error.code
                    == ErrorCode::BridgeFailed && r->Err_0.error.message@ == bridge_failed_message(e@),
                Ok(()) => r == Ok::<AwaitHidraw, StartFailure>(
                    AwaitHidraw {
                        id: self.id,
                        cfg: self.cfg,
                        serial: self.serial,
                        port: self.port,
                        scan_hidraw: self.req.wait_ready,
                    },
                ),
            },
    {
        match result {
            Err(e) => {
                let t = message(
                    "UHID bridge for BitBox02 failed to start: ",
                    e.as_str(),
                    ". Common cause: /dev/uhid is not writable (run `just setup-udev` once, or check group membership).",
                );
                Err(
                    StartFailure {
                        error: Error { code: ErrorCode::BridgeFailed, message: t },
                        stop_emulator: true,
                        stop_bridge: false,
                    },
                )
            },
            Ok(()) => Ok(
                AwaitHidraw {
                    id: self.id,
                    cfg: self.cfg,
                    serial: self.serial,
                    port: self.port,
                    scan_hidraw: self.req.wait_ready,
                },
            ),
        }
    }
}

/// The bridge is up. When `scan_hidraw`, the caller looks for the hidraw
/// node of `serial` for up to [`HIDRAW_SETTLE_TIMEOUT_MS`]; not finding it
/// is not an error.
#[derive(Debug)]
pub struct AwaitHidraw {
    pub id: InstanceId,
    pub cfg: WalletHidConfig,
    pub serial: String,
    pub port: u16,
    pub scan_hidraw: bool,
}

/// No two instances share a HID serial.
pub open spec fn serials_unique(s: Seq<Instance>) -> bool {
    forall|i: int, j: int| 0 <= i < s.len() && 0 <= j < s.len() && i != j ==> s[i].serial@ != s[j].serial@
}

/// Recording an instance whose serial no instance has keeps serials
/// unique, so two instances of a wallet can always be told apart.
pub proof fn lemma_fresh_serial_keeps_serials_unique(s: Seq<Instance>, inst: Instance)
    requires
        serials_unique(s),
        !has_serial(s, inst.serial@),
    ensures
        serials_unique(s.push(inst)),
{
    let t = s.push(inst);
    assert forall|i: int, j: int|
        0 <= i < t.len() && 0 <= j < t.len() && i != j implies t[i].serial@ != t[j].serial@ by {
        if i < s.len() && j < s.len() {
            assert(t[i] == s[i] && t[j] == s[j]);
        } else if i < s.len() {
            assert(t[i] == s[i]);
        } else {
            assert(t[j] == s[j]);
        }
    }
}

impl AwaitHidraw {
    /// Records the running instance in the registry and answers its
    /// snapshot; the hidraw path is kept only when it was scanned for. An
    /// id or serial that an instance already has is never taken over: the
    /// start then fails with `Internal`, the registry unchanged, and the
    /// simulator and bridge must be stopped.
    pub fn finish(self, hidraw: Option<String>, registry: &mut Registry) -> (r: Result<
        InstanceSummary,
        StartFailure,
    >)
        ensures
            has_id(old(registry)@, self.id.0@) || has_serial(old(registry)@, self.serial@) ==> {
                &&& final(registry)@ == old(registry)@
                &&& r matches Err(f)
                &&& f.stop_emulator
                &&& f.stop_bridge
                &&& f.error.code == ErrorCode::Internal
                &&& f.error.message@ == id_in_use_message(self.id.0@)
            },
            !has_id(old(registry)@, self.id.0@) && !has_serial(old(registry)@, self.serial@) ==> {
                &&& r matches Ok(s)
                &&& s.instance == self.id
                &&& s.wallet == Wallet::BitBox02
                &&& s.state == InstanceState::Running
                &&& s.vid == self.cfg.vid
                &&& s.pid == self.cfg.pid
                &&& s.serial == self.serial
                &&& s.hidraw == (if self.scan_hidraw { hidraw } else { None })
                &&& s.transport@ == transport_text(self.port)
                &&& s.error is None
                &&& final(registry)@ == old(registry)@.push(Instance {
                    id: s.instance,
                    wallet: s.wallet,
                    state: s.state,
                    vid: s.vid,
                    pid: s.pid,
                    serial: s.serial,
                    hidraw: s.hidraw,
                    transport: s.transport,
                    error: s.error,
                })
                &&& summary_of(final(registry)@.last()) == s
            },
    {
        let id_taken = match registry.find(&self.id) {
            Some(_) => true,
            None => false,
        };
        if id_taken || registry.serial_in_use(self.serial.as_str()) {
            let m = message("instance id ", self.id.0.as_str(), " is already in use");
            return Err(
                StartFailure {
                    error: Error { code: ErrorCode::Internal, message: m },
                    stop_emulator: true,
                    stop_bridge: true,
                },
            );
        }
        let mut transport = "tcp 127.0.0.1:".to_owned();
        push_decimal(&mut transport, self.port as u64);
        let hidraw = if self.scan_hidraw { hidraw } else { None };
        let inst = Instance {
            id: self.id,
            wallet: Wallet::BitBox02,
            state: InstanceState::Running,
            vid: self.cfg.vid,
            pid: self.cfg.pid,
            serial: self.serial,
            hidraw,
            transport,
            error: None,
        };
        let summary = inst.summary();
        proof {
            assert(removed(registry@, inst.id.0@) == registry@);
        }
        registry.insert(inst);
        Ok(summary)
    }
}

} // verus!
