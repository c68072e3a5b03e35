//! The IPC protocol of the daemon: one message per request, one per
//! response, both sides speaking the same types.

use vstd::prelude::*;
use vstd::string::*;
use crate::text::{ascii_lower, ascii_lowercase, same_text};

verus! {

/// Bumped whenever the wire format changes in a way that older clients
/// would mis-decode. The daemon stamps every pong with it.
pub const PROTOCOL_VERSION: u32 = 1;

/// Socket path used when neither `HWWCTL_SOCKET` nor `XDG_RUNTIME_DIR`
/// gives one.
pub const FALLBACK_SOCKET_PATH: &'static str = "/tmp/hwwctl.sock";

/// Which hardware wallet model an emulator instance represents.
#[derive(Debug, Clone, Copy, PartialEq, Eq, Hash, Structural)]
pub enum Wallet {
    Trezor,
    BitBox02,
    Coldcard,
    Specter,
    Ledger,
    Jade,
}

/// The canonical lowercase name of each wallet.
pub open spec fn wallet_name(w: Wallet) -> Seq<char> {
    match w {
        Wallet::Trezor => "trezor"@,
        Wallet::BitBox02 => "bitbox02"@,
        Wallet::Coldcard => "coldcard"@,
        Wallet::Specter => "specter"@,
        Wallet::Ledger => "ledger"@,
        Wallet::Jade => "jade"@,
    }
}

/// The wallet a name denotes, compared without regard to ASCII case;
/// `bb02` and `cc` are aliases of `bitbox02` and `coldcard`.
pub open spec fn wallet_from_name(s: Seq<char>) -> Option<Wallet> {
    let l = ascii_lower(s);
    if l == "trezor"@ {
        Some(Wallet::Trezor)
    } else if l == "bitbox02"@ || l == "bb02"@ {
        Some(Wallet::BitBox02)
    } else if l == "coldcard"@ || l == "cc"@ {
        Some(Wallet::Coldcard)
    } else if l == "specter"@ {
        Some(Wallet::Specter)
    } else if l == "ledger"@ {
        Some(Wallet::Ledger)
    } else if l == "jade"@ {
        Some(Wallet::Jade)
    } else {
        None
    }
}

/// The message of a failed wallet parse: `unknown wallet '{lowercased}'`.
pub open spec fn unknown_wallet_message(s: Seq<char>) -> Seq<char> {
    "unknown wallet '"@ + ascii_lower(s) + "'"@
}

/// Every wallet's canonical name parses back to that wallet.
pub proof fn lemma_wallet_name_roundtrip(w: Wallet)
    ensures
        wallet_from_name(wallet_name(w)) == Some(w),
{
    reveal_strlit("trezor");
    reveal_strlit("bitbox02");
    reveal_strlit("bb02");
    reveal_strlit("coldcard");
    reveal_strlit("cc");
    reveal_strlit("specter");
    reveal_strlit("ledger");
    reveal_strlit("jade");
    let n = wallet_name(w);
    assert(ascii_lower(n) =~= n);
    assert("trezor"@.len() == 6 && "bitbox02"@.len() == 8 && "bb02"@.len() == 4);
    assert("coldcard"@.len() == 8 && "cc"@.len() == 2 && "specter"@.len() == 7);
    assert("ledger"@.len() == 6 && "jade"@.len() == 4);
    assert("trezor"@[0] != "ledger"@[0]);
    assert("bitbox02"@[0] != "coldcard"@[0]);
    assert("bb02"@[0] != "jade"@[0]);
}

/// Parsing ignores ASCII case: a name and its lowercase form denote the
/// same wallet.
pub proof fn lemma_wallet_parse_case_insensitive(s: Seq<char>)
    ensures
        wallet_from_name(s) == wallet_from_name(ascii_lower(s)),
{
    assert(ascii_lower(ascii_lower(s)) =~= ascii_lower(s));
}

impl Wallet {
    /// The canonical lowercase name.
    pub fn as_str(&self) -> (r: &'static str)
        ensures
            r@ == wallet_name(*self),
    {
        match self {
            Wallet::Trezor => "trezor",
            Wallet::BitBox02 => "bitbox02",
            Wallet::Coldcard => "coldcard",
            Wallet::Specter => "specter",
            Wallet::Ledger => "ledger",
            Wallet::Jade => "jade",
        }
    }
}

/// Parses a wallet name, ignoring ASCII case and accepting the aliases.
pub fn parse_wallet(s: &str) -> (r: Result<Wallet, String>)
    ensures
        match r {
            Ok(w) => wallet_from_name(s@) == Some(w),
            Err(m) => wallet_from_name(s@) is None && m@ == unknown_wallet_message(s@),
        },
{
    let lower = ascii_lowercase(s);
    let l = lower.as_str();
    if same_text(l, "trezor") {
        Ok(Wallet::Trezor)
    } else if same_text(l, "bitbox02") || same_text(l, "bb02") {
        Ok(Wallet::BitBox02)
    } else if same_text(l, "coldcard") || same_text(l, "cc") {
        Ok(Wallet::Coldcard)
    } else if same_text(l, "specter") {
        Ok(Wallet::Specter)
    } else if same_text(l, "ledger") {
        Ok(Wallet::Ledger)
    } else if same_text(l, "jade") {
        Ok(Wallet::Jade)
    } else {
        let mut m = "unknown wallet '".to_owned();
        m.append(l);
        m.append("'");
        Err(m)
    }
}

impl std::str::FromStr for Wallet {
    type Err = String;

    fn from_str(s: &str) -> (r: Result<Wallet, String>)
        ensures
            match r {
                Ok(w) => wallet_from_name(s@) == Some(w),
                Err(m) => wallet_from_name(s@) is None && m@ == unknown_wallet_message(s@),
            },
    {
        parse_wallet(s)
    }
}

/// Opaque identifier of a running emulator instance owned by the daemon,
/// of the form `{wallet}-{6 hex chars}`.
#[derive(Debug, Hash)]
pub struct InstanceId(pub String);

impl Clone for InstanceId {
    fn clone(&self) -> (r: Self)
        ensures
            r == *self,
    {
        InstanceId(self.0.clone())
    }
}

impl InstanceId {
    /// An id holding `s`.
    pub fn new(s: &str) -> (r: Self)
        ensures
            r.0@ == s@,
    {
        InstanceId(s.to_owned())
    }

    /// The id's text.
    pub fn as_str(&self) -> (r: &str)
        ensures
            r@ == self.0@,
    {
        self.0.as_str()
    }
}

/// Top-level request envelope. One per IPC message.
#[derive(Debug)]
pub enum Request {
    /// Liveness check: answered with the daemon and protocol versions.
    Ping,
    /// Spawn a new emulator instance.
    Start(StartRequest),
    /// Terminate an instance. Idempotent: unknown ids are answered `Stopped`.
    Stop(StopRequest),
    /// Snapshot of one instance, or of all when `instance` is `None`.
    Status(StatusRequest),
    /// The captured log lines of one instance.
    Logs(LogsRequest),
    /// The bridge traffic counters of one instance.
    BridgeStats(BridgeStatsRequest),
    /// Ask the daemon to exit cleanly, dropping all instances.
    Shutdown,
}

/// The default of [`StartRequest::wait_ready`] when a request leaves it out.
pub fn default_true() -> (r: bool)
    ensures
        r,
{
    true
}

#[derive(Debug)]
pub struct StartRequest {
    pub wallet: Wallet,
    /// Block until the bridge is fully ready (hidraw enumerable).
    pub wait_ready: bool,
    /// Override of the default startup timeout for this instance.
    pub timeout_secs: Option<u64>,
}

#[derive(Debug)]
pub struct StopRequest {
    pub instance: InstanceId,
}

#[derive(Debug)]
pub struct StatusRequest {
    /// `None`: snapshot all instances.
    pub instance: Option<InstanceId>,
}

#[derive(Debug)]
pub struct LogsRequest {
    pub instance: InstanceId,
    pub source: LogSource,
    /// Keep only the last `tail` entries.
    pub tail: Option<usize>,
}

#[derive(Debug)]
pub struct BridgeStatsRequest {
    pub instance: InstanceId,
}

/// Top-level response envelope. The daemon replies exactly once per
/// request with one of these.
#[derive(Debug)]
pub enum Response {
    Pong(PongInfo),
    Started(InstanceSummary),
    Stopped,
    Status { instances: Vec<InstanceSummary> },
    Logs { entries: Vec<LogEntry> },
    BridgeStats(BridgeStatsSnapshot),
    ShuttingDown,
    Error(Error),
}

#[derive(Debug)]
pub struct PongInfo {
    pub daemon_version: String,
    pub protocol_version: u32,
    pub pid: u32,
}

/// Public snapshot of a running instance.
#[derive(Debug)]
pub struct InstanceSummary {
    pub instance: InstanceId,
    pub wallet: Wallet,
    pub state: InstanceState,
    /// USB vendor id presented to the host.
    pub vid: u16,
    pub pid: u16,
    /// HID `uniq` value, unique per instance.
    pub serial: String,
    /// Path of the `/dev/hidrawN` node, if discovery succeeded.
    pub hidraw: Option<String>,
    /// Transport between daemon and emulator process.
    pub transport: String,
    /// Last error message, if `state == Error`.
    pub error: Option<String>,
}

#[derive(Debug, Clone, Copy, PartialEq, Eq, Structural)]
pub enum InstanceState {
    Starting,
    Running,
    Stopping,
    Error,
}

/// Which captured output a log query reads.
#[derive(Debug, Clone, Copy, PartialEq, Eq, Structural)]
pub enum LogSource {
    Emulator,
    Bridge,
    All,
}

/// One captured log line: emulator output or one bridge report.
#[derive(Debug)]
pub struct LogEntry {
    /// Milliseconds since the instance started.
    pub ts_ms: u64,
    pub source: LogSource,
    /// The emulator's line (empty for bridge entries).
    pub message: String,
    /// The report's direction (empty for emulator entries).
    pub direction: String,
    /// The report's bytes in hex (empty for emulator entries).
    pub raw_hex: String,
}

/// A log entry with its strings taken as character sequences.
pub struct LogEntryView {
    pub ts_ms: u64,
    pub source: LogSource,
    pub message: Seq<char>,
    pub direction: Seq<char>,
    pub raw_hex: Seq<char>,
}

impl View for LogEntry {
    type V = LogEntryView;

    open spec fn view(&self) -> LogEntryView {
        LogEntryView {
            ts_ms: self.ts_ms,
            source: self.source,
            message: self.message@,
            direction: self.direction@,
            raw_hex: self.raw_hex@,
        }
    }
}

/// Packet and byte counters of an instance's bridge, per direction.
#[derive(Debug)]
pub struct BridgeStatsSnapshot {
    pub instance: InstanceId,
    pub host_to_device_reports: u64,
    pub host_to_device_bytes: u64,
    pub device_to_host_reports: u64,
    pub device_to_host_bytes: u64,
}

/// Structured error carried by [`Response::Error`]; clients match on the
/// code, not the message.
#[derive(Debug)]
pub struct Error {
    pub code: ErrorCode,
    pub message: String,
}

impl Error {
    /// An error with `code` and `message`.
    pub fn new(code: ErrorCode, message: &str) -> (r: Self)
        ensures
            r.code == code,
            r.message@ == message@,
    {
        Error { code, message: message.to_owned() }
    }
}

/// Stable error codes. New variants are added, existing ones never
/// repurposed.
#[derive(Debug, Clone, Copy, PartialEq, Eq, Structural)]
pub enum ErrorCode {
    /// Request couldn't be parsed at all.
    BadRequest,
    /// Wallet type not yet supported by this daemon build.
    WalletUnsupported,
    /// Bundle for the wallet is not installed locally.
    BundleMissing,
    /// Emulator child process failed to spawn.
    SpawnFailed,
    /// Emulator started but its transport never became reachable.
    StartupTimeout,
    /// UHID bridge couldn't be created.
    BridgeFailed,
    /// `stop`/`status` referenced an instance id the daemon doesn't know.
    InstanceNotFound,
    /// Out of free TCP ports / socket paths to assign.
    ResourceExhausted,
    /// Catch-all: daemon-side bug, the message has detail.
    Internal,
}

} // verus!
