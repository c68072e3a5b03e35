//! The human-readable form of the client's output: the lines printed for
//! each response, split between standard output and standard error.

use vstd::prelude::*;
use vstd::string::*;
use crate::protocol::{
    wallet_name, BridgeStatsSnapshot, ErrorCode, InstanceState, InstanceSummary, LogEntry, LogSource,
    Response,
};
use crate::text::{decimal, decimal_string, hex_u16_text, pad_left, push_decimal, push_hex_u16, push_padded};

verus! {

/// Lines to print: `stdout` to standard output, `stderr` to standard error.
#[derive(Debug)]
pub struct Rendered {
    pub stdout: Vec<String>,
    pub stderr: Vec<String>,
}

/// The characters of each line.
pub open spec fn texts(v: Seq<String>) -> Seq<Seq<char>> {
    v.map_values(|s: String| s@)
}

/// How `{:?}` shows an instance state.
pub open spec fn state_debug(s: InstanceState) -> Seq<char> {
    match s {
        InstanceState::Starting => "Starting"@,
        InstanceState::Running => "Running"@,
        InstanceState::Stopping => "Stopping"@,
        InstanceState::Error => "Error"@,
    }
}

/// How `{:?}` shows an error code.
pub open spec fn code_debug(c: ErrorCode) -> Seq<char> {
    match c {
        ErrorCode::BadRequest => "BadRequest"@,
        ErrorCode::WalletUnsupported => "WalletUnsupported"@,
        ErrorCode::BundleMissing => "BundleMissing"@,
        ErrorCode::SpawnFailed => "SpawnFailed"@,
        ErrorCode::StartupTimeout => "StartupTimeout"@,
        ErrorCode::BridgeFailed => "BridgeFailed"@,
        ErrorCode::InstanceNotFound => "InstanceNotFound"@,
        ErrorCode::ResourceExhausted => "ResourceExhausted"@,
        ErrorCode::Internal => "Internal"@,
    }
}

/// The block that describes one instance; the hidraw and error lines
/// appear only when there is a value.
pub open spec fn summary_lines(s: InstanceSummary) -> Seq<Seq<char>> {
    seq![
        "  instance  "@ + s.instance.0@,
        "  wallet    "@ + wallet_name(s.wallet),
        "  state     "@ + state_debug(s.state),
        "  vid       "@ + hex_u16_text(s.vid),
        "  pid       "@ + hex_u16_text(s.pid),
        "  serial    "@ + s.serial@,
    ] + match s.hidraw {
        Some(p) => seq!["  hidraw    "@ + p@],
        None => Seq::empty(),
    } + seq!["  transport "@ + s.transport@] + match s.error {
        Some(e) => seq!["  error     "@ + e@],
        None => Seq::empty(),
    }
}

/// Each instance's block followed by an empty line.
pub open spec fn status_blocks(s: Seq<InstanceSummary>) -> Seq<Seq<char>>
    decreases s.len(),
{
    if s.len() == 0 {
        Seq::empty()
    } else {
        status_blocks(s.drop_last()) + summary_lines(s.last()) + seq![Seq::<char>::empty()]
    }
}

/// The three-character tag of a log source.
pub open spec fn source_tag(s: LogSource) -> Seq<char> {
    match s {
        LogSource::Emulator => "emu"@,
        LogSource::Bridge => "br "@,
        LogSource::All => "*  "@,
    }
}

/// One log line: the timestamp right-aligned in 8 columns, the source
/// tag, then the direction and hex of a bridge report or the message of
/// anything else.
pub open spec fn log_line(e: LogEntry) -> Seq<char> {
    let head = "  "@ + pad_left(decimal(e.ts_ms as nat), 8) + "ms  "@ + source_tag(e.source) + "  "@;
    if e.source == LogSource::Bridge {
        head + e.direction@ + " "@ + e.raw_hex@
    } else {
        head + e.message@
    }
}

/// The counters of a bridge, per direction.
pub open spec fn bridge_stats_lines(s: BridgeStatsSnapshot) -> Seq<Seq<char>> {
    seq![
        "  instance         "@ + s.instance.0@,
        "  host → device    "@ + pad_left(decimal(s.host_to_device_reports as nat), 6) + " reports  "@
            + pad_left(decimal(s.host_to_device_bytes as nat), 8) + " bytes"@,
        "  device → host    "@ + pad_left(decimal(s.device_to_host_reports as nat), 6) + " reports  "@
            + pad_left(decimal(s.device_to_host_bytes as nat), 8) + " bytes"@,
    ]
}

/// What goes to standard output for a response.
pub open spec fn stdout_lines(r: Response) -> Seq<Seq<char>> {
    match r {
        Response::Pong(info) => seq![
            "daemon ok  version="@ + info.daemon_version@ + "  proto="@ + decimal(
                info.protocol_version as nat,
            ) + "  pid="@ + decimal(info.pid as nat),
        ],
        Response::Started(s) => seq!["started "@ + s.instance.0@] + summary_lines(s),
        Response::Stopped => seq!["stopped"@],
        Response::Status { instances } => if instances@.len() == 0 {
            seq!["(no instances)"@]
        } else {
            status_blocks(instances@)
        },
        Response::Logs { entries } => if entries@.len() == 0 {
            seq!["(no log entries)"@]
        } else {
            entries@.map_values(|e: LogEntry| log_line(e))
        },
        Response::BridgeStats(s) => bridge_stats_lines(s),
        Response::ShuttingDown => seq!["daemon is shutting down"@],
        Response::Error(_) => Seq::empty(),
    }
}

/// What goes to standard error for a response: only an error does.
pub open spec fn stderr_lines(r: Response) -> Seq<Seq<char>> {
    match r {
        Response::Error(e) => seq!["error ["@ + code_debug(e.code) + "]: "@ + e.message@],
        _ => Seq::empty(),
    }
}

/// The line for an error that arose in the client itself.
pub open spec fn client_error_text(msg: Seq<char>) -> Seq<char> {
    "hwwctl: "@ + msg
}

fn state_name(s: InstanceState) -> (r: &'static str)
    ensures
        r@ == state_debug(s),
{
    match s {
        InstanceState::Starting => "Starting",
        InstanceState::Running => "Running",
        InstanceState::Stopping => "Stopping",
        InstanceState::Error => "Error",
    }
}

fn code_name(c: ErrorCode) -> (r: &'static str)
    ensures
        r@ == code_debug(c),
{
    match c {
        ErrorCode::BadRequest => "BadRequest",
        ErrorCode::WalletUnsupported => "WalletUnsupported",
        ErrorCode::BundleMissing => "BundleMissing",
        ErrorCode::SpawnFailed => "SpawnFailed",
        ErrorCode::StartupTimeout => "StartupTimeout",
        ErrorCode::BridgeFailed => "BridgeFailed",
        ErrorCode::InstanceNotFound => "InstanceNotFound",
        ErrorCode::ResourceExhausted => "ResourceExhausted",
        ErrorCode::Internal => "Internal",
    }
}

fn tag(s: LogSource) -> (r: &'static str)
    ensures
        r@ == source_tag(s),
{
    match s {
        LogSource::Emulator => "emu",
        LogSource::Bridge => "br ",
        LogSource::All => "*  ",
    }
}

fn joined(a: &str, b: &str) -> (r: String)
    ensures
        r@ == a@ + b@,
{
    let mut r = a.to_owned();
    r.append(b);
    r
}

fn hex_line(label: &str, v: u16) -> (r: String)
    ensures
        r@ == label@ + hex_u16_text(v),
{
    let mut r = label.to_owned();
    push_hex_u16(&mut r, v);
    r
}

/// Appends the block that describes `s`.
fn push_summary(out: &mut Vec<String>, s: &InstanceSummary)
    ensures
        texts(final(out)@) == texts(old(out)@) + summary_lines(*s),
{
    let ghost start = out@;
    out.push(joined("  instance  ", s.instance.0.as_str()));
    out.push(joined("  wallet    ", s.wallet.as_str()));
    out.push(joined("  state     ", state_name(s.state)));
    out.push(hex_line("  vid       ", s.vid));
    out.push(hex_line("  pid       ", s.pid));
    out.push(joined("  serial    ", s.serial.as_str()));
    match &s.hidraw {
        Some(p) => {
            out.push(joined("  hidraw    ", p.as_str()));
        },
        None => {},
    }
    out.push(joined("  transport ", s.transport.as_str()));
    match &s.error {
        Some(e) => {
            out.push(joined("  error     ", e.as_str()));
        },
        None => {},
    }
    assert(texts(out@) =~= texts(start) + summary_lines(*s));
}

fn log_text(e: &LogEntry) -> (r: String)
    ensures
        r@ == log_line(*e),
{
    let mut r = "  ".to_owned();
    let ts = decimal_string(e.ts_ms);
    push_padded(&mut r, ts.as_str(), 8);
    r.append("ms  ");
    r.append(tag(e.source));
    r.append("  ");
    if e.source == LogSource::Bridge {
        r.append(e.direction.as_str());
        r.append(" ");
        r.append(e.raw_hex.as_str());
    } else {
        r.append(e.message.as_str());
    }
    r
}

fn traffic_line(label: &str, reports: u64, bytes: u64) -> (r: String)
    ensures
        r@ == label@ + pad_left(decimal(reports as nat), 6) + " reports  "@ + pad_left(
            decimal(bytes as nat),
            8,
        ) + " bytes"@,
{
    let mut r = label.to_owned();
    let a = decimal_string(reports);
    push_padded(&mut r, a.as_str(), 6);
    r.append(" reports  ");
    let b = decimal_string(bytes);
    push_padded(&mut r, b.as_str(), 8);
    r.append(" bytes");
    r
}

/// The human-readable output for a response.
pub fn render_response(resp: &Response) -> (r: Rendered)
    ensures
        texts(r.stdout@) == stdout_lines(*resp),
        texts(r.stderr@) == stderr_lines(*resp),
{
    let mut out: Vec<String> = Vec::new();
    let mut err: Vec<String> = Vec::new();
    match resp {
        Response::Pong(info) => {
            let mut l = "daemon ok  version=".to_owned();
            l.append(info.daemon_version.as_str());
            l.append("  proto=");
            push_decimal(&mut l, info.protocol_version as u64);
            l.append("  pid=");
            push_decimal(&mut l, info.pid as u64);
            out.push(l);
            assert(texts(out@) =~= stdout_lines(*resp));
        },
        Response::Started(s) => {
            out.push(joined("started ", s.instance.0.as_str()));
            push_summary(&mut out, s);
            assert(texts(out@) =~= stdout_lines(*resp));
        },
        Response::Stopped => {
            out.push("stopped".to_owned());
            assert(texts(out@) =~= stdout_lines(*resp));
        },
        Response::Status { instances } => {
            if instances.len() == 0 {
                out.push("(no instances)".to_owned());
                assert(texts(out@) =~= stdout_lines(*resp));
            } else {
                let n = instances.len();
                let mut i: usize = 0;
                while i < n
                    invariant
                        n == instances@.len(),
                        i <= n,
                        texts(out@) == status_blocks(instances@.subrange(0, i as int)),
                    decreases n - i,
                {
                    push_summary(&mut out, &instances[i]);
                    out.push(String::new());
                    proof {
                        let pre = instances@.subrange(0, i + 1);
                        assert(pre.drop_last() =~= instances@.subrange(0, i as int));
                    }
                    i = i + 1;
                    assert(texts(out@) =~= status_blocks(instances@.subrange(0, i as int)));
                }
                assert(instances@.subrange(0, n as int) =~= instances@);
            }
        },
        Response::Logs { entries } => {
            if entries.len() == 0 {
                out.push("(no log entries)".to_owned());
                assert(texts(out@) =~= stdout_lines(*resp));
            } else {
                let n = entries.len();
                let mut i: usize = 0;
                while i < n
                    invariant
                        n == entries@.len(),
                        i <= n,
                        texts(out@) == entries@.subrange(0, i as int).map_values(
                            |e: LogEntry| log_line(e),
                        ),
                    decreases n - i,
                {
                    let ghost before = out@;
                    let l = log_text(&entries[i]);
                    out.push(l);
                    proof {
                        assert(entries@.subrange(0, i + 1) =~= entries@.subrange(0, i as int).push(
                            entries@[i as int],
                        ));
                        assert(texts(out@) =~= texts(before).push(l@));
                    }
                    i = i + 1;
                    assert(texts(out@) =~= entries@.subrange(0, i as int).map_values(
                        |e: LogEntry| log_line(e),
                    ));
                }
                assert(entries@.subrange(0, n as int) =~= entries@);
            }
        },
        Response::BridgeStats(s) => {
            out.push(joined("  instance         ", s.instance.0.as_str()));
            out.push(traffic_line("  host → device    ", s.host_to_device_reports, s.host_to_device_bytes));
            out.push(traffic_line("  device → host    ", s.device_to_host_reports, s.device_to_host_bytes));
            assert(texts(out@) =~= stdout_lines(*resp));
        },
        Response::ShuttingDown => {
            out.push("daemon is shutting down".to_owned());
            assert(texts(out@) =~= stdout_lines(*resp));
        },
        Response::Error(e) => {
            let mut l = "error [".to_owned();
            l.append(code_name(e.code));
            l.append("]: ");
            l.append(e.message.as_str());
            err.push(l);
        },
    }
    assert(texts(out@) =~= stdout_lines(*resp));
    assert(texts(err@) =~= stderr_lines(*resp));
    Rendered { stdout: out, stderr: err }
}

/// One more instance in a status listing adds its block and an empty line
/// after everything printed before, and nothing else.
pub proof fn lemma_status_blocks_push(s: Seq<InstanceSummary>, x: InstanceSummary)
    ensures
        status_blocks(s.push(x)) == status_blocks(s) + summary_lines(x) + seq![Seq::<char>::empty()],
        status_blocks(s.push(x)).len() == status_blocks(s).len() + summary_lines(x).len() + 1,
{
    assert(s.push(x).drop_last() =~= s);
}

/// The listing of two runs of instances is the listing of the first
/// followed by that of the second.
pub proof fn lemma_status_blocks_concat(a: Seq<InstanceSummary>, b: Seq<InstanceSummary>)
    ensures
        status_blocks(a + b) == status_blocks(a) + status_blocks(b),
    decreases b.len(),
{
    if b.len() == 0 {
        assert(a + b =~= a);
        assert(status_blocks(a) + status_blocks(b) =~= status_blocks(a));
    } else {
        let d = b.drop_last();
        lemma_status_blocks_concat(a, d);
        assert((a + b).drop_last() =~= a + d);
        assert((a + b).last() == b.last());
        assert(status_blocks(a + b) =~= status_blocks(a) + status_blocks(b));
    }
}

/// Every instance of a status listing is printed, in its place: the
/// listing is the blocks of the instances before it, then its own block
/// and an empty line, then the blocks of the instances after it.
pub proof fn lemma_status_blocks_shows_each(s: Seq<InstanceSummary>, k: int)
    requires
        0 <= k < s.len(),
    ensures
        status_blocks(s) == status_blocks(s.take(k)) + summary_lines(s[k]) + seq![Seq::<char>::empty()]
            + status_blocks(s.skip(k + 1)),
{
    assert(s =~= s.take(k).push(s[k]) + s.skip(k + 1));
    lemma_status_blocks_concat(s.take(k).push(s[k]), s.skip(k + 1));
    lemma_status_blocks_push(s.take(k), s[k]);
}

/// A status response with instances prints exactly one block and one
/// empty line per instance, in order, and nothing to standard error.
pub proof fn lemma_status_output_lists_every_instance(r: Response, k: int)
    requires
        r is Status,
        0 <= k < r->instances@.len(),
    ensures
        stdout_lines(r) == status_blocks(r->instances@.take(k)) + summary_lines(r->instances@[k])
            + seq![Seq::<char>::empty()] + status_blocks(r->instances@.skip(k + 1)),
        stderr_lines(r) == Seq::<Seq<char>>::empty(),
{
    lemma_status_blocks_shows_each(r->instances@, k);
}

/// The line printed for an error that arose in the client itself (bad
/// arguments, no daemon, a broken connection).
pub fn client_error_line(msg: &str) -> (r: String)
    ensures
        r@ == client_error_text(msg@),
{
    joined("hwwctl: ", msg)
}

} // verus!
