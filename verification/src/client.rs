//! The short-lived client: which request a command line asks for, where
//! the daemon's socket is, when to spawn a daemon, and the exit code.

use vstd::prelude::*;
use vstd::string::*;
use crate::protocol::{
    InstanceId, Request, Response, StartRequest, StatusRequest, StopRequest, Wallet,
    FALLBACK_SOCKET_PATH,
};

verus! {

/// Exit code for a request the daemon answered without error.
pub const EXIT_OK: i32 = 0;

/// Exit code for a request the daemon answered with a structured error.
pub const EXIT_DAEMON_ERROR: i32 = 1;

/// Exit code for a problem before any answer: bad arguments, no daemon,
/// a broken connection.
pub const EXIT_CLIENT_ERROR: i32 = 2;

/// The subcommands of the command line.
#[derive(Debug)]
pub enum Cmd {
    /// Run the daemon in the foreground, logging to `log_file`.
    Daemon { log_file: Option<String> },
    /// Health check the daemon.
    Ping,
    /// Spawn a new emulator instance.
    Start { wallet: Wallet, no_wait: bool, timeout: Option<u64> },
    /// Stop a running instance by id.
    Stop { instance: String },
    /// Snapshot of running instances, or only of the given one.
    Status { instance: Option<String> },
    /// Ask the daemon to terminate cleanly.
    Shutdown,
}

/// The message for `daemon` given where a client command was expected.
pub open spec fn daemon_not_client_message() -> Seq<char> {
    "`daemon` is not a client subcommand"@
}

/// The request a client subcommand sends.
pub open spec fn request_for(cmd: Cmd) -> Option<Request> {
    match cmd {
        Cmd::Daemon { .. } => None,
        Cmd::Ping => Some(Request::Ping),
        Cmd::Start { wallet, no_wait, timeout } => Some(
            Request::Start(StartRequest { wallet, wait_ready: !no_wait, timeout_secs: timeout }),
        ),
        Cmd::Stop { instance } => Some(Request::Stop(StopRequest { instance: InstanceId(instance) })),
        Cmd::Status { instance } => Some(
            Request::Status(
                StatusRequest {
                    instance: match instance {
                        Some(s) => Some(InstanceId(s)),
                        None => None,
                    },
                },
            ),
        ),
        Cmd::Shutdown => Some(Request::Shutdown),
    }
}

/// The request for a client subcommand; `daemon` is not one.
pub fn build_request(cmd: Cmd) -> (r: Result<Request, String>)
    ensures
        match request_for(cmd) {
            Some(req) => r == Ok::<Request, String>(req),
            None => r is Err && r->Err_0@ == daemon_not_client_message(),
        },
        match cmd {
            Cmd::Start { wallet, no_wait, timeout } => r == Ok::<Request, String>(
                Request::Start(StartRequest { wallet, wait_ready: !no_wait, timeout_secs: timeout }),
            ),
            _ => true,
        },
{
    match cmd {
        Cmd::Daemon { .. } => Err("`daemon` is not a client subcommand".to_owned()),
        Cmd::Ping => Ok(Request::Ping),
        Cmd::Start { wallet, no_wait, timeout } => Ok(
            Request::Start(StartRequest { wallet, wait_ready: !no_wait, timeout_secs: timeout }),
        ),
        Cmd::Stop { instance } => Ok(Request::Stop(StopRequest { instance: InstanceId(instance) })),
        Cmd::Status { instance } => {
            let id = match instance {
                Some(s) => Some(InstanceId(s)),
                None => None,
            };
            Ok(Request::Status(StatusRequest { instance: id }))
        },
        Cmd::Shutdown => Ok(Request::Shutdown),
    }
}

/// The exit code once the daemon answered: 1 for an error answer, 0
/// otherwise.
pub fn response_exit_code(resp: &Response) -> (code: i32)
    ensures
        code == if resp is Error {
            EXIT_DAEMON_ERROR
        } else {
            EXIT_OK
        },
{
    match resp {
        Response::Error(_) => EXIT_DAEMON_ERROR,
        _ => EXIT_OK,
    }
}

/// Why connecting to the daemon's socket failed.
#[derive(Debug, Clone, Copy, PartialEq, Eq, Structural)]
pub enum ConnectErrorKind {
    /// A socket file is there but nothing accepts on it.
    ConnectionRefused,
    /// No socket file.
    NotFound,
    /// Anything else.
    Other,
}

/// Whether spawning a daemon can cure a failed connect: only when nothing
/// listens at the path.
pub fn would_benefit_from_spawn(kind: ConnectErrorKind) -> (r: bool)
    ensures
        r == (kind == ConnectErrorKind::ConnectionRefused || kind == ConnectErrorKind::NotFound),
{
    match kind {
        ConnectErrorKind::ConnectionRefused | ConnectErrorKind::NotFound => true,
        ConnectErrorKind::Other => false,
    }
}

/// The path of `file` inside directory `dir` (`Path::join` of a relative
/// name onto a non-empty directory).
pub open spec fn join_path(dir: Seq<char>, file: Seq<char>) -> Seq<char> {
    if dir.len() > 0 && dir.last() == '/' {
        dir + file
    } else {
        dir + seq!['/'] + file
    }
}

/// The control socket's path: `$HWWCTL_SOCKET` when set and non-empty,
/// else `hwwctl.sock` in `$XDG_RUNTIME_DIR` when that is set, non-empty and
/// writable, else the fallback path.
pub open spec fn socket_path_for(
    socket_env: Option<Seq<char>>,
    runtime_dir: Option<Seq<char>>,
    runtime_dir_writable: bool,
) -> Seq<char> {
    if socket_env is Some && socket_env->0.len() > 0 {
        socket_env->0
    } else if runtime_dir is Some && runtime_dir->0.len() > 0 && runtime_dir_writable {
        join_path(runtime_dir->0, "hwwctl.sock"@)
    } else {
        FALLBACK_SOCKET_PATH@
    }
}

/// Resolves the control socket's path from the values of `HWWCTL_SOCKET`
/// and `XDG_RUNTIME_DIR` (`None` where unset) and whether the runtime
/// directory is writable.
pub fn default_socket_path(
    socket_env: Option<&str>,
    runtime_dir: Option<&str>,
    runtime_dir_writable: bool,
) -> (r: String)
    ensures
        r@ == socket_path_for(
            match socket_env {
                Some(s) => Some(s@),
                None => None,
            },
            match runtime_dir {
                Some(s) => Some(s@),
                None => None,
            },
            runtime_dir_writable,
        ),
        socket_env is Some && socket_env->0@.len() > 0 ==> r@ == socket_env->0@,
{
    if let Some(v) = socket_env {
        if !v.is_empty() {
            return v.to_owned();
        }
    }
    if let Some(dir) = runtime_dir {
        if !dir.is_empty() && runtime_dir_writable {
            let n = dir.unicode_len();
            let mut p = dir.to_owned();
            if dir.get_char(n - 1) != '/' {
                p.append("/");
                proof {
                    reveal_strlit("/");
                }
            }
            p.append("hwwctl.sock");
            return p;
        }
    }
    FALLBACK_SOCKET_PATH.to_owned()
}

/// A start command asks the daemon to wait for readiness exactly when
/// `--no-wait` was not given, whatever the timeout, and hands on the wallet
/// and the timeout as given.
pub proof fn lemma_start_request_waits_unless_no_wait(wallet: Wallet, no_wait: bool, timeout: Option<u64>)
    ensures
        request_for(Cmd::Start { wallet, no_wait, timeout }) is Some,
        request_for(Cmd::Start { wallet, no_wait, timeout })->0 is Start,
        request_for(Cmd::Start { wallet, no_wait, timeout })->0->Start_0.wallet == wallet,
        request_for(Cmd::Start { wallet, no_wait, timeout })->0->Start_0.wait_ready == !no_wait,
        request_for(Cmd::Start { wallet, no_wait, timeout })->0->Start_0.timeout_secs == timeout,
{
}

/// Whether a start request waits does not depend on the timeout, and
/// giving `--no-wait` turns the wait off.
pub proof fn lemma_start_wait_ignores_timeout(
    wallet: Wallet,
    no_wait: bool,
    t1: Option<u64>,
    t2: Option<u64>,
)
    ensures
        request_for(Cmd::Start { wallet, no_wait, timeout: t1 })->0->Start_0.wait_ready
            == request_for(Cmd::Start { wallet, no_wait, timeout: t2 })->0->Start_0.wait_ready,
        request_for(Cmd::Start { wallet, no_wait: false, timeout: t1 })->0->Start_0.wait_ready
            != request_for(Cmd::Start { wallet, no_wait: true, timeout: t1 })->0->Start_0.wait_ready,
{
}

/// A non-empty `$HWWCTL_SOCKET` always wins: the runtime directory and
/// whether it is writable are not looked at.
pub proof fn lemma_socket_env_wins(v: Seq<char>, runtime_dir: Option<Seq<char>>, writable: bool)
    requires
        v.len() > 0,
    ensures
        socket_path_for(Some(v), runtime_dir, writable) == v,
{
}

/// Without a non-empty `$HWWCTL_SOCKET`, a writable non-empty runtime
/// directory gives `hwwctl.sock` inside it; an unset, empty or unwritable
/// one gives the fallback path.
pub proof fn lemma_socket_without_env(
    socket_env: Option<Seq<char>>,
    runtime_dir: Option<Seq<char>>,
    writable: bool,
)
    requires
        socket_env is None || socket_env->0.len() == 0,
    ensures
        runtime_dir is Some && runtime_dir->0.len() > 0 && writable ==> socket_path_for(
            socket_env,
            runtime_dir,
            writable,
        ) == join_path(runtime_dir->0, "hwwctl.sock"@),
        !(runtime_dir is Some && runtime_dir->0.len() > 0 && writable) ==> socket_path_for(
            socket_env,
            runtime_dir,
            writable,
        ) == FALLBACK_SOCKET_PATH@,
{
}

} // verus!
