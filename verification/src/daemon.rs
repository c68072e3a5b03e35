//! The daemon's answer to each request. Requests that only touch the
//! registry are answered here; starting an instance, reading logs and
//! reading bridge counters need work outside the library, so dispatch
//! says which of those to do.

use vstd::prelude::*;
use vstd::string::*;
use crate::protocol::{
    BridgeStatsRequest, Error, ErrorCode, InstanceSummary, LogsRequest, PongInfo, Request, Response,
    StartRequest, PROTOCOL_VERSION,
};
use crate::registry::{
    has_id, id_index, not_found, not_found_message, removed, stopping, summary_of, Instance,
    Registry,
};

verus! {

/// What the daemon does with a request.
#[derive(Debug)]
pub enum Dispatched {
    /// Tear down the processes and bridges of `teardown`, then send
    /// `response`.
    Reply { response: Response, teardown: Vec<Instance> },
    /// Run the start sequence, then reply with [`started_response`].
    Start(StartRequest),
    /// Gather the instance's captured output (the instance is known) and
    /// reply with `Logs`.
    Logs(LogsRequest),
    /// Read the instance's bridge counters (the instance is known) and
    /// reply with `BridgeStats`.
    BridgeStats(BridgeStatsRequest),
}

/// The answer to a finished start sequence.
pub fn started_response(result: Result<InstanceSummary, Error>) -> (r: Response)
    ensures
        match result {
            Ok(s) => r == Response::Started(s),
            Err(e) => r == Response::Error(e),
        },
{
    match result {
        Ok(s) => Response::Started(s),
        Err(e) => Response::Error(e),
    }
}

/// Whether the daemon must shut down once the answer is on the wire.
pub fn is_shutdown(request: &Request) -> (r: bool)
    ensures
        r == (*request is Shutdown),
{
    match request {
        Request::Shutdown => true,
        _ => false,
    }
}

/// Handles one request against the registry. Ping is answered with the
/// daemon's version, the protocol version and its process id; stop is
/// always answered `Stopped`, known id or not; status answers snapshots or
/// `InstanceNotFound`; shutdown stops every instance and answers
/// `ShuttingDown`. Logs and bridge counters of an unknown id are
/// `InstanceNotFound`.
pub fn dispatch(request: Request, registry: &mut Registry, daemon_version: &str, pid: u32) -> (r:
    Dispatched)
    ensures
        match request {
            Request::Ping => {
                &&& final(registry)@ == old(registry)@
                &&& r matches Dispatched::Reply { response: Response::Pong(info), teardown }
                &&& info.daemon_version@ == daemon_version@
                &&& info.protocol_version == PROTOCOL_VERSION
                &&& info.pid == pid
                &&& teardown@.len() == 0
            },
            Request::Start(req) => final(registry)@ == old(registry)@ && r == Dispatched::Start(req),
            Request::Stop(req) => {
                &&& final(registry)@ == removed(old(registry)@, req.instance.0@)
                &&& r matches Dispatched::Reply { response: Response::Stopped, teardown }
                &&& teardown@ == if has_id(old(registry)@, req.instance.0@) {
                    seq![stopping(old(registry)@[id_index(old(registry)@, req.instance.0@)])]
                } else {
                    Seq::empty()
                }
            },
            Request::Status(req) => {
                &&& final(registry)@ == old(registry)@
                &&& r matches Dispatched::Reply { response, teardown }
                &&& teardown@.len() == 0
                &&& match req.instance {
                    None => {
                        &&& response matches Response::Status { instances }
                        &&& instances@ == old(registry)@.map_values(|i: Instance| summary_of(i))
                    },
                    Some(id) => if has_id(old(registry)@, id.0@) {
                        &&& response matches Response::Status { instances }
                        &&& instances@ == seq![
                            summary_of(old(registry)@[id_index(old(registry)@, id.0@)]),
                        ]
                    } else {
                        &&& response matches Response::Error(e)
                        &&& e.code == ErrorCode::InstanceNotFound
                        &&& e.message@ == not_found_message(id.0@)
                    },
                }
            },
            Request::Logs(req) => {
                &&& final(registry)@ == old(registry)@
                &&& if has_id(old(registry)@, req.instance.0@) {
                    r == Dispatched::Logs(req)
                } else {
                    &&& r matches Dispatched::Reply { response: Response::Error(e), teardown }
                    &&& teardown@.len() == 0
                    &&& e.code == ErrorCode::InstanceNotFound
                    &&& e.message@ == not_found_message(req.instance.0@)
                }
            },
            Request::BridgeStats(req) => {
                &&& final(registry)@ == old(registry)@
                &&& if has_id(old(registry)@, req.instance.0@) {
                    r == Dispatched::BridgeStats(req)
                } else {
                    &&& r matches Dispatched::Reply { response: Response::Error(e), teardown }
                    &&& teardown@.len() == 0
                    &&& e.code == ErrorCode::InstanceNotFound
                    &&& e.message@ == not_found_message(req.instance.0@)
                }
            },
            Request::Shutdown => {
                &&& final(registry)@ == Seq::<Instance>::empty()
                &&& r matches Dispatched::Reply { response: Response::ShuttingDown, teardown }
                &&& teardown@ == old(registry)@.map_values(|i: Instance| stopping(i))
            },
        },
{
    match request {
        Request::Ping => Dispatched::Reply {
            response: Response::Pong(
                PongInfo {
                    daemon_version: daemon_version.to_owned(),
                    protocol_version: PROTOCOL_VERSION,
                    pid,
                },
            ),
            teardown: Vec::new(),
        },
        Request::Start(req) => Dispatched::Start(req),
        Request::Stop(req) => {
            let mut teardown: Vec<Instance> = Vec::new();
            match registry.stop(&req.instance) {
                Some(inst) => {
                    teardown.push(inst);
                },
                None => {},
            }
            assert(teardown@ =~= if has_id(old(registry)@, req.instance.0@) {
                seq![stopping(old(registry)@[id_index(old(registry)@, req.instance.0@)])]
            } else {
                Seq::empty()
            });
            Dispatched::Reply { response: Response::Stopped, teardown }
        },
        Request::Status(req) => {
            let response = match registry.status(&req.instance) {
                Ok(instances) => Response::Status { instances },
                Err(e) => Response::Error(e),
            };
            Dispatched::Reply { response, teardown: Vec::new() }
        },
        Request::Logs(req) => {
            match registry.find(&req.instance) {
                Some(_) => Dispatched::Logs(req),
                None => Dispatched::Reply {
                    response: Response::Error(not_found(&req.instance)),
                    teardown: Vec::new(),
                },
            }
        },
        Request::BridgeStats(req) => {
            match registry.find(&req.instance) {
                Some(_) => Dispatched::BridgeStats(req),
                None => Dispatched::Reply {
                    response: Response::Error(not_found(&req.instance)),
                    teardown: Vec::new(),
                },
            }
        },
        Request::Shutdown => {
            let teardown = registry.shutdown();
            Dispatched::Reply { response: Response::ShuttingDown, teardown }
        },
    }
}

} // verus!
