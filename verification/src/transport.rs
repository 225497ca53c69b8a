//! Per-request dispatch conclusion. Each admitted request travels over its
//! own private byte-stream to the worker's engine; whatever that transport
//! produced, the dispatcher owes the caller exactly one reply, and surfaces
//! a transport failure as telemetry besides.

use vstd::prelude::*;

use crate::events::{WorkerEvent, WorkerError};
use crate::pool::{spec_send_plan, SendPlan, UserWorkerProfile};

verus! {

/// What the per-request transport produced: a complete response handed back
/// by the engine, or a failure (handshake, send, or a worker killed
/// mid-request) with its message.
#[derive(Clone, Debug, PartialEq, Eq)]
pub enum RequestOutcome {
    Responded,
    TransportFailed { msg: String },
}

/// The one reply owed to the caller of `SendRequest`.
#[derive(Clone, Debug, PartialEq, Eq)]
pub enum SendRequestReply {
    /// Forward the engine's response to the caller as it stands.
    Forward,
    /// Report this error to the caller.
    Fail { error: WorkerError },
}

/// The reply a dispatched request concludes with.
pub open spec fn spec_conclude_reply(outcome: RequestOutcome) -> SendRequestReply {
    match outcome {
        RequestOutcome::Responded => SendRequestReply::Forward,
        RequestOutcome::TransportFailed { msg } => SendRequestReply::Fail {
            error: WorkerError::Transport { msg },
        },
    }
}

/// The telemetry a dispatched request concludes with: nothing on success, an
/// `UncaughtException` carrying the message on failure.
pub open spec fn spec_conclude_event(outcome: RequestOutcome) -> Option<WorkerEvent> {
    match outcome {
        RequestOutcome::Responded => None,
        RequestOutcome::TransportFailed { msg } => Some(
            WorkerEvent::UncaughtException { exception: msg },
        ),
    }
}

/// Concludes one dispatched request: exactly one reply for the caller, and
/// the event to emit, both determined by the transport outcome alone.
pub fn conclude_dispatch(outcome: RequestOutcome) -> (r: (SendRequestReply, Option<WorkerEvent>))
    ensures
        r.0 == spec_conclude_reply(outcome),
        r.1 == spec_conclude_event(outcome),
{
    match outcome {
        RequestOutcome::Responded => (SendRequestReply::Forward, None),
        RequestOutcome::TransportFailed { msg } => {
            let event = WorkerEvent::UncaughtException { exception: msg.clone() };
            (SendRequestReply::Fail { error: WorkerError::Transport { msg } }, Some(event))
        },
    }
}

/// The single reply every `SendRequest` resolves to, over the registry, the
/// key and the transport outcome.
pub open spec fn spec_send_request_reply(
    reg: Map<u64, UserWorkerProfile>,
    key: u64,
    outcome: RequestOutcome,
) -> SendRequestReply {
    match spec_send_plan(reg, key) {
        SendPlan::Dispatch { .. } => spec_conclude_reply(outcome),
        SendPlan::ReplyNotFound => SendRequestReply::Fail { error: WorkerError::NotFound },
    }
}

/// Single reply: for every registry state, key and transport outcome, the
/// send-request path determines exactly one reply — `NotFound` when no
/// worker is live under the key, otherwise the forwarded response or the
/// transport error — never none and never a second.
pub proof fn lemma_send_request_single_reply(
    reg: Map<u64, UserWorkerProfile>,
    key: u64,
    outcome: RequestOutcome,
)
    ensures
        reg.contains_key(key) ==> spec_send_request_reply(reg, key, outcome)
            == spec_conclude_reply(outcome),
        !reg.contains_key(key) ==> spec_send_request_reply(reg, key, outcome)
            == (SendRequestReply::Fail { error: WorkerError::NotFound }),
        (spec_send_request_reply(reg, key, outcome) matches SendRequestReply::Forward) <==> (
        reg.contains_key(key) && outcome matches RequestOutcome::Responded),
{
}

} // verus!
