//! Telemetry events published on the event sink, and the error kinds the
//! subsystem reports to callers.

use vstd::prelude::*;

verus! {

/// Telemetry variants accepted by the event sink.
#[derive(Clone, Debug, PartialEq, Eq)]
pub enum WorkerEvent {
    Boot { boot_time_s: u64 },
    BootFailure { msg: String },
    UncaughtException { exception: String },
    MemoryLimit,
}

/// Error kinds surfaced by the pool and the per-request transport.
#[derive(Clone, Debug, PartialEq, Eq)]
pub enum WorkerError {
    /// A request was routed to a key with no live worker.
    NotFound,
    /// Engine construction failed.
    Boot { msg: String },
    /// The per-request transport failed before a full response arrived.
    Transport { msg: String },
}

impl WorkerError {
    /// The message a caller sees for this error.
    pub fn message(&self) -> (r: String)
        ensures
            self matches WorkerError::NotFound ==> r@ == "user worker not available"@,
            self matches WorkerError::Boot { msg } ==> r == msg,
            self matches WorkerError::Transport { msg } ==> r == msg,
    {
        match self {
            WorkerError::NotFound => "user worker not available".to_owned(),
            WorkerError::Boot { msg } => msg.clone(),
            WorkerError::Transport { msg } => msg.clone(),
        }
    }
}

/// Successful `Create` reply: the key the new or reused worker is addressed
/// by.
#[derive(Clone, Copy, Debug, PartialEq, Eq, Structural)]
pub struct CreateUserWorkerResult {
    pub key: u64,
}

} // verus!
