//! The worker pool: a registry of live user workers keyed by the content
//! fingerprint of their service identity, processing Create / SendRequest /
//! Shutdown commands serially. The pool decides; the surrounding runtime
//! boots engines, forwards requests and delivers replies.

use std::collections::HashMap;

use vstd::prelude::*;

use crate::events::{CreateUserWorkerResult, WorkerEvent, WorkerError};
use crate::fingerprint::{spec_worker_key, worker_key};

verus! {

broadcast use vstd::std_specs::hash::group_hash_axioms;

/// What the pool retains for one live worker: the handle of its request
/// inbox (resolved to a channel by the runtime layer) and whether a
/// telemetry sink is attached.
#[derive(Clone, Copy, Debug, PartialEq, Eq, Structural)]
pub struct UserWorkerProfile {
    pub request_inbox: u64,
    pub has_event_sink: bool,
}

/// Decision for a `Create` command.
#[derive(Clone, Copy, Debug, PartialEq, Eq, Structural)]
pub enum CreateDecision {
    /// A worker under this key is live: reply with the key, boot nothing.
    Reuse { key: u64 },
    /// Boot a fresh worker, to be registered under this key.
    Boot { key: u64 },
}

/// Decision for a `SendRequest` command.
#[derive(Clone, Copy, Debug, PartialEq, Eq, Structural)]
pub enum SendPlan {
    /// Dispatch the request to this live worker's inbox.
    Dispatch { profile: UserWorkerProfile },
    /// No live worker under the key: reply `NotFound`, dispatch nothing.
    ReplyNotFound,
}

/// What a `Create` command decides on a given registry: the key is derived
/// from the service path, salted with the arrival instant when creation is
/// forced; an unforced creation reuses a live key.
pub open spec fn spec_create_decision(
    reg: Map<u64, UserWorkerProfile>,
    path: Seq<u8>,
    force_create: bool,
    now_epoch_ms: u64,
) -> CreateDecision {
    let key = spec_worker_key(path, if force_create { Some(now_epoch_ms) } else { None::<u64> });
    if !force_create && reg.contains_key(key) {
        CreateDecision::Reuse { key }
    } else {
        CreateDecision::Boot { key }
    }
}

/// What a `SendRequest` command decides on a given registry.
pub open spec fn spec_send_plan(reg: Map<u64, UserWorkerProfile>, key: u64) -> SendPlan {
    if reg.contains_key(key) {
        SendPlan::Dispatch { profile: reg[key] }
    } else {
        SendPlan::ReplyNotFound
    }
}

/// The registry of live user workers, owned by the single pool task: at most
/// one profile per key, inserted on boot and removed on shutdown.
pub struct UserWorkerPool {
    registry: HashMap<u64, UserWorkerProfile>,
}

impl View for UserWorkerPool {
    type V = Map<u64, UserWorkerProfile>;

    closed spec fn view(&self) -> Map<u64, UserWorkerProfile> {
        self.registry@
    }
}

impl UserWorkerPool {
    pub fn new() -> (p: UserWorkerPool)
        ensures
            p@ == Map::<u64, UserWorkerProfile>::empty(),
    {
        UserWorkerPool { registry: HashMap::new() }
    }

    /// Number of live workers.
    pub fn len(&self) -> (n: usize)
        ensures
            n == self@.len(),
    {
        self.registry.len()
    }

    /// `Create`: derive the key and either reuse the live worker or direct a
    /// boot. The registry itself changes only when the boot concludes
    /// (`complete_boot`), so two unforced creations for one path in a row
    /// resolve to the same key and one worker.
    pub fn plan_create(&self, service_path: &[u8], force_create: bool, now_epoch_ms: u64) -> (d:
        CreateDecision)
        ensures
            d == spec_create_decision(self@, service_path@, force_create, now_epoch_ms),
    {
        let key = worker_key(service_path, if force_create { Some(now_epoch_ms) } else { None });
        if !force_create && self.registry.contains_key(&key) {
            CreateDecision::Reuse { key }
        } else {
            CreateDecision::Boot { key }
        }
    }

    /// Concludes a directed boot. On success the profile is registered under
    /// the key, the caller is answered with the key, and a `Boot` event
    /// carries the boot time; on failure the registry is unchanged, the
    /// caller is answered with the error, and a `BootFailure` event carries
    /// its message.
    pub fn complete_boot(
        &mut self,
        key: u64,
        booted: Result<UserWorkerProfile, String>,
        boot_time_s: u64,
    ) -> (r: (Result<CreateUserWorkerResult, WorkerError>, WorkerEvent))
        ensures
            booted matches Ok(profile) ==> final(self)@ == old(self)@.insert(key, profile) && r.0
                == Ok::<_, WorkerError>(CreateUserWorkerResult { key }) && r.1 == (
            WorkerEvent::Boot { boot_time_s }),
            booted matches Err(msg) ==> final(self)@ == old(self)@ && r.0 == Err::<
                CreateUserWorkerResult,
                _,
            >(WorkerError::Boot { msg }) && r.1 == (WorkerEvent::BootFailure { msg }),
    {
        match booted {
            Ok(profile) => {
                self.registry.insert(key, profile);
                (Ok(CreateUserWorkerResult { key }), WorkerEvent::Boot { boot_time_s })
            },
            Err(msg) => {
                let failure = WorkerEvent::BootFailure { msg: msg.clone() };
                (Err(WorkerError::Boot { msg }), failure)
            },
        }
    }

    /// `SendRequest` routing: dispatch to the live worker under `key`, or
    /// reply `NotFound` when there is none.
    pub fn plan_send_request(&self, key: u64) -> (p: SendPlan)
        ensures
            p == spec_send_plan(self@, key),
    {
        match self.registry.get(&key) {
            Some(profile) => SendPlan::Dispatch { profile: *profile },
            None => SendPlan::ReplyNotFound,
        }
    }

    /// `Shutdown`: evicts the key. Idempotent; other entries are untouched.
    pub fn shutdown(&mut self, key: u64)
        ensures
            final(self)@ == old(self)@.remove(key),
    {
        self.registry.remove(&key);
    }
}

/// Dedup: once a worker booted for an unforced creation is registered, a
/// second unforced creation for the same path — whatever instant it arrives
/// at — reuses the same key, whatever else the registry holds.
pub proof fn lemma_create_dedup(
    reg: Map<u64, UserWorkerProfile>,
    path: Seq<u8>,
    profile: UserWorkerProfile,
    now_epoch_ms: u64,
)
    ensures
        ({
            let key = spec_worker_key(path, None::<u64>);
            spec_create_decision(reg.insert(key, profile), path, false, now_epoch_ms)
                == CreateDecision::Reuse { key }
        }),
{
}

/// A forced creation never reuses: it always directs a boot, under a key
/// salted with the arrival instant.
pub proof fn lemma_forced_create_boots(
    reg: Map<u64, UserWorkerProfile>,
    path: Seq<u8>,
    now_epoch_ms: u64,
)
    ensures
        spec_create_decision(reg, path, true, now_epoch_ms) == (CreateDecision::Boot {
            key: spec_worker_key(path, Some(now_epoch_ms)),
        }),
{
}

/// After a successful boot registers a profile under a key, a send-request
/// for that key dispatches to exactly that profile, and requests for every
/// other key are routed as before.
pub proof fn lemma_boot_then_dispatch(
    reg: Map<u64, UserWorkerProfile>,
    key: u64,
    profile: UserWorkerProfile,
    other: u64,
)
    requires
        other != key,
    ensures
        spec_send_plan(reg.insert(key, profile), key) == (SendPlan::Dispatch { profile }),
        spec_send_plan(reg.insert(key, profile), other) == spec_send_plan(reg, other),
{
}

/// Eviction: after the shutdown for a key is processed, a send-request for
/// that key replies `NotFound` until a creation registers it anew.
pub proof fn lemma_eviction(reg: Map<u64, UserWorkerProfile>, key: u64)
    ensures
        spec_send_plan(reg.remove(key), key) == SendPlan::ReplyNotFound,
{
}

/// Shutdown is idempotent: processing it twice leaves what processing it
/// once left.
pub proof fn lemma_shutdown_idempotent(reg: Map<u64, UserWorkerProfile>, key: u64)
    ensures
        reg.remove(key).remove(key) == reg.remove(key),
{
    assert(reg.remove(key).remove(key) =~= reg.remove(key));
}

} // verus!
