//! Worker-host decisions: how a worker is configured, what its OS thread is
//! named, whether it is supervised, and what it does when its engine exits.
//! The runtime layer owns the thread, the engine and the channels; it asks
//! these functions what to do.

use vstd::prelude::*;

use crate::events::WorkerEvent;
use crate::fingerprint::dec_digits;
use crate::fingerprint::u64_to_decimal;

verus! {

/// User-worker configuration attached by the pool before boot.
#[derive(Clone, Copy, Debug, PartialEq, Eq, Structural)]
pub struct UserWorkerOpts {
    /// Key the worker will be registered under; attached by the pool.
    pub key: Option<u64>,
    /// Bypass dedup: always boot a fresh worker.
    pub force_create: bool,
    /// Whether a send-handle back to the pool is attached, for self-eviction.
    pub has_pool_sink: bool,
    /// Whether a telemetry sink is attached.
    pub has_event_sink: bool,
}

/// The three kinds of worker a host thread can run.
#[derive(Clone, Copy, Debug, PartialEq, Eq, Structural)]
pub enum WorkerConf {
    UserWorker(UserWorkerOpts),
    MainWorker,
    EventsWorker,
}

/// Initialization options for one worker host. `service_path` and
/// `env_vars` pass through untouched to the engine.
pub struct WorkerInitOpts {
    pub service_path: Vec<u8>,
    pub env_vars: Vec<(String, String)>,
    pub import_map_path: Option<String>,
    pub no_module_cache: bool,
    pub conf: WorkerConf,
}

/// `"sb-iso-"`, the prefix of a keyed user worker's thread name.
pub open spec fn spec_sb_iso_prefix() -> Seq<u8> {
    seq![0x73u8, 0x62, 0x2d, 0x69, 0x73, 0x6f, 0x2d]
}

/// `"sb-sup-"`, the prefix of a supervisor's thread name.
pub open spec fn spec_sb_sup_prefix() -> Seq<u8> {
    seq![0x73u8, 0x62, 0x2d, 0x73, 0x75, 0x70, 0x2d]
}

/// `"main-worker"`.
pub open spec fn spec_main_worker_name() -> Seq<u8> {
    seq![0x6du8, 0x61, 0x69, 0x6e, 0x2d, 0x77, 0x6f, 0x72, 0x6b, 0x65, 0x72]
}

/// `"events-worker"`.
pub open spec fn spec_events_worker_name() -> Seq<u8> {
    seq![0x65u8, 0x76, 0x65, 0x6e, 0x74, 0x73, 0x2d, 0x77, 0x6f, 0x72, 0x6b, 0x65, 0x72]
}

/// `"isolate-worker-unknown"`, for a user worker booted without a key.
pub open spec fn spec_unknown_isolate_name() -> Seq<u8> {
    seq![
        0x69u8,
        0x73,
        0x6f,
        0x6c,
        0x61,
        0x74,
        0x65,
        0x2d,
        0x77,
        0x6f,
        0x72,
        0x6b,
        0x65,
        0x72,
        0x2d,
        0x75,
        0x6e,
        0x6b,
        0x6e,
        0x6f,
        0x77,
        0x6e,
    ]
}

/// The name of the host thread for a worker configuration: the fixed names
/// for main and events workers, and the key in decimal under the
/// `"sb-iso-"` prefix for a keyed user worker.
pub open spec fn spec_worker_thread_name(conf: WorkerConf) -> Seq<u8> {
    match conf {
        WorkerConf::MainWorker => spec_main_worker_name(),
        WorkerConf::EventsWorker => spec_events_worker_name(),
        WorkerConf::UserWorker(opts) => match opts.key {
            Some(k) => spec_sb_iso_prefix() + dec_digits(k as nat),
            None => spec_unknown_isolate_name(),
        },
    }
}

/// Computes the host thread's name (as bytes of an ASCII string).
pub fn worker_thread_name(conf: &WorkerConf) -> (r: Vec<u8>)
    ensures
        r@ == spec_worker_thread_name(*conf),
{
    match conf {
        WorkerConf::MainWorker => {
            let v: Vec<u8> = vec![0x6d, 0x61, 0x69, 0x6e, 0x2d, 0x77, 0x6f, 0x72, 0x6b, 0x65, 0x72];
            proof {
                assert(v@ =~= spec_main_worker_name());
            }
            v
        },
        WorkerConf::EventsWorker => {
            let v: Vec<u8> = vec![
                0x65,
                0x76,
                0x65,
                0x6e,
                0x74,
                0x73,
                0x2d,
                0x77,
                0x6f,
                0x72,
                0x6b,
                0x65,
                0x72,
            ];
            proof {
                assert(v@ =~= spec_events_worker_name());
            }
            v
        },
        WorkerConf::UserWorker(opts) => match opts.key {
            Some(k) => {
                let mut v: Vec<u8> = vec![0x73, 0x62, 0x2d, 0x69, 0x73, 0x6f, 0x2d];
                let mut d = u64_to_decimal(k);
                proof {
                    assert(v@ =~= spec_sb_iso_prefix());
                }
                v.append(&mut d);
                v
            },
            None => {
                let v: Vec<u8> = vec![
                    0x69,
                    0x73,
                    0x6f,
                    0x6c,
                    0x61,
                    0x74,
                    0x65,
                    0x2d,
                    0x77,
                    0x6f,
                    0x72,
                    0x6b,
                    0x65,
                    0x72,
                    0x2d,
                    0x75,
                    0x6e,
                    0x6b,
                    0x6e,
                    0x6f,
                    0x77,
                    0x6e,
                ];
                proof {
                    assert(v@ =~= spec_unknown_isolate_name());
                }
                v
            },
        },
    }
}

/// Computes the supervisor thread's name for a worker key: the key in
/// decimal under the `"sb-sup-"` prefix.
pub fn supervisor_thread_name(key: u64) -> (r: Vec<u8>)
    ensures
        r@ == spec_sb_sup_prefix() + dec_digits(key as nat),
{
    let mut v: Vec<u8> = vec![0x73, 0x62, 0x2d, 0x73, 0x75, 0x70, 0x2d];
    let mut d = u64_to_decimal(key);
    proof {
        assert(v@ =~= spec_sb_sup_prefix());
    }
    v.append(&mut d);
    v
}

/// Only user workers are supervised; main and events workers run without
/// resource budgets.
pub fn needs_supervisor(conf: &WorkerConf) -> (r: bool)
    ensures
        r == (*conf matches WorkerConf::UserWorker(_)),
{
    match conf {
        WorkerConf::UserWorker(_) => true,
        _ => false,
    }
}

/// What a host does once its engine's run loop has returned.
pub struct HostExitPlan {
    /// Telemetry to emit: the run's error, when there was one and a sink is
    /// attached.
    pub emit: Option<WorkerEvent>,
    /// Key to self-send `Shutdown` for, when the worker was registered under
    /// a key and holds a send-handle back to the pool.
    pub notify_shutdown: Option<u64>,
}

/// Decides the host's exit duties: surface a fatal engine error as an
/// `UncaughtException` event, then ask the pool to evict the worker's key —
/// each exactly when the corresponding handle exists.
pub fn plan_host_exit(
    key: Option<u64>,
    has_pool_sink: bool,
    has_event_sink: bool,
    run_error: Option<String>,
) -> (r: HostExitPlan)
    ensures
        r.emit == (match run_error {
            Some(msg) => if has_event_sink {
                Some(WorkerEvent::UncaughtException { exception: msg })
            } else {
                None
            },
            None => None::<WorkerEvent>,
        }),
        r.notify_shutdown == (match key {
            Some(k) => if has_pool_sink {
                Some(k)
            } else {
                None
            },
            None => None::<u64>,
        }),
{
    let emit = match run_error {
        Some(msg) => if has_event_sink {
            Some(WorkerEvent::UncaughtException { exception: msg })
        } else {
            None
        },
        None => None,
    };
    let notify_shutdown = match key {
        Some(k) => if has_pool_sink {
            Some(k)
        } else {
            None
        },
        None => None,
    };
    HostExitPlan { emit, notify_shutdown }
}

/// Builds the initialization options of the events worker: its inbound
/// channel carries telemetry values instead of request streams, it has no
/// supervisor and no key.
pub fn event_worker_opts(
    event_worker_path: Vec<u8>,
    import_map_path: Option<String>,
    no_module_cache: bool,
    env_vars: Vec<(String, String)>,
) -> (r: WorkerInitOpts)
    ensures
        r.service_path == event_worker_path,
        r.env_vars == env_vars,
        r.import_map_path == import_map_path,
        r.no_module_cache == no_module_cache,
        r.conf matches WorkerConf::EventsWorker,
{
    WorkerInitOpts {
        service_path: event_worker_path,
        env_vars,
        import_map_path,
        no_module_cache,
        conf: WorkerConf::EventsWorker,
    }
}

/// Thread id reported where the platform layer arms no per-thread CPU
/// timer: on such platforms no real id is available and the supervisor
/// degrades to wall-clock and memory enforcement.
pub fn get_thread_id() -> (r: i32)
    ensures
        r == 0,
{
    0
}

} // verus!
