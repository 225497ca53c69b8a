use worker_lifecycle::events::CreateUserWorkerResult;
use worker_lifecycle::events::WorkerError;
use worker_lifecycle::events::WorkerEvent;
use worker_lifecycle::pool::CreateDecision;
use worker_lifecycle::pool::SendPlan;
use worker_lifecycle::pool::UserWorkerPool;
use worker_lifecycle::pool::UserWorkerProfile;

fn profile(inbox: u64) -> UserWorkerProfile {
    UserWorkerProfile { request_inbox: inbox, has_event_sink: true }
}

#[test]
fn create_reuses_live_worker() {
    // Two unforced creations for one path: same key, one worker.
    let mut pool = UserWorkerPool::new();
    let key = match pool.plan_create(b"/svc/a", false, 1_000) {
        CreateDecision::Boot { key } => key,
        CreateDecision::Reuse { .. } => panic!("empty pool cannot reuse"),
    };
    let (reply, event) = pool.complete_boot(key, Ok(profile(1)), 0);
    assert_eq!(reply, Ok(CreateUserWorkerResult { key }));
    assert_eq!(event, WorkerEvent::Boot { boot_time_s: 0 });
    assert_eq!(pool.len(), 1);

    match pool.plan_create(b"/svc/a", false, 2_000) {
        CreateDecision::Reuse { key: k2 } => assert_eq!(k2, key),
        CreateDecision::Boot { .. } => panic!("live worker must be reused"),
    }
    assert_eq!(pool.len(), 1);
}

#[test]
fn forced_create_boots_fresh_worker() {
    // Two forced creations in a row: distinct keys, two workers, two boots.
    let mut pool = UserWorkerPool::new();
    let k1 = match pool.plan_create(b"/svc/a", true, 1_000) {
        CreateDecision::Boot { key } => key,
        CreateDecision::Reuse { .. } => panic!("forced creation cannot reuse"),
    };
    let (_, e1) = pool.complete_boot(k1, Ok(profile(1)), 0);
    let k2 = match pool.plan_create(b"/svc/a", true, 1_001) {
        CreateDecision::Boot { key } => key,
        CreateDecision::Reuse { .. } => panic!("forced creation cannot reuse"),
    };
    let (_, e2) = pool.complete_boot(k2, Ok(profile(2)), 0);
    assert_ne!(k1, k2);
    assert_eq!(pool.len(), 2);
    assert_eq!(e1, WorkerEvent::Boot { boot_time_s: 0 });
    assert_eq!(e2, WorkerEvent::Boot { boot_time_s: 0 });
}

#[test]
fn forced_then_unforced_keys_differ() {
    let mut pool = UserWorkerPool::new();
    let k1 = match pool.plan_create(b"/svc/a", true, 1_000) {
        CreateDecision::Boot { key } => key,
        CreateDecision::Reuse { .. } => panic!("forced creation cannot reuse"),
    };
    pool.complete_boot(k1, Ok(profile(1)), 0);
    let k2 = match pool.plan_create(b"/svc/a", false, 2_000) {
        CreateDecision::Boot { key } => key,
        CreateDecision::Reuse { .. } => panic!("unforced key never matches a forced one"),
    };
    assert_ne!(k1, k2);
}

#[test]
fn boot_failure_leaves_registry_unchanged() {
    let mut pool = UserWorkerPool::new();
    let key = match pool.plan_create(b"/svc/broken", false, 1_000) {
        CreateDecision::Boot { key } => key,
        CreateDecision::Reuse { .. } => panic!("empty pool cannot reuse"),
    };
    let (reply, event) = pool.complete_boot(key, Err("worker boot error".to_owned()), 3);
    assert_eq!(reply, Err(WorkerError::Boot { msg: "worker boot error".to_owned() }));
    assert_eq!(event, WorkerEvent::BootFailure { msg: "worker boot error".to_owned() });
    assert_eq!(pool.len(), 0);
    // The failed key is not live afterwards.
    assert_eq!(pool.plan_send_request(key), SendPlan::ReplyNotFound);
}

#[test]
fn send_request_routes_to_live_worker() {
    let mut pool = UserWorkerPool::new();
    let key = match pool.plan_create(b"/svc/a", false, 1_000) {
        CreateDecision::Boot { key } => key,
        CreateDecision::Reuse { .. } => panic!("empty pool cannot reuse"),
    };
    assert_eq!(pool.plan_send_request(key), SendPlan::ReplyNotFound);
    pool.complete_boot(key, Ok(profile(9)), 0);
    assert_eq!(pool.plan_send_request(key), SendPlan::Dispatch { profile: profile(9) });
}

#[test]
fn shutdown_evicts_key() {
    // After the host's self-sent shutdown, the key answers NotFound.
    let mut pool = UserWorkerPool::new();
    let key = match pool.plan_create(b"/svc/a", false, 1_000) {
        CreateDecision::Boot { key } => key,
        CreateDecision::Reuse { .. } => panic!("empty pool cannot reuse"),
    };
    pool.complete_boot(key, Ok(profile(1)), 0);
    assert_eq!(pool.len(), 1);
    pool.shutdown(key);
    assert_eq!(pool.len(), 0);
    assert_eq!(pool.plan_send_request(key), SendPlan::ReplyNotFound);
}

#[test]
fn shutdown_is_idempotent() {
    let mut pool = UserWorkerPool::new();
    let key = match pool.plan_create(b"/svc/a", false, 1_000) {
        CreateDecision::Boot { key } => key,
        CreateDecision::Reuse { .. } => panic!("empty pool cannot reuse"),
    };
    pool.complete_boot(key, Ok(profile(1)), 0);
    pool.shutdown(key);
    pool.shutdown(key);
    assert_eq!(pool.len(), 0);
    // An unrelated worker is untouched by the eviction.
    let other = match pool.plan_create(b"/svc/b", false, 1_000) {
        CreateDecision::Boot { key } => key,
        CreateDecision::Reuse { .. } => panic!("empty pool cannot reuse"),
    };
    pool.complete_boot(other, Ok(profile(2)), 0);
    pool.shutdown(key);
    assert_eq!(pool.len(), 1);
}
