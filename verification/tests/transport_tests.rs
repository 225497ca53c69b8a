use worker_lifecycle::events::WorkerError;
use worker_lifecycle::events::WorkerEvent;
use worker_lifecycle::transport::conclude_dispatch;
use worker_lifecycle::transport::RequestOutcome;
use worker_lifecycle::transport::SendRequestReply;

#[test]
fn response_is_forwarded_without_telemetry() {
    // A round-tripped response (e.g. the test engine's "pong") reaches the
    // caller as-is and emits nothing.
    let (reply, event) = conclude_dispatch(RequestOutcome::Responded);
    assert_eq!(reply, SendRequestReply::Forward);
    assert_eq!(event, None);
}

#[test]
fn transport_failure_replies_and_emits_once() {
    // A killed worker surfaces as one transport error on the in-flight
    // request, plus one UncaughtException event.
    let outcome = RequestOutcome::TransportFailed { msg: "connection closed".to_owned() };
    let (reply, event) = conclude_dispatch(outcome);
    assert_eq!(
        reply,
        SendRequestReply::Fail {
            error: WorkerError::Transport { msg: "connection closed".to_owned() },
        }
    );
    assert_eq!(
        event,
        Some(WorkerEvent::UncaughtException { exception: "connection closed".to_owned() })
    );
}

#[test]
fn not_found_message() {
    assert_eq!(WorkerError::NotFound.message(), "user worker not available".to_owned());
    assert_eq!(
        WorkerError::Transport { msg: "broken pipe".to_owned() }.message(),
        "broken pipe".to_owned()
    );
    assert_eq!(
        WorkerError::Boot { msg: "worker boot error".to_owned() }.message(),
        "worker boot error".to_owned()
    );
}
