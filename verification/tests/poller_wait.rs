use sidecar_supervisor::poller::PollStatus;
use sidecar_supervisor::poller::ProbeOutcome;
use sidecar_supervisor::poller::ReadinessPoller;
use sidecar_supervisor::READY_TIMEOUT_MS;
use sidecar_supervisor::RETRY_INTERVAL_MS;

#[test]
fn ready_on_first_probe() {
    let mut p = ReadinessPoller::new(READY_TIMEOUT_MS);
    assert!(p.check_deadline(0));
    assert!(p.record_probe(ProbeOutcome::Response { status: 200 }));
    assert_eq!(p.status, PollStatus::Ready);
    assert_eq!(p.result(), Some(true));
}

#[test]
fn ready_on_second_probe() {
    let mut p = ReadinessPoller::new(READY_TIMEOUT_MS);
    assert!(p.check_deadline(0));
    assert!(!p.record_probe(ProbeOutcome::TransportError));
    assert!(p.check_deadline(RETRY_INTERVAL_MS));
    assert!(p.record_probe(ProbeOutcome::Response { status: 200 }));
    assert_eq!(p.result(), Some(true));
}

#[test]
fn times_out_when_port_never_binds() {
    let mut p = ReadinessPoller::new(READY_TIMEOUT_MS);
    let mut elapsed: u64 = 0;
    loop {
        if !p.check_deadline(elapsed) {
            break;
        }
        assert!(!p.record_probe(ProbeOutcome::TransportError));
        elapsed += RETRY_INTERVAL_MS;
    }
    assert_eq!(p.status, PollStatus::TimedOut);
    assert_eq!(p.result(), Some(false));
    assert_eq!(elapsed, READY_TIMEOUT_MS);
}

#[test]
fn non_2xx_responses_are_retried() {
    let mut p = ReadinessPoller::new(READY_TIMEOUT_MS);
    assert!(p.check_deadline(0));
    assert!(!p.record_probe(ProbeOutcome::Response { status: 404 }));
    assert_eq!(p.status, PollStatus::Waiting);
    assert_eq!(p.result(), None);
}

#[test]
fn transport_errors_are_retried() {
    let mut p = ReadinessPoller::new(READY_TIMEOUT_MS);
    assert!(p.check_deadline(0));
    assert!(!p.record_probe(ProbeOutcome::TransportError));
    assert_eq!(p.status, PollStatus::Waiting);
    assert_eq!(p.result(), None);
}

#[test]
fn success_status_bounds() {
    let mut p = ReadinessPoller::new(READY_TIMEOUT_MS);
    assert!(p.check_deadline(0));
    assert!(!p.record_probe(ProbeOutcome::Response { status: 199 }));
    assert!(!p.record_probe(ProbeOutcome::Response { status: 300 }));
    assert!(!p.record_probe(ProbeOutcome::Response { status: 500 }));
    assert!(p.record_probe(ProbeOutcome::Response { status: 299 }));
    assert_eq!(p.result(), Some(true));
}

#[test]
fn deadline_boundary() {
    let mut p = ReadinessPoller::new(READY_TIMEOUT_MS);
    assert!(p.check_deadline(READY_TIMEOUT_MS - 1));
    assert!(!p.check_deadline(READY_TIMEOUT_MS));
    assert_eq!(p.result(), Some(false));
}

#[test]
fn zero_timeout_never_probes() {
    let mut p = ReadinessPoller::new(0);
    assert!(!p.check_deadline(0));
    assert_eq!(p.result(), Some(false));
}
