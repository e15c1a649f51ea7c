use sidecar_supervisor::poller::PollStatus;
use sidecar_supervisor::poller::ProbeOutcome;
use sidecar_supervisor::supervisor::Action;
use sidecar_supervisor::supervisor::Event;
use sidecar_supervisor::supervisor::Supervisor;
use sidecar_supervisor::READY_TIMEOUT_MS;
use sidecar_supervisor::RETRY_INTERVAL_MS;

fn ok_probe() -> Event {
    Event::ProbeResult { outcome: ProbeOutcome::Response { status: 200 } }
}

fn failed_probe() -> Event {
    Event::ProbeResult { outcome: ProbeOutcome::TransportError }
}

#[test]
fn scenario_missing_binary_aborts_setup() {
    let mut sup = Supervisor::new(READY_TIMEOUT_MS);
    assert_eq!(sup.handle(Event::SpawnResult { ok: false }), Action::AbortSetup);
    assert!(!sup.is_live());
    // Nothing else ever happens: no polling, no redirect, no shutdown.
    assert_eq!(sup.handle(Event::SurfaceResult { found: true }), Action::Ignore);
    assert_eq!(sup.handle(Event::DeadlineCheck { elapsed_ms: 0 }), Action::Ignore);
    assert_eq!(sup.handle(ok_probe()), Action::Ignore);
    assert_eq!(sup.handle(Event::CloseRequested), Action::Ignore);
    assert!(!sup.is_live());
    assert!(!sup.shutdown_sent);
    assert_eq!(sup.poll, PollStatus::Waiting);
}

#[test]
fn scenario_fast_bind_redirects_once() {
    let mut sup = Supervisor::new(READY_TIMEOUT_MS);
    assert_eq!(sup.handle(Event::SpawnResult { ok: true }), Action::QuerySurface);
    assert!(sup.is_live());
    assert_eq!(sup.handle(Event::SurfaceResult { found: true }), Action::StartPolling);
    assert_eq!(sup.handle(Event::DeadlineCheck { elapsed_ms: 0 }), Action::Probe);
    assert_eq!(sup.handle(failed_probe()), Action::Ignore);
    assert_eq!(
        sup.handle(Event::DeadlineCheck { elapsed_ms: RETRY_INTERVAL_MS }),
        Action::Probe
    );
    assert_eq!(sup.handle(ok_probe()), Action::Redirect);
    assert_eq!(sup.poll, PollStatus::Ready);
    // A second success never redirects again.
    assert_eq!(sup.handle(ok_probe()), Action::Ignore);
    assert_eq!(
        sup.handle(Event::DeadlineCheck { elapsed_ms: 2 * RETRY_INTERVAL_MS }),
        Action::Ignore
    );
}

#[test]
fn scenario_never_binds_times_out_without_redirect() {
    let mut sup = Supervisor::new(READY_TIMEOUT_MS);
    sup.handle(Event::SpawnResult { ok: true });
    sup.handle(Event::SurfaceResult { found: true });
    let mut elapsed: u64 = 0;
    loop {
        match sup.handle(Event::DeadlineCheck { elapsed_ms: elapsed }) {
            Action::Probe => {
                assert_eq!(sup.handle(failed_probe()), Action::Ignore);
                elapsed += RETRY_INTERVAL_MS;
            }
            Action::Ignore => break,
            other => panic!("unexpected action {:?}", other),
        }
    }
    assert_eq!(sup.poll, PollStatus::TimedOut);
    assert_eq!(elapsed, READY_TIMEOUT_MS);
    // Even a late success no longer redirects.
    assert_eq!(sup.handle(ok_probe()), Action::Ignore);
}

#[test]
fn scenario_close_during_wait_sends_shutdown_at_once() {
    let mut sup = Supervisor::new(READY_TIMEOUT_MS);
    sup.handle(Event::SpawnResult { ok: true });
    sup.handle(Event::SurfaceResult { found: true });
    assert_eq!(sup.handle(Event::DeadlineCheck { elapsed_ms: 0 }), Action::Probe);
    assert_eq!(sup.handle(failed_probe()), Action::Ignore);
    // Five seconds into the thirty-second wait the user closes the window.
    assert_eq!(sup.handle(Event::CloseRequested), Action::SendShutdown);
    assert!(sup.shutdown_sent);
    // The detached poll loop may still run; it has no further visible effect
    // beyond its own redirect, and closing again never resends.
    assert_eq!(sup.handle(Event::CloseRequested), Action::Ignore);
    assert_eq!(sup.handle(Event::DeadlineCheck { elapsed_ms: 5200 }), Action::Probe);
}

#[test]
fn liveness_flag_set_once_and_kept() {
    let mut sup = Supervisor::new(READY_TIMEOUT_MS);
    assert!(!sup.is_live());
    assert_eq!(sup.handle(Event::SpawnResult { ok: true }), Action::QuerySurface);
    assert!(sup.is_live());
    sup.handle(Event::SurfaceResult { found: true });
    sup.handle(Event::DeadlineCheck { elapsed_ms: 0 });
    sup.handle(failed_probe());
    sup.handle(Event::CloseRequested);
    assert!(sup.is_live());
    // The one spawn attempt is never repeated, whatever arrives later.
    assert_eq!(sup.handle(Event::SpawnResult { ok: false }), Action::Ignore);
    assert!(sup.is_live());
}

#[test]
fn shutdown_only_with_liveness_flag() {
    let mut sup = Supervisor::new(READY_TIMEOUT_MS);
    // A close before any spawn sends nothing.
    assert_eq!(sup.handle(Event::CloseRequested), Action::Ignore);
    sup.handle(Event::SpawnResult { ok: true });
    assert_eq!(sup.handle(Event::CloseRequested), Action::SendShutdown);
    assert_eq!(sup.handle(Event::CloseRequested), Action::Ignore);
}

#[test]
fn missing_surface_skips_polling_and_redirect() {
    let mut sup = Supervisor::new(READY_TIMEOUT_MS);
    sup.handle(Event::SpawnResult { ok: true });
    assert_eq!(sup.handle(Event::SurfaceResult { found: false }), Action::Ignore);
    assert!(!sup.is_polling_active());
    assert_eq!(sup.handle(Event::DeadlineCheck { elapsed_ms: 0 }), Action::Ignore);
    assert_eq!(sup.handle(ok_probe()), Action::Ignore);
    assert_eq!(sup.poll, PollStatus::Waiting);
    // Shutdown still works: it depends on the spawn, not on readiness.
    assert_eq!(sup.handle(Event::CloseRequested), Action::SendShutdown);
}

#[test]
fn surface_is_looked_up_only_after_spawn() {
    let mut sup = Supervisor::new(READY_TIMEOUT_MS);
    assert_eq!(sup.handle(Event::SurfaceResult { found: true }), Action::Ignore);
    assert!(!sup.is_polling_active());
}
