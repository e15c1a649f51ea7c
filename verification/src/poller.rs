//! Readiness poller: decides, observation by observation, whether the wait
//! for the sidecar server ends in success, ends in a timeout, or goes on.
//!
//! The host loop alternates two observations and feeds each one in: a
//! deadline check (how much time has elapsed at the head of the loop) and a
//! probe result (what one `GET` against the readiness URL returned). The
//! poller itself performs no network work, so every decision it makes is
//! verified here.

use vstd::prelude::*;

verus! {

/// What one readiness probe observed: an HTTP response with its status code,
/// or a transport-level failure (connection refused, request timeout, and the
/// like).
#[derive(Clone, Copy, Debug, PartialEq, Eq, Structural)]
pub enum ProbeOutcome {
    Response { status: u16 },
    TransportError,
}

/// A probe succeeds exactly when it got a response with a 2xx status code.
pub open spec fn probe_succeeded(o: ProbeOutcome) -> bool {
    match o {
        ProbeOutcome::Response { status } => 200 <= status < 300,
        ProbeOutcome::TransportError => false,
    }
}

/// Where the wait for the server stands. `Ready` and `TimedOut` are the two
/// terminal outcomes; the wait produces at most one of them per run.
#[derive(Clone, Copy, Debug, PartialEq, Eq, Structural)]
pub enum PollStatus {
    Waiting,
    Ready,
    TimedOut,
}

/// One observation made by the polling loop.
#[derive(Clone, Copy, Debug, PartialEq, Eq, Structural)]
pub enum PollEvent {
    /// The elapsed time, in milliseconds, found at the head of the loop.
    DeadlineCheck { elapsed_ms: u64 },
    /// The outcome of one probe against the readiness URL.
    ProbeResult { outcome: ProbeOutcome },
}

/// The observation ends the wait successfully: a probe got a 2xx response.
pub open spec fn triggers_ready(ev: PollEvent) -> bool {
    ev matches PollEvent::ProbeResult { outcome } && probe_succeeded(outcome)
}

/// The observation ends the wait unsuccessfully: a deadline check found the
/// whole timeout spent.
pub open spec fn triggers_timeout(timeout_ms: u64, ev: PollEvent) -> bool {
    ev matches PollEvent::DeadlineCheck { elapsed_ms } && elapsed_ms >= timeout_ms
}

/// The observation leaves the poller waiting: an in-window deadline check,
/// a non-2xx response, or a transport error. Such observations are retried,
/// never treated as terminal.
pub open spec fn keeps_waiting(timeout_ms: u64, ev: PollEvent) -> bool {
    !triggers_ready(ev) && !triggers_timeout(timeout_ms, ev)
}

/// How one observation moves the poll status. The terminal statuses absorb
/// every further observation.
pub open spec fn poll_step(timeout_ms: u64, st: PollStatus, ev: PollEvent) -> PollStatus {
    match st {
        PollStatus::Waiting => if triggers_ready(ev) {
            PollStatus::Ready
        } else if triggers_timeout(timeout_ms, ev) {
            PollStatus::TimedOut
        } else {
            PollStatus::Waiting
        },
        _ => st,
    }
}

/// Status after a run of observations starting from `st`.
pub open spec fn poll_run_from(timeout_ms: u64, st: PollStatus, evs: Seq<PollEvent>) -> PollStatus
    decreases evs.len(),
{
    if evs.len() == 0 {
        st
    } else {
        poll_run_from(timeout_ms, poll_step(timeout_ms, st, evs.first()), evs.drop_first())
    }
}

/// Status after a whole run of observations, starting from a fresh poller.
pub open spec fn poll_run(timeout_ms: u64, evs: Seq<PollEvent>) -> PollStatus {
    poll_run_from(timeout_ms, PollStatus::Waiting, evs)
}

/// Once the wait has ended, no observation changes the outcome.
pub proof fn lemma_terminal_absorbs(timeout_ms: u64, st: PollStatus, evs: Seq<PollEvent>)
    requires
        !(st is Waiting),
    ensures
        poll_run_from(timeout_ms, st, evs) == st,
    decreases evs.len(),
{
    if evs.len() > 0 {
        lemma_terminal_absorbs(timeout_ms, st, evs.drop_first());
    }
}

/// Full characterisation of a polling run. The wait ends ready exactly when
/// some probe got a 2xx response and every earlier observation left the
/// poller waiting; it ends timed out exactly when some deadline check found
/// the timeout spent and every earlier observation left the poller waiting;
/// it is still waiting exactly when every observation left it waiting.
pub proof fn lemma_poll_run_characterisation(timeout_ms: u64, evs: Seq<PollEvent>)
    ensures
        poll_run(timeout_ms, evs) is Ready <==> exists|i: int|
            0 <= i < evs.len() && #[trigger] triggers_ready(evs[i]) && forall|j: int|
                0 <= j < i ==> keeps_waiting(timeout_ms, #[trigger] evs[j]),
        poll_run(timeout_ms, evs) is TimedOut <==> exists|i: int|
            0 <= i < evs.len() && #[trigger] triggers_timeout(timeout_ms, evs[i]) && forall|
                j: int,
            |
                0 <= j < i ==> keeps_waiting(timeout_ms, #[trigger] evs[j]),
        poll_run(timeout_ms, evs) is Waiting <==> forall|i: int|
            0 <= i < evs.len() ==> keeps_waiting(timeout_ms, #[trigger] evs[i]),
    decreases evs.len(),
{
    if evs.len() == 0 {
    } else {
        let e = evs.first();
        let rest = evs.drop_first();
        lemma_poll_run_characterisation(timeout_ms, rest);
        assert(forall|i: int| 1 <= i < evs.len() ==> rest[i - 1] == #[trigger] evs[i]);
        if triggers_ready(e) {
            lemma_terminal_absorbs(timeout_ms, PollStatus::Ready, rest);
            assert(triggers_ready(evs[0]));
        } else if triggers_timeout(timeout_ms, e) {
            lemma_terminal_absorbs(timeout_ms, PollStatus::TimedOut, rest);
            assert(triggers_timeout(timeout_ms, evs[0]));
        } else {
            assert(poll_run(timeout_ms, evs) == poll_run(timeout_ms, rest));
            if poll_run(timeout_ms, rest) is Ready {
                let i = choose|i: int|
                    0 <= i < rest.len() && #[trigger] triggers_ready(rest[i]) && forall|j: int|
                        0 <= j < i ==> keeps_waiting(timeout_ms, #[trigger] rest[j]);
                assert(triggers_ready(evs[i + 1]));
                assert(forall|j: int| 0 <= j < i + 1 ==> keeps_waiting(timeout_ms, #[trigger] evs[j]));
            }
            if poll_run(timeout_ms, evs) is Ready {
                let i = choose|i: int|
                    0 <= i < evs.len() && #[trigger] triggers_ready(evs[i]) && forall|j: int|
                        0 <= j < i ==> keeps_waiting(timeout_ms, #[trigger] evs[j]);
                assert(i >= 1);
                assert(triggers_ready(rest[i - 1]));
                assert(forall|j: int| 0 <= j < i - 1 ==> keeps_waiting(timeout_ms, #[trigger] rest[j]));
            }
            if poll_run(timeout_ms, rest) is TimedOut {
                let i = choose|i: int|
                    0 <= i < rest.len() && #[trigger] triggers_timeout(timeout_ms, rest[i])
                        && forall|j: int| 0 <= j < i ==> keeps_waiting(timeout_ms, #[trigger] rest[j]);
                assert(triggers_timeout(timeout_ms, evs[i + 1]));
                assert(forall|j: int| 0 <= j < i + 1 ==> keeps_waiting(timeout_ms, #[trigger] evs[j]));
            }
            if poll_run(timeout_ms, evs) is TimedOut {
                let i = choose|i: int|
                    0 <= i < evs.len() && #[trigger] triggers_timeout(timeout_ms, evs[i])
                        && forall|j: int| 0 <= j < i ==> keeps_waiting(timeout_ms, #[trigger] evs[j]);
                assert(i >= 1);
                assert(triggers_timeout(timeout_ms, rest[i - 1]));
                assert(forall|j: int| 0 <= j < i - 1 ==> keeps_waiting(timeout_ms, #[trigger] rest[j]));
            }
        }
    }
}

/// The wait ends ready exactly when at least one probe within the timeout
/// window received a 2xx response — that is, one preceded only by in-window
/// deadline checks and failed probes.
pub proof fn lemma_ready_iff_probe_succeeded(timeout_ms: u64, evs: Seq<PollEvent>)
    ensures
        poll_run(timeout_ms, evs) is Ready <==> exists|i: int|
            0 <= i < evs.len() && #[trigger] triggers_ready(evs[i]) && forall|j: int|
                0 <= j < i ==> keeps_waiting(timeout_ms, #[trigger] evs[j]),
{
    lemma_poll_run_characterisation(timeout_ms, evs);
}

/// Errors and non-2xx responses are retried, never terminal: a run in which
/// every probe failed and every deadline check was still inside the window
/// has not returned at all.
pub proof fn lemma_failures_are_retried(timeout_ms: u64, evs: Seq<PollEvent>)
    requires
        forall|i: int| 0 <= i < evs.len() ==> keeps_waiting(timeout_ms, #[trigger] evs[i]),
    ensures
        poll_run(timeout_ms, evs) is Waiting,
{
    lemma_poll_run_characterisation(timeout_ms, evs);
}

/// The wait reports a timeout only after a deadline check actually saw the
/// timeout spent: it never gives up early.
pub proof fn lemma_timeout_only_after_deadline(timeout_ms: u64, evs: Seq<PollEvent>)
    requires
        poll_run(timeout_ms, evs) is TimedOut,
    ensures
        exists|i: int| 0 <= i < evs.len() && #[trigger] triggers_timeout(timeout_ms, evs[i]),
{
    lemma_poll_run_characterisation(timeout_ms, evs);
}

/// Readiness poller: the timeout it was configured with and where the wait
/// stands.
pub struct ReadinessPoller {
    pub timeout_ms: u64,
    pub status: PollStatus,
}

impl ReadinessPoller {
    /// A fresh poller that has seen nothing yet.
    pub fn new(timeout_ms: u64) -> (p: Self)
        ensures
            p.timeout_ms == timeout_ms,
            p.status is Waiting,
    {
        ReadinessPoller { timeout_ms, status: PollStatus::Waiting }
    }

    /// Loop-head deadline check. Returns whether the loop may go on and
    /// probe; if the timeout is spent, the wait ends timed out instead.
    pub fn check_deadline(&mut self, elapsed_ms: u64) -> (proceed: bool)
        requires
            old(self).status is Waiting,
        ensures
            final(self).timeout_ms == old(self).timeout_ms,
            final(self).status == poll_step(
                old(self).timeout_ms,
                old(self).status,
                PollEvent::DeadlineCheck { elapsed_ms },
            ),
            proceed == (elapsed_ms < old(self).timeout_ms),
            proceed ==> final(self).status is Waiting,
            !proceed ==> final(self).status is TimedOut,
    {
        if elapsed_ms < self.timeout_ms {
            true
        } else {
            self.status = PollStatus::TimedOut;
            false
        }
    }

    /// Feed the outcome of one probe. Returns whether the server is now
    /// known to be ready; on anything but a 2xx response the wait goes on.
    pub fn record_probe(&mut self, outcome: ProbeOutcome) -> (ready: bool)
        requires
            old(self).status is Waiting,
        ensures
            final(self).timeout_ms == old(self).timeout_ms,
            final(self).status == poll_step(
                old(self).timeout_ms,
                old(self).status,
                PollEvent::ProbeResult { outcome },
            ),
            ready == probe_succeeded(outcome),
            ready ==> final(self).status is Ready,
            !ready ==> final(self).status is Waiting,
    {
        let ok = match outcome {
            ProbeOutcome::Response { status } => 200 <= status && status < 300,
            ProbeOutcome::TransportError => false,
        };
        if ok {
            self.status = PollStatus::Ready;
        }
        ok
    }

    /// The boolean the wait reports once it has ended: `Some(true)` for
    /// ready, `Some(false)` for timed out, and nothing while still waiting.
    pub fn result(&self) -> (r: Option<bool>)
        ensures
            r == (match self.status {
                PollStatus::Waiting => Option::<bool>::None,
                PollStatus::Ready => Option::Some(true),
                PollStatus::TimedOut => Option::Some(false),
            }),
    {
        match self.status {
            PollStatus::Waiting => Option::None,
            PollStatus::Ready => Option::Some(true),
            PollStatus::TimedOut => Option::Some(false),
        }
    }
}

} // verus!
