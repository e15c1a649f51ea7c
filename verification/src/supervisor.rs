//! Sidecar lifecycle supervisor: one state machine for the whole run.
//!
//! The host feeds in what it observed — the result of the single spawn
//! attempt, whether the display surface could be obtained, the poller's
//! observations, and close requests — and performs the action each step asks
//! for. All sequencing and failure-handling decisions are made here, so they
//! are verified; the host only spawns, probes, navigates and posts.

use vstd::prelude::*;

use crate::poller::PollEvent;
use crate::poller::PollStatus;
use crate::poller::ProbeOutcome;
use crate::poller::poll_step;
use crate::poller::probe_succeeded;

verus! {

/// Whether the one spawn attempt of the run has happened, and how it went.
/// `Failed` and `Succeeded` are terminal: there is no second attempt.
#[derive(Clone, Copy, Debug, PartialEq, Eq, Structural)]
pub enum SpawnPhase {
    NotAttempted,
    Failed,
    Succeeded,
}

/// Whether the display surface was looked up yet, and whether it was there.
#[derive(Clone, Copy, Debug, PartialEq, Eq, Structural)]
pub enum SurfacePhase {
    NotQueried,
    Missing,
    Acquired,
}

/// What the host observed and hands to the supervisor.
#[derive(Clone, Copy, Debug, PartialEq, Eq, Structural)]
pub enum Event {
    /// The one spawn attempt returned: a child process, or an error.
    SpawnResult { ok: bool },
    /// The display-surface lookup returned.
    SurfaceResult { found: bool },
    /// The readiness loop checked the clock at its head.
    DeadlineCheck { elapsed_ms: u64 },
    /// One readiness probe returned.
    ProbeResult { outcome: ProbeOutcome },
    /// The user asked to close the application.
    CloseRequested,
}

/// What the host must do after a step.
#[derive(Clone, Copy, Debug, PartialEq, Eq, Structural)]
pub enum Action {
    /// Nothing: the event changed nothing observable (a late or ignored
    /// event, a failed probe to be retried, a timeout that is only logged).
    Ignore,
    /// The spawn failed: abort application setup with the spawn error.
    AbortSetup,
    /// The spawn succeeded: look up the display surface.
    QuerySurface,
    /// Surface in hand: start the detached readiness wait.
    StartPolling,
    /// Still inside the timeout window: issue one `GET` against the
    /// readiness URL, then report its outcome back.
    Probe,
    /// The server is ready: navigate the surface to it, exactly this once.
    Redirect,
    /// Send the single best-effort shutdown `POST`, discarding its result.
    SendShutdown,
}

/// Supervisor state. The liveness flag of the data model is
/// `spawn is Succeeded`.
pub struct Supervisor {
    pub timeout_ms: u64,
    pub spawn: SpawnPhase,
    pub surface: SurfacePhase,
    pub poll: PollStatus,
    pub shutdown_sent: bool,
}

impl Supervisor {
    /// The liveness flag: set exactly when the spawn succeeded, never unset.
    pub open spec fn server_started(self) -> bool {
        self.spawn is Succeeded
    }

    /// Readiness polling runs only once the sidecar was spawned and the
    /// display surface is in hand; without a surface the wait never starts.
    pub open spec fn polling_active(self) -> bool {
        self.spawn is Succeeded && self.surface is Acquired
    }

    /// Internal invariant: polling and shutdown state move only once their
    /// guards were met.
    pub open spec fn wf(self) -> bool {
        &&& !(self.poll is Waiting) ==> self.polling_active()
        &&& self.shutdown_sent ==> self.server_started()
        &&& !(self.surface is NotQueried) ==> self.server_started()
    }

    /// The state at application start: nothing attempted, nothing sent.
    pub open spec fn init(timeout_ms: u64) -> Supervisor {
        Supervisor {
            timeout_ms,
            spawn: SpawnPhase::NotAttempted,
            surface: SurfacePhase::NotQueried,
            poll: PollStatus::Waiting,
            shutdown_sent: false,
        }
    }

    /// How one observed event moves the state, and what the host must do.
    pub open spec fn step(s: Supervisor, ev: Event) -> (Supervisor, Action) {
        match ev {
            Event::SpawnResult { ok } => {
                if s.spawn is NotAttempted {
                    if ok {
                        (Supervisor { spawn: SpawnPhase::Succeeded, ..s }, Action::QuerySurface)
                    } else {
                        (Supervisor { spawn: SpawnPhase::Failed, ..s }, Action::AbortSetup)
                    }
                } else {
                    (s, Action::Ignore)
                }
            },
            Event::SurfaceResult { found } => {
                if s.spawn is Succeeded && s.surface is NotQueried {
                    if found {
                        (Supervisor { surface: SurfacePhase::Acquired, ..s }, Action::StartPolling)
                    } else {
                        (Supervisor { surface: SurfacePhase::Missing, ..s }, Action::Ignore)
                    }
                } else {
                    (s, Action::Ignore)
                }
            },
            Event::DeadlineCheck { elapsed_ms } => {
                if s.polling_active() && s.poll is Waiting {
                    (
                        Supervisor {
                            poll: poll_step(
                                s.timeout_ms,
                                s.poll,
                                PollEvent::DeadlineCheck { elapsed_ms },
                            ),
                            ..s
                        },
                        if elapsed_ms < s.timeout_ms {
                            Action::Probe
                        } else {
                            Action::Ignore
                        },
                    )
                } else {
                    (s, Action::Ignore)
                }
            },
            Event::ProbeResult { outcome } => {
                if s.polling_active() && s.poll is Waiting {
                    (
                        Supervisor {
                            poll: poll_step(
                                s.timeout_ms,
                                s.poll,
                                PollEvent::ProbeResult { outcome },
                            ),
                            ..s
                        },
                        if probe_succeeded(outcome) {
                            Action::Redirect
                        } else {
                            Action::Ignore
                        },
                    )
                } else {
                    (s, Action::Ignore)
                }
            },
            Event::CloseRequested => {
                if s.server_started() && !s.shutdown_sent {
                    (Supervisor { shutdown_sent: true, ..s }, Action::SendShutdown)
                } else {
                    (s, Action::Ignore)
                }
            },
        }
    }

    /// A fresh supervisor for one application run.
    pub fn new(timeout_ms: u64) -> (s: Self)
        ensures
            s == Self::init(timeout_ms),
    {
        Supervisor {
            timeout_ms,
            spawn: SpawnPhase::NotAttempted,
            surface: SurfacePhase::NotQueried,
            poll: PollStatus::Waiting,
            shutdown_sent: false,
        }
    }

    /// The liveness flag, as the close handler reads it.
    pub fn is_live(&self) -> (b: bool)
        ensures
            b == self.server_started(),
    {
        matches!(self.spawn, SpawnPhase::Succeeded)
    }

    /// Handle one observed event. The state moves exactly as `step` says;
    /// the returned action is what the host performs next. Never fails and
    /// never panics, whatever arrives in whatever state.
    pub fn handle(&mut self, ev: Event) -> (a: Action)
        ensures
            *final(self) == Self::step(*old(self), ev).0,
            a == Self::step(*old(self), ev).1,
            final(self).timeout_ms == old(self).timeout_ms,
            (a is AbortSetup) <==> (ev matches Event::SpawnResult { ok } && !ok && old(
                self,
            ).spawn is NotAttempted),
            (a is Redirect) <==> (ev matches Event::ProbeResult { outcome } && probe_succeeded(
                outcome,
            ) && old(self).polling_active() && old(self).poll is Waiting),
            (a is SendShutdown) <==> (ev is CloseRequested && old(self).server_started() && !old(
                self,
            ).shutdown_sent),
            (a is Redirect) ==> final(self).poll is Ready,
            old(self).server_started() ==> final(self).server_started(),
    {
        match ev {
            Event::SpawnResult { ok } => {
                if matches!(self.spawn, SpawnPhase::NotAttempted) {
                    if ok {
                        self.spawn = SpawnPhase::Succeeded;
                        Action::QuerySurface
                    } else {
                        self.spawn = SpawnPhase::Failed;
                        Action::AbortSetup
                    }
                } else {
                    Action::Ignore
                }
            },
            Event::SurfaceResult { found } => {
                if matches!(self.spawn, SpawnPhase::Succeeded) && matches!(
                    self.surface,
                    SurfacePhase::NotQueried,
                ) {
                    if found {
                        self.surface = SurfacePhase::Acquired;
                        Action::StartPolling
                    } else {
                        self.surface = SurfacePhase::Missing;
                        Action::Ignore
                    }
                } else {
                    Action::Ignore
                }
            },
            Event::DeadlineCheck { elapsed_ms } => {
                if self.is_polling_active() && matches!(self.poll, PollStatus::Waiting) {
                    if elapsed_ms < self.timeout_ms {
                        Action::Probe
                    } else {
                        self.poll = PollStatus::TimedOut;
                        Action::Ignore
                    }
                } else {
                    Action::Ignore
                }
            },
            Event::ProbeResult { outcome } => {
                if self.is_polling_active() && matches!(self.poll, PollStatus::Waiting) {
                    let ok = match outcome {
                        ProbeOutcome::Response { status } => 200 <= status && status < 300,
                        ProbeOutcome::TransportError => false,
                    };
                    if ok {
                        self.poll = PollStatus::Ready;
                        Action::Redirect
                    } else {
                        Action::Ignore
                    }
                } else {
                    Action::Ignore
                }
            },
            Event::CloseRequested => {
                if matches!(self.spawn, SpawnPhase::Succeeded) && !self.shutdown_sent {
                    self.shutdown_sent = true;
                    Action::SendShutdown
                } else {
                    Action::Ignore
                }
            },
        }
    }

    /// Whether the readiness wait is allowed to run.
    pub fn is_polling_active(&self) -> (b: bool)
        ensures
            b == self.polling_active(),
    {
        matches!(self.spawn, SpawnPhase::Succeeded) && matches!(self.surface, SurfacePhase::Acquired)
    }
}

/// The state after a run of events starting from `s`.
pub open spec fn run_state(s: Supervisor, evs: Seq<Event>) -> Supervisor
    decreases evs.len(),
{
    if evs.len() == 0 {
        s
    } else {
        run_state(Supervisor::step(s, evs.first()).0, evs.drop_first())
    }
}

/// The actions a run of events asks of the host, in order.
pub open spec fn run_actions(s: Supervisor, evs: Seq<Event>) -> Seq<Action>
    decreases evs.len(),
{
    if evs.len() == 0 {
        Seq::empty()
    } else {
        seq![Supervisor::step(s, evs.first()).1] + run_actions(
            Supervisor::step(s, evs.first()).0,
            evs.drop_first(),
        )
    }
}

/// How many redirects a run asks for.
pub open spec fn count_redirects(acts: Seq<Action>) -> nat
    decreases acts.len(),
{
    if acts.len() == 0 {
        0
    } else {
        (if acts.first() is Redirect {
            1nat
        } else {
            0nat
        }) + count_redirects(acts.drop_first())
    }
}

/// How many shutdown notices a run asks for.
pub open spec fn count_shutdowns(acts: Seq<Action>) -> nat
    decreases acts.len(),
{
    if acts.len() == 0 {
        0
    } else {
        (if acts.first() is SendShutdown {
            1nat
        } else {
            0nat
        }) + count_shutdowns(acts.drop_first())
    }
}

/// Both counts unfold over an action put in front of a run's actions.
proof fn lemma_count_cons(a: Action, acts: Seq<Action>)
    ensures
        count_redirects(seq![a] + acts) == (if a is Redirect {
            1nat
        } else {
            0nat
        }) + count_redirects(acts),
        count_shutdowns(seq![a] + acts) == (if a is SendShutdown {
            1nat
        } else {
            0nat
        }) + count_shutdowns(acts),
{
    assert((seq![a] + acts).first() == a);
    assert((seq![a] + acts).drop_first() =~= acts);
}

/// Every step keeps the internal invariant.
pub proof fn lemma_step_preserves_wf(s: Supervisor, ev: Event)
    requires
        s.wf(),
    ensures
        Supervisor::step(s, ev).0.wf(),
{
}

/// The initial state satisfies the internal invariant.
pub proof fn lemma_init_wf(timeout_ms: u64)
    ensures
        Supervisor::init(timeout_ms).wf(),
{
}

/// The internal invariant holds along every run: in every reachable state
/// the shutdown notice presupposes a successful spawn, and polling
/// presupposes both the spawn and the surface.
pub proof fn lemma_run_preserves_wf(s: Supervisor, evs: Seq<Event>)
    requires
        s.wf(),
    ensures
        run_state(s, evs).wf(),
    decreases evs.len(),
{
    if evs.len() > 0 {
        lemma_step_preserves_wf(s, evs.first());
        lemma_run_preserves_wf(Supervisor::step(s, evs.first()).0, evs.drop_first());
    }
}

/// Once the liveness flag is set it stays set for the remainder of the run:
/// no event unsets it.
pub proof fn lemma_liveness_flag_stays_set(s: Supervisor, evs: Seq<Event>)
    requires
        s.server_started(),
    ensures
        run_state(s, evs).server_started(),
    decreases evs.len(),
{
    if evs.len() > 0 {
        lemma_liveness_flag_stays_set(Supervisor::step(s, evs.first()).0, evs.drop_first());
    }
}

/// After a failed spawn the machine is inert: the state never changes again
/// and no polling, no redirect and no shutdown notice is ever asked for.
pub proof fn lemma_spawn_failed_inert(s: Supervisor, evs: Seq<Event>)
    requires
        s.wf(),
        s.spawn is Failed,
    ensures
        run_state(s, evs) == s,
        forall|i: int|
            0 <= i < run_actions(s, evs).len() ==> run_actions(s, evs)[i] is Ignore,
    decreases evs.len(),
{
    if evs.len() > 0 {
        assert(Supervisor::step(s, evs.first()).0 == s);
        lemma_spawn_failed_inert(s, evs.drop_first());
        assert(run_actions(s, evs).first() is Ignore);
        assert(forall|i: int|
            1 <= i < run_actions(s, evs).len() ==> run_actions(s, evs)[i] == run_actions(
                s,
                evs.drop_first(),
            )[i - 1]);
    }
}

/// Once the poll outcome is settled, no redirect is ever asked for again.
pub proof fn lemma_no_redirect_after_poll_settled(s: Supervisor, evs: Seq<Event>)
    requires
        !(s.poll is Waiting),
    ensures
        count_redirects(run_actions(s, evs)) == 0,
    decreases evs.len(),
{
    if evs.len() > 0 {
        let s1 = Supervisor::step(s, evs.first()).0;
        lemma_count_cons(Supervisor::step(s, evs.first()).1, run_actions(s1, evs.drop_first()));
        lemma_no_redirect_after_poll_settled(s1, evs.drop_first());
    }
}

/// The redirect is asked for at most once per run, from any state.
pub proof fn lemma_redirect_at_most_once(s: Supervisor, evs: Seq<Event>)
    ensures
        count_redirects(run_actions(s, evs)) <= 1,
    decreases evs.len(),
{
    if evs.len() > 0 {
        let s1 = Supervisor::step(s, evs.first()).0;
        lemma_count_cons(Supervisor::step(s, evs.first()).1, run_actions(s1, evs.drop_first()));
        if Supervisor::step(s, evs.first()).1 is Redirect {
            lemma_no_redirect_after_poll_settled(s1, evs.drop_first());
        } else {
            lemma_redirect_at_most_once(s1, evs.drop_first());
        }
    }
}

/// A settled poll outcome never changes again over a run.
pub proof fn lemma_poll_settled_stays(s: Supervisor, evs: Seq<Event>)
    requires
        !(s.poll is Waiting),
    ensures
        run_state(s, evs).poll == s.poll,
    decreases evs.len(),
{
    if evs.len() > 0 {
        lemma_poll_settled_stays(Supervisor::step(s, evs.first()).0, evs.drop_first());
    }
}

/// A redirect is asked for only on the strength of a successful probe: if a
/// run issued one, the poller ended the run ready.
pub proof fn lemma_redirect_needs_ready(s: Supervisor, evs: Seq<Event>)
    requires
        count_redirects(run_actions(s, evs)) > 0,
    ensures
        run_state(s, evs).poll is Ready,
    decreases evs.len(),
{
    if evs.len() > 0 {
        let s1 = Supervisor::step(s, evs.first()).0;
        lemma_count_cons(Supervisor::step(s, evs.first()).1, run_actions(s1, evs.drop_first()));
        if Supervisor::step(s, evs.first()).1 is Redirect {
            lemma_poll_settled_stays(s1, evs.drop_first());
        } else {
            lemma_redirect_needs_ready(s1, evs.drop_first());
        }
    }
}

/// A run out of a still-waiting poller ends ready only by asking for the
/// redirect on the way.
pub proof fn lemma_ready_needs_redirect(s: Supervisor, evs: Seq<Event>)
    requires
        s.poll is Waiting,
    ensures
        run_state(s, evs).poll is Ready ==> count_redirects(run_actions(s, evs)) >= 1,
    decreases evs.len(),
{
    if evs.len() > 0 {
        let s1 = Supervisor::step(s, evs.first()).0;
        lemma_count_cons(Supervisor::step(s, evs.first()).1, run_actions(s1, evs.drop_first()));
        if Supervisor::step(s, evs.first()).1 is Redirect {
        } else if s1.poll is Waiting {
            lemma_ready_needs_redirect(s1, evs.drop_first());
        } else {
            lemma_poll_settled_stays(s1, evs.drop_first());
        }
    }
}

/// The redirect is asked for exactly once when the wait ends ready, and
/// never otherwise.
pub proof fn lemma_redirect_iff_ready(s: Supervisor, evs: Seq<Event>)
    requires
        s.poll is Waiting,
    ensures
        count_redirects(run_actions(s, evs)) == 1 <==> run_state(s, evs).poll is Ready,
{
    lemma_redirect_at_most_once(s, evs);
    lemma_ready_needs_redirect(s, evs);
    if count_redirects(run_actions(s, evs)) > 0 {
        lemma_redirect_needs_ready(s, evs);
    }
}

/// Once the shutdown notice went out, no further one is asked for.
pub proof fn lemma_no_shutdown_after_sent(s: Supervisor, evs: Seq<Event>)
    requires
        s.shutdown_sent,
    ensures
        count_shutdowns(run_actions(s, evs)) == 0,
    decreases evs.len(),
{
    if evs.len() > 0 {
        let s1 = Supervisor::step(s, evs.first()).0;
        lemma_count_cons(Supervisor::step(s, evs.first()).1, run_actions(s1, evs.drop_first()));
        lemma_no_shutdown_after_sent(s1, evs.drop_first());
    }
}

/// The shutdown notice is asked for at most once per run, from any state.
pub proof fn lemma_shutdown_at_most_once(s: Supervisor, evs: Seq<Event>)
    ensures
        count_shutdowns(run_actions(s, evs)) <= 1,
    decreases evs.len(),
{
    if evs.len() > 0 {
        let s1 = Supervisor::step(s, evs.first()).0;
        lemma_count_cons(Supervisor::step(s, evs.first()).1, run_actions(s1, evs.drop_first()));
        if Supervisor::step(s, evs.first()).1 is SendShutdown {
            lemma_no_shutdown_after_sent(s1, evs.drop_first());
        } else {
            lemma_shutdown_at_most_once(s1, evs.drop_first());
        }
    }
}

/// Unfolding one step of a run restricted to its first `i` events.
proof fn lemma_run_state_take_unfold(s: Supervisor, evs: Seq<Event>, i: int)
    requires
        1 <= i <= evs.len(),
    ensures
        run_state(s, evs.take(i)) == run_state(
            Supervisor::step(s, evs.first()).0,
            evs.drop_first().take(i - 1),
        ),
{
    assert(evs.take(i).first() == evs.first());
    assert(evs.take(i).drop_first() =~= evs.drop_first().take(i - 1));
}

/// The shutdown notice goes out exactly when some close request arrives
/// while the liveness flag is set — once, whatever the network then does,
/// and never otherwise.
pub proof fn lemma_shutdown_iff_close_while_live(s: Supervisor, evs: Seq<Event>)
    requires
        !s.shutdown_sent,
    ensures
        count_shutdowns(run_actions(s, evs)) == 1 <==> exists|i: int|
            0 <= i < evs.len() && evs[i] is CloseRequested && run_state(
                s,
                #[trigger] evs.take(i),
            ).server_started(),
    decreases evs.len(),
{
    lemma_shutdown_at_most_once(s, evs);
    if evs.len() > 0 {
        let e = evs.first();
        let s1 = Supervisor::step(s, e).0;
        let a0 = Supervisor::step(s, e).1;
        let rest = evs.drop_first();
        assert(evs.take(0) =~= Seq::<Event>::empty());
        lemma_count_cons(a0, run_actions(s1, rest));
        if a0 is SendShutdown {
            assert(evs[0] is CloseRequested && run_state(s, evs.take(0)).server_started());
        } else {
            assert(!s1.shutdown_sent);
            lemma_shutdown_iff_close_while_live(s1, rest);
            assert(count_shutdowns(run_actions(s, evs)) == count_shutdowns(run_actions(s1, rest)));
            if count_shutdowns(run_actions(s1, rest)) == 1 {
                let i = choose|i: int|
                    0 <= i < rest.len() && rest[i] is CloseRequested && run_state(
                        s1,
                        #[trigger] rest.take(i),
                    ).server_started();
                lemma_run_state_take_unfold(s, evs, i + 1);
                assert(evs[i + 1] is CloseRequested && run_state(
                    s,
                    evs.take(i + 1),
                ).server_started());
            }
            if exists|i: int|
                0 <= i < evs.len() && evs[i] is CloseRequested && run_state(
                    s,
                    #[trigger] evs.take(i),
                ).server_started() {
                let i = choose|i: int|
                    0 <= i < evs.len() && evs[i] is CloseRequested && run_state(
                        s,
                        #[trigger] evs.take(i),
                    ).server_started();
                if i == 0 {
                    assert(s.server_started() && !s.shutdown_sent);
                    assert(a0 is SendShutdown);
                    assert(false);
                } else {
                    lemma_run_state_take_unfold(s, evs, i);
                    assert(rest[i - 1] is CloseRequested && run_state(
                        s1,
                        rest.take(i - 1),
                    ).server_started());
                }
            }
        }
    }
}

} // verus!
