use vstd::prelude::*;
use crate::config::ServiceConfig;
use crate::probe::{classify_spec, ReadinessOutcome};

verus! {

/// The supervisor's lifecycle states, from spawn to process exit.
#[derive(Clone, Copy, Debug, PartialEq, Eq, Structural)]
pub enum SupervisorState {
    /// The child service has not been spawned yet.
    Starting,
    /// The child is spawned and readiness probes are being issued.
    Probing,
    /// Probing resolved (ready or timed out) and the window handoff ran.
    HandoffComplete,
    /// A shutdown trigger fired; the termination sweep is running.
    ShuttingDown,
    /// The sweep finished; the process exits.
    Terminated,
}

/// Which window an event came from. The shell exposes two named windows:
/// the placeholder splash screen and the primary application window.
#[derive(Clone, Copy, Debug, PartialEq, Eq, Structural)]
pub enum WindowLabel {
    Placeholder,
    Primary,
    Other,
}

/// The window events the supervisor reacts to.
#[derive(Clone, Copy, Debug, PartialEq, Eq, Structural)]
pub enum WindowEventKind {
    CloseRequested,
    Destroyed,
    Other,
}

/// What the shell must do after one probe attempt was classified: suspend
/// for the fixed interval and probe again, or stop probing and perform the
/// window handoff.
#[derive(Clone, Copy, Debug, PartialEq, Eq, Structural)]
pub enum ProbeAction {
    Retry { outcome: ReadinessOutcome, interval_ms: u64 },
    BeginHandoff { outcome: ReadinessOutcome },
}

/// Whether a window event must start the termination path.
#[derive(Clone, Copy, Debug, PartialEq, Eq, Structural)]
pub enum ShutdownDecision {
    RunSweepAndExit,
    Ignore,
}

/// The two independent, mutually redundant shutdown triggers: a close
/// request on the placeholder window, or destruction of the primary window.
pub open spec fn is_shutdown_trigger(w: WindowLabel, e: WindowEventKind) -> bool {
    (w is Placeholder && e is CloseRequested) || (w is Primary && e is Destroyed)
}

/// Whether handling a window event runs the termination sweep now, given
/// the guard's current value: only a trigger, and only while the guard is
/// still unset.
pub open spec fn sweep_runs(fired: bool, w: WindowLabel, e: WindowEventKind) -> bool {
    is_shutdown_trigger(w, e) && !fired
}

/// The set-once guard's value after handling a window event.
pub open spec fn guard_after(fired: bool, w: WindowLabel, e: WindowEventKind) -> bool {
    fired || is_shutdown_trigger(w, e)
}

/// All of the first `n` probe results are failures.
pub open spec fn all_failed(results: Seq<bool>, n: int) -> bool {
    forall|i: int| 0 <= i < n ==> !results[i]
}

/// The lifecycle supervisor: drives the bounded readiness loop, performs
/// the window handoff exactly once, and guards the termination sweep so it
/// runs exactly once however many shutdown triggers arrive.
pub struct Supervisor {
    /// Current lifecycle state.
    pub state: SupervisorState,
    /// Probes issued so far.
    pub attempts: u32,
    /// Set-once guard: the termination sweep has run.
    pub sweep_fired: bool,
    /// The supervised service's immutable configuration.
    pub config: ServiceConfig,
}

impl Supervisor {
    /// Internal consistency of the supervisor's fields.
    pub open spec fn wf(self) -> bool {
        &&& self.config.wf()
        &&& self.attempts <= self.config.max_attempts
        &&& self.state is Starting ==> self.attempts == 0
        &&& self.state is Probing ==> self.attempts < self.config.max_attempts
        &&& self.sweep_fired <==> (self.state is ShuttingDown || self.state is Terminated)
    }

    /// A fresh supervisor for the given service, before the child is
    /// spawned.
    pub fn new(config: ServiceConfig) -> (s: Supervisor)
        requires
            config.wf(),
        ensures
            s.state is Starting,
            s.attempts == 0,
            !s.sweep_fired,
            s.config == config,
            s.wf(),
    {
        Supervisor { state: SupervisorState::Starting, attempts: 0, sweep_fired: false, config }
    }

    /// The child service process was spawned; probing begins. A spawn
    /// failure is fatal and never reaches this point.
    pub fn on_spawned(&mut self)
        requires
            old(self).wf(),
            old(self).state is Starting,
        ensures
            final(self).state is Probing,
            final(self).attempts == 0,
            final(self).sweep_fired == old(self).sweep_fired,
            final(self).config == old(self).config,
            final(self).wf(),
    {
        self.state = SupervisorState::Probing;
    }

    /// One readiness probe was issued and came back with `success` saying
    /// whether the service answered a success (2xx) status. Classifies the
    /// attempt, counts it, and either schedules a retry after the fixed
    /// interval or resolves probing and moves on to the handoff. Any
    /// success stops probing immediately; exhausting the bound degrades to
    /// proceed-anyway, so the handoff follows either way.
    pub fn on_probe_attempt(&mut self, success: bool) -> (a: ProbeAction)
        requires
            old(self).wf(),
            old(self).state is Probing,
        ensures
            final(self).attempts == old(self).attempts + 1,
            final(self).sweep_fired == old(self).sweep_fired,
            final(self).config == old(self).config,
            final(self).wf(),
            success ==> a == (ProbeAction::BeginHandoff { outcome: ReadinessOutcome::Ready })
                && final(self).state is HandoffComplete,
            !success && old(self).attempts + 1 < old(self).config.max_attempts ==> a
                == (ProbeAction::Retry {
                outcome: classify_spec(
                    (old(self).attempts + 1) as u32,
                    old(self).config.max_attempts,
                    false,
                ),
                interval_ms: old(self).config.interval_ms,
            }) && final(self).state is Probing,
            !success && old(self).attempts + 1 == old(self).config.max_attempts ==> a
                == (ProbeAction::BeginHandoff { outcome: ReadinessOutcome::Timeout })
                && final(self).state is HandoffComplete,
    {
        self.attempts = self.attempts + 1;
        let outcome = crate::probe::classify_attempt(self.attempts, self.config.max_attempts, success);
        match outcome {
            ReadinessOutcome::Pending { .. } => {
                ProbeAction::Retry { outcome, interval_ms: self.config.interval_ms }
            },
            _ => {
                self.state = SupervisorState::HandoffComplete;
                ProbeAction::BeginHandoff { outcome }
            },
        }
    }

    /// Drives the whole readiness loop over the given attempt results,
    /// where `results[i]` says whether probe `i + 1` would answer a
    /// success status. Returns the log of actions taken, in order: every
    /// entry but the last is a retry after the fixed interval, the last
    /// resolves probing, and the handoff begins exactly once. If every
    /// allowed attempt fails, exactly `max_attempts` probes are issued and
    /// the run resolves to `Timeout`; if some attempt succeeds, probing
    /// stops at the first success with no further attempt issued.
    pub fn run_probe_sequence(&mut self, results: &Vec<bool>) -> (log: Vec<ProbeAction>)
        requires
            old(self).wf(),
            old(self).state is Probing,
            old(self).attempts == 0,
            results@.len() >= old(self).config.max_attempts,
        ensures
            final(self).wf(),
            final(self).state is HandoffComplete,
            final(self).sweep_fired == old(self).sweep_fired,
            final(self).config == old(self).config,
            final(self).attempts == log@.len(),
            1 <= log@.len() <= old(self).config.max_attempts,
            log@.last() is BeginHandoff,
            forall|i: int| 0 <= i < log@.len() - 1 ==> log@[i] == (ProbeAction::Retry {
                outcome: classify_spec(
                    (i + 1) as u32,
                    old(self).config.max_attempts,
                    false,
                ),
                interval_ms: old(self).config.interval_ms,
            }),
            all_failed(results@, old(self).config.max_attempts as int) ==> log@.len()
                == old(self).config.max_attempts && log@.last() == (ProbeAction::BeginHandoff {
                outcome: ReadinessOutcome::Timeout,
            }),
            forall|k: int|
                0 <= k < old(self).config.max_attempts && results@[k] && all_failed(results@, k)
                    ==> log@.len() == k + 1 && log@.last() == (ProbeAction::BeginHandoff {
                    outcome: ReadinessOutcome::Ready,
                }),
    {
        let ghost m = old(self).config.max_attempts as int;
        let mut log: Vec<ProbeAction> = Vec::new();
        loop
            invariant
                self.wf(),
                self.state is Probing,
                self.sweep_fired == old(self).sweep_fired,
                self.config == old(self).config,
                results@.len() >= self.config.max_attempts,
                m == self.config.max_attempts as int,
                self.attempts == log@.len(),
                log@.len() < m,
                all_failed(results@, log@.len() as int),
                forall|i: int| 0 <= i < log@.len() ==> log@[i] == (ProbeAction::Retry {
                    outcome: classify_spec((i + 1) as u32, self.config.max_attempts, false),
                    interval_ms: self.config.interval_ms,
                }),
            decreases m - log@.len(),
        {
            let i = self.attempts as usize;
            let success = *results.get(i).unwrap();
            let a = self.on_probe_attempt(success);
            log.push(a);
            match a {
                ProbeAction::BeginHandoff { .. } => {
                    return log;
                },
                _ => {},
            }
        }
    }

    /// A window event arrived. A close request on the placeholder or the
    /// destruction of the primary window starts the termination path; the
    /// first such trigger wins and every later one is a harmless no-op, so
    /// the sweep runs at most once. Every other event is ignored.
    pub fn on_window_event(&mut self, w: WindowLabel, e: WindowEventKind) -> (d: ShutdownDecision)
        requires
            old(self).wf(),
        ensures
            final(self).wf(),
            final(self).attempts == old(self).attempts,
            final(self).config == old(self).config,
            d is RunSweepAndExit <==> sweep_runs(old(self).sweep_fired, w, e),
            final(self).sweep_fired == guard_after(old(self).sweep_fired, w, e),
            d is RunSweepAndExit ==> final(self).state is ShuttingDown,
            !(d is RunSweepAndExit) ==> final(self).state == old(self).state,
    {
        let trigger = match (w, e) {
            (WindowLabel::Placeholder, WindowEventKind::CloseRequested) => true,
            (WindowLabel::Primary, WindowEventKind::Destroyed) => true,
            _ => false,
        };
        if trigger && !self.sweep_fired {
            self.sweep_fired = true;
            self.state = SupervisorState::ShuttingDown;
            ShutdownDecision::RunSweepAndExit
        } else {
            ShutdownDecision::Ignore
        }
    }

    /// The termination sweep finished; the process exits with a success
    /// code regardless of what the sweep found or signaled.
    pub fn on_sweep_complete(&mut self) -> (code: i32)
        requires
            old(self).wf(),
            old(self).state is ShuttingDown,
        ensures
            final(self).wf(),
            final(self).state is Terminated,
            final(self).attempts == old(self).attempts,
            final(self).sweep_fired,
            final(self).config == old(self).config,
            code == 0,
    {
        self.state = SupervisorState::Terminated;
        0
    }
}

/// However close together two shutdown triggers arrive, the termination
/// sweep runs exactly once: the first trigger finds the guard unset and
/// runs the sweep, and the second finds the guard set and does nothing.
pub proof fn lemma_sweep_single_fire(
    w1: WindowLabel,
    e1: WindowEventKind,
    w2: WindowLabel,
    e2: WindowEventKind,
)
    requires
        is_shutdown_trigger(w1, e1),
        is_shutdown_trigger(w2, e2),
    ensures
        sweep_runs(false, w1, e1),
        !sweep_runs(guard_after(false, w1, e1), w2, e2),
{
}

} // verus!
