//! Startup and shutdown of the services of one run.
//!
//! The supervisor does no I/O itself. It says which operation the run waits
//! for, and is told how that operation ended.

use crate::config::{defines_view, Service};
use crate::template::resolve;
use vstd::prelude::*;

verus! {

/// What a service that cannot bind its isolated-side path means for the run.
#[derive(Clone, Copy, Debug, PartialEq, Eq, Structural)]
pub enum StartupPolicy {
    /// The first service that cannot bind stops the whole run.
    Strict,
    /// A service that cannot bind is skipped, and the remaining ones are still started.
    Lenient,
}

/// How the process ends.
#[derive(Clone, Copy, Debug, PartialEq, Eq, Structural)]
pub enum ExitStatus {
    /// Shutdown was asked for and carried out.
    Clean,
    /// The configuration could not be read or understood.
    ConfigError,
    /// Under the strict policy a service could not bind.
    StartupAborted,
}

/// The process exit code that stands for `status`.
pub open spec fn exit_code(status: ExitStatus) -> int {
    match status {
        ExitStatus::Clean => 0,
        ExitStatus::ConfigError => 1,
        ExitStatus::StartupAborted => 3,
    }
}

impl ExitStatus {
    /// The process exit code: zero for a clean shutdown, and a code of its own
    /// for each way of failing.
    pub fn code(self) -> (c: i32)
        ensures
            c == exit_code(self),
    {
        match self {
            ExitStatus::Clean => 0,
            ExitStatus::ConfigError => 1,
            ExitStatus::StartupAborted => 3,
        }
    }
}

/// Where the run stands.
#[derive(Clone, Copy, Debug, PartialEq, Eq, Structural)]
pub enum Phase {
    /// The services before this index were attempted; this one is attempted now.
    Starting(usize),
    /// Every service was attempted; the run waits for the shutdown signal.
    Waiting,
    /// The run is over and the process leaves with this status.
    Stopped(ExitStatus),
}

/// The operation that the run waits for.
#[derive(Clone, Copy, Debug, PartialEq, Eq, Structural)]
pub enum Action {
    /// Create the node of the service with this index and, if it binds, serve it.
    Bind(usize),
    /// Wait until shutdown is asked for.
    AwaitSignal,
    /// If `cleanup` is set, remove the isolated-side socket file of every
    /// configured service; then leave with `status`.
    Stop { cleanup: bool, status: ExitStatus },
}

/// How the awaited operation ended.
#[derive(Clone, Copy, Debug, PartialEq, Eq, Structural)]
pub enum Event {
    /// The node was created and is being served.
    Bound,
    /// The node could not be created.
    BindFailed,
    /// The wait for the shutdown signal is over.
    Signalled,
}

/// The state of one run.
#[derive(Clone, Copy, Debug, PartialEq, Eq, Structural)]
pub struct Supervisor {
    /// What a failed bind leads to.
    pub policy: StartupPolicy,
    /// Whether the socket files are removed at the end.
    pub cleanup: bool,
    /// The number of configured services.
    pub total: usize,
    pub phase: Phase,
}

impl Supervisor {
    /// A service that is being started is one of the configured services.
    pub open spec fn wf(self) -> bool {
        self.phase matches Phase::Starting(index) ==> index < self.total
    }

    /// The phase that follows the attempt on the service `index`.
    pub open spec fn after_attempt(self, index: usize) -> Phase {
        if index + 1 < self.total {
            Phase::Starting((index + 1) as usize)
        } else {
            Phase::Waiting
        }
    }

    /// The run before anything was attempted.
    pub open spec fn initial(policy: StartupPolicy, cleanup: bool, total: usize) -> Supervisor {
        Supervisor {
            policy,
            cleanup,
            total,
            phase: if total > 0 {
                Phase::Starting(0)
            } else {
                Phase::Waiting
            },
        }
    }

    /// The operation that the run waits for in this state.
    pub open spec fn pending(self) -> Action {
        match self.phase {
            Phase::Starting(index) => Action::Bind(index),
            Phase::Waiting => Action::AwaitSignal,
            Phase::Stopped(status) => Action::Stop { cleanup: self.cleanup, status },
        }
    }

    /// The phase after `event`. An event that the phase does not wait for changes nothing.
    pub open spec fn next_phase(self, event: Event) -> Phase {
        match (self.phase, event) {
            (Phase::Starting(index), Event::Bound) => self.after_attempt(index),
            (Phase::Starting(index), Event::BindFailed) => match self.policy {
                StartupPolicy::Strict => Phase::Stopped(ExitStatus::StartupAborted),
                StartupPolicy::Lenient => self.after_attempt(index),
            },
            (Phase::Waiting, Event::Signalled) => Phase::Stopped(ExitStatus::Clean),
            _ => self.phase,
        }
    }

    /// The state after `event`: the settings stay, the phase moves on.
    pub open spec fn next(self, event: Event) -> Supervisor {
        Supervisor { phase: self.next_phase(event), ..self }
    }

    /// The state after the events of `events`, in order.
    pub open spec fn run(self, events: Seq<Event>) -> Supervisor
        decreases events.len(),
    {
        if events.len() == 0 {
            self
        } else {
            self.run(events.drop_last()).next(events.last())
        }
    }

    /// A run of `total` services that has attempted none yet.
    pub fn new(policy: StartupPolicy, cleanup: bool, total: usize) -> (s: Supervisor)
        ensures
            s == Self::initial(policy, cleanup, total),
            s.wf(),
    {
        let phase = if total > 0 {
            Phase::Starting(0)
        } else {
            Phase::Waiting
        };
        Supervisor { policy, cleanup, total, phase }
    }

    /// The operation to carry out now.
    pub fn action(&self) -> (a: Action)
        ensures
            a == self.pending(),
            self.wf() ==> (a matches Action::Bind(index) ==> index < self.total),
    {
        match self.phase {
            Phase::Starting(index) => Action::Bind(index),
            Phase::Waiting => Action::AwaitSignal,
            Phase::Stopped(status) => Action::Stop { cleanup: self.cleanup, status },
        }
    }

    /// Takes note of how the awaited operation ended.
    pub fn step(self, event: Event) -> (s: Supervisor)
        ensures
            s == self.next(event),
            self.wf() ==> s.wf(),
    {
        let phase = match (self.phase, event) {
            (Phase::Starting(index), Event::Bound) => self.advance(index),
            (Phase::Starting(index), Event::BindFailed) => match self.policy {
                StartupPolicy::Strict => Phase::Stopped(ExitStatus::StartupAborted),
                StartupPolicy::Lenient => self.advance(index),
            },
            (Phase::Waiting, Event::Signalled) => Phase::Stopped(ExitStatus::Clean),
            _ => self.phase,
        };
        Supervisor { policy: self.policy, cleanup: self.cleanup, total: self.total, phase }
    }

    fn advance(&self, index: usize) -> (phase: Phase)
        ensures
            phase == self.after_attempt(index),
            phase matches Phase::Starting(following) ==> following < self.total,
    {
        if index < self.total && index + 1 < self.total {
            Phase::Starting(index + 1)
        } else {
            Phase::Waiting
        }
    }
}

/// The events that report the bind results `outcomes`, one service after the other.
pub open spec fn bind_events(outcomes: Seq<bool>) -> Seq<Event> {
    outcomes.map_values(
        |bound: bool|
            if bound {
                Event::Bound
            } else {
                Event::BindFailed
            },
    )
}

/// Running through two lists of events is running through the first, then the second.
pub proof fn lemma_run_concat(s: Supervisor, first: Seq<Event>, second: Seq<Event>)
    ensures
        s.run(first + second) == s.run(first).run(second),
    decreases second.len(),
{
    if second.len() > 0 {
        assert((first + second).drop_last() =~= first + second.drop_last());
        lemma_run_concat(s, first, second.drop_last());
    }
}

/// A run that has stopped stays as it is, whatever is reported to it.
pub proof fn lemma_stopped_is_final(s: Supervisor, events: Seq<Event>)
    requires
        s.phase is Stopped,
    ensures
        s.run(events) == s,
    decreases events.len(),
{
    if events.len() > 0 {
        lemma_stopped_is_final(s, events.drop_last());
    }
}

/// The settings of a run never change, and a well-formed run stays well-formed.
pub proof fn lemma_run_keeps_settings(s: Supervisor, events: Seq<Event>)
    ensures
        s.run(events).policy == s.policy,
        s.run(events).cleanup == s.cleanup,
        s.run(events).total == s.total,
        s.wf() ==> s.run(events).wf(),
    decreases events.len(),
{
    if events.len() > 0 {
        lemma_run_keeps_settings(s, events.drop_last());
    }
}

/// Under the lenient policy every configured service is attempted in its turn,
/// whatever became of the ones before it; under the strict policy the same
/// holds as long as every bind succeeded. After the last one the run waits for
/// the shutdown signal.
pub proof fn lemma_startup_attempts_in_order(
    policy: StartupPolicy,
    cleanup: bool,
    total: usize,
    outcomes: Seq<bool>,
)
    requires
        outcomes.len() <= total,
        policy == StartupPolicy::Lenient || forall|j: int|
            0 <= j < outcomes.len() ==> outcomes[j],
    ensures
        Supervisor::initial(policy, cleanup, total).run(bind_events(outcomes)).phase == (if outcomes.len()
            < total {
            Phase::Starting(outcomes.len() as usize)
        } else {
            Phase::Waiting
        }),
    decreases outcomes.len(),
{
    let start = Supervisor::initial(policy, cleanup, total);
    if outcomes.len() > 0 {
        let before = outcomes.drop_last();
        lemma_startup_attempts_in_order(policy, cleanup, total, before);
        lemma_run_keeps_settings(start, bind_events(before));
        assert(bind_events(outcomes).drop_last() =~= bind_events(before));
    }
}

/// Under the strict policy the first bind that fails ends the run: nothing
/// reported afterwards starts another service, and the process leaves with the
/// status of an aborted startup.
pub proof fn lemma_strict_stops_at_first_failure(
    cleanup: bool,
    total: usize,
    outcomes: Seq<bool>,
    later: Seq<Event>,
)
    requires
        0 < outcomes.len() <= total,
        !outcomes.last(),
        forall|j: int| 0 <= j < outcomes.len() - 1 ==> outcomes[j],
    ensures
        Supervisor::initial(StartupPolicy::Strict, cleanup, total).run(
            bind_events(outcomes) + later,
        ).pending() == (Action::Stop { cleanup, status: ExitStatus::StartupAborted }),
{
    let start = Supervisor::initial(StartupPolicy::Strict, cleanup, total);
    let before = outcomes.drop_last();
    lemma_startup_attempts_in_order(StartupPolicy::Strict, cleanup, total, before);
    lemma_run_keeps_settings(start, bind_events(before));
    assert(bind_events(outcomes).drop_last() =~= bind_events(before));
    let failed = start.run(bind_events(outcomes));
    lemma_run_concat(start, bind_events(outcomes), later);
    lemma_stopped_is_final(failed, later);
}

/// Once the shutdown signal has come while the run was waiting for it, the run
/// has stopped for good: it asks for cleanup exactly if cleanup was configured,
/// and leaves with the status of a clean shutdown.
pub proof fn lemma_signal_stops_cleanly(s: Supervisor, later: Seq<Event>)
    requires
        s.phase is Waiting,
    ensures
        s.next(Event::Signalled).run(later).pending() == (Action::Stop {
            cleanup: s.cleanup,
            status: ExitStatus::Clean,
        }),
{
    lemma_stopped_is_final(s.next(Event::Signalled), later);
}

/// The socket files to remove when the run stops: with `cleanup` set, the
/// resolved isolated-side path of every configured service, started or not, in
/// the order of the configuration; otherwise none.
pub fn cleanup_paths(cleanup: bool, services: &[Service], defines: &[(String, String)]) -> (paths:
    Vec<String>)
    ensures
        !cleanup ==> paths@.len() == 0,
        cleanup ==> paths@.len() == services@.len(),
        cleanup ==> forall|i: int|
            0 <= i < services@.len() ==> (#[trigger] paths@[i])@ == resolve(
                services@[i].dst@,
                defines_view(defines@),
            ),
{
    let mut paths: Vec<String> = Vec::new();
    if cleanup {
        let mut i: usize = 0;
        while i < services.len()
            invariant
                i <= services.len(),
                paths@.len() == i,
                forall|k: int|
                    0 <= k < i ==> (#[trigger] paths@[k])@ == resolve(
                        services@[k].dst@,
                        defines_view(defines@),
                    ),
            decreases services.len() - i,
        {
            paths.push(services[i].dst_in(defines));
            i = i + 1;
        }
    }
    paths
}

} // verus!
