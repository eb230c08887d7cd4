//! The decisions of the start and stop lifecycle. The caller performs each
//! returned action (reading or writing the registry, installing the shutdown
//! handler, detaching, running the workers) and hands back what happened.
use vstd::prelude::*;
use crate::config::{LoadConfig, reservation_of, clamp_cores, min_nat};

verus! {

/// Where a start stands within its `Starting` phase.
#[derive(Clone, Copy, Debug, PartialEq, Eq, Structural)]
pub enum StartStep {
    /// Writing this process's identifier to the registry.
    Registering,
    /// Installing the shutdown signal handler.
    InstallingHandler,
    /// Detaching into the background.
    Detaching,
    /// The detached child writing its own identifier to the registry.
    Reregistering,
}

#[derive(Clone, Copy, Debug, PartialEq, Eq, Structural)]
pub enum Phase {
    Idle,
    Starting(StartStep),
    Running,
    Stopping,
    Terminated,
}

/// The outcome of detaching into the background.
#[derive(Clone, Copy, Debug, PartialEq, Eq, Structural)]
pub enum Detach {
    /// This process is the detached child.
    Child,
    /// This process is the parent of the detached child with this identifier.
    Parent(u32),
    /// Detaching failed.
    Failed,
    /// This platform cannot detach; the start goes on in the foreground.
    Unsupported,
}

/// What happened, as the caller reports it.
#[derive(Clone, Copy, Debug, PartialEq, Eq, Structural)]
pub enum Event {
    /// The registry was read: the identifier it records, if any.
    RegistryRead(Option<u32>),
    /// This process's identifier was written to the registry (`true`), or
    /// writing failed (`false`), which is only warned of.
    SelfRecorded(bool),
    /// The shutdown handler was installed (`true`), or could not be.
    HandlerInstalled(bool),
    Detached(Detach),
    /// Every worker and the reporter have returned.
    UnitsJoined,
    /// The reservation was released and the registry cleared.
    Cleaned,
}

/// What the caller is to do next.
#[derive(Clone, Copy, Debug, PartialEq, Eq, Structural)]
pub enum Action {
    /// Nothing: the event does not belong to this phase.
    Nothing,
    /// Another instance is registered: report its identifier and stop here,
    /// touching nothing.
    ReportConflict(u32),
    /// Write this process's identifier to the registry.
    RecordSelf,
    /// Install the shutdown handler, which clears the running flag and the
    /// registry.
    InstallHandler,
    /// Detach into the background.
    Detach,
    /// Report the detached child's identifier and exit with status 0.
    ExitParent(u32),
    /// Clear the registry and give up the start; no worker was spawned.
    Abort,
    /// Hold `reserve` bytes, if any, and run `workers` workers and the reporter
    /// until the running flag is cleared.
    Launch { workers: usize, reserve: Option<usize> },
    /// Release the reservation and clear the registry.
    ReleaseAndClear,
}

/// A start of the load generator.
#[derive(Clone, Copy, Debug, PartialEq, Eq, Structural)]
pub struct Controller {
    pub config: LoadConfig,
    pub background: bool,
    pub phase: Phase,
}

pub open spec fn launch_of(c: Controller) -> Action {
    Action::Launch { workers: c.config.cores, reserve: reservation_of(c.config.memory) }
}

pub open spec fn with_phase(c: Controller, p: Phase) -> Controller {
    Controller { phase: p, ..c }
}

/// The controller's transition on an event: its next state and the action
/// it asks for.
pub open spec fn next(c: Controller, e: Event) -> (Controller, Action) {
    match (c.phase, e) {
        (Phase::Idle, Event::RegistryRead(Some(pid))) => (c, Action::ReportConflict(pid)),
        (Phase::Idle, Event::RegistryRead(None)) => (
            with_phase(c, Phase::Starting(StartStep::Registering)),
            Action::RecordSelf,
        ),
        (Phase::Starting(StartStep::Registering), Event::SelfRecorded(_)) => (
            with_phase(c, Phase::Starting(StartStep::InstallingHandler)),
            Action::InstallHandler,
        ),
        (Phase::Starting(StartStep::InstallingHandler), Event::HandlerInstalled(ok)) => if !ok {
            (with_phase(c, Phase::Terminated), Action::Abort)
        } else if c.background {
            (with_phase(c, Phase::Starting(StartStep::Detaching)), Action::Detach)
        } else {
            (with_phase(c, Phase::Running), launch_of(c))
        },
        (Phase::Starting(StartStep::Detaching), Event::Detached(d)) => match d {
            Detach::Child => (
                with_phase(c, Phase::Starting(StartStep::Reregistering)),
                Action::RecordSelf,
            ),
            Detach::Parent(pid) => (with_phase(c, Phase::Terminated), Action::ExitParent(pid)),
            Detach::Failed => (with_phase(c, Phase::Terminated), Action::Abort),
            Detach::Unsupported => (with_phase(c, Phase::Running), launch_of(c)),
        },
        (Phase::Starting(StartStep::Reregistering), Event::SelfRecorded(_)) => (
            with_phase(c, Phase::Running),
            launch_of(c),
        ),
        (Phase::Running, Event::UnitsJoined) => (
            with_phase(c, Phase::Stopping),
            Action::ReleaseAndClear,
        ),
        (Phase::Stopping, Event::Cleaned) => (with_phase(c, Phase::Terminated), Action::Nothing),
        _ => (c, Action::Nothing),
    }
}

impl Controller {
    /// A controller that has not yet looked at the registry.
    pub fn new(config: LoadConfig, background: bool) -> (r: Controller)
        ensures
            r == (Controller { config, background, phase: Phase::Idle }),
    {
        Controller { config, background, phase: Phase::Idle }
    }

    fn moved(&self, p: Phase) -> (r: Controller)
        ensures
            r == with_phase(*self, p),
    {
        Controller { config: self.config, background: self.background, phase: p }
    }

    fn launch(&self) -> (r: Action)
        ensures
            r == launch_of(*self),
    {
        Action::Launch { workers: self.config.cores, reserve: self.config.reservation() }
    }

    /// The next state and the action to perform, on event `e`.
    pub fn step(&self, e: Event) -> (r: (Controller, Action))
        ensures
            r == next(*self, e),
    {
        match (self.phase, e) {
            (Phase::Idle, Event::RegistryRead(Some(pid))) => (*self, Action::ReportConflict(pid)),
            (Phase::Idle, Event::RegistryRead(None)) => (
                self.moved(Phase::Starting(StartStep::Registering)),
                Action::RecordSelf,
            ),
            (Phase::Starting(StartStep::Registering), Event::SelfRecorded(_)) => (
                self.moved(Phase::Starting(StartStep::InstallingHandler)),
                Action::InstallHandler,
            ),
            (Phase::Starting(StartStep::InstallingHandler), Event::HandlerInstalled(ok)) => {
                if !ok {
                    (self.moved(Phase::Terminated), Action::Abort)
                } else if self.background {
                    (self.moved(Phase::Starting(StartStep::Detaching)), Action::Detach)
                } else {
                    (self.moved(Phase::Running), self.launch())
                }
            },
            (Phase::Starting(StartStep::Detaching), Event::Detached(d)) => match d {
                Detach::Child => (
                    self.moved(Phase::Starting(StartStep::Reregistering)),
                    Action::RecordSelf,
                ),
                Detach::Parent(pid) => (self.moved(Phase::Terminated), Action::ExitParent(pid)),
                Detach::Failed => (self.moved(Phase::Terminated), Action::Abort),
                Detach::Unsupported => (self.moved(Phase::Running), self.launch()),
            },
            (Phase::Starting(StartStep::Reregistering), Event::SelfRecorded(_)) => (
                self.moved(Phase::Running),
                self.launch(),
            ),
            (Phase::Running, Event::UnitsJoined) => (
                self.moved(Phase::Stopping),
                Action::ReleaseAndClear,
            ),
            (Phase::Stopping, Event::Cleaned) => (self.moved(Phase::Terminated), Action::Nothing),
            _ => (*self, Action::Nothing),
        }
    }
}

/// What `stop` does.
#[derive(Clone, Copy, Debug, PartialEq, Eq, Structural)]
pub enum StopPlan {
    /// Nothing is registered: report that no instance runs, and touch nothing.
    NothingRunning,
    /// Send a termination signal to this process, then clear the registry
    /// whether or not the signal was delivered, without waiting for it to exit.
    SignalAndClear(u32),
}

/// What `stop` does, given what the registry records.
pub fn plan_stop(recorded: Option<u32>) -> (r: StopPlan)
    ensures
        r == (match recorded {
            None => StopPlan::NothingRunning,
            Some(pid) => StopPlan::SignalAndClear(pid),
        }),
{
    match recorded {
        None => StopPlan::NothingRunning,
        Some(pid) => StopPlan::SignalAndClear(pid),
    }
}

/// A start that finds another instance registered reports that instance's
/// identifier and does nothing else: its state is unchanged, and the action
/// neither writes the registry nor spawns a worker.
pub proof fn lemma_conflict_has_no_effect(c: Controller, pid: u32)
    requires
        c.phase == Phase::Idle,
    ensures
        next(c, Event::RegistryRead(Some(pid))) == (c, Action::ReportConflict(pid)),
{
}

/// Whatever the event, a launch runs exactly the configured number of
/// workers; for a request of at least one core that is the smaller of the
/// request and the machine's logical cores.
pub proof fn lemma_launch_runs_clamped_workers(
    c: Controller,
    e: Event,
    requested: usize,
    available: usize,
)
    requires
        requested >= 1,
        available >= 1,
        c.config.cores as nat == clamp_cores(requested as nat, available as nat),
    ensures
        next(c, e).1 is Launch ==> next(c, e).1->workers as nat == min_nat(
            requested as nat,
            available as nat,
        ),
{
}

/// A launch holds exactly the bytes that the configuration asks for.
pub proof fn lemma_launch_reserves_requested(c: Controller, e: Event, n: usize)
    requires
        c.config.memory == crate::config::MemoryRequest::Bytes(n),
    ensures
        next(c, e).1 is Launch ==> next(c, e).1->reserve == Some(n),
{
}

} // verus!
