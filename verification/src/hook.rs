//! The life of the scroll hook: asked for at most once, installed by a worker
//! that stays for the rest of the process, or failed for good.
//!
//! Installing a hook is the platform's work. This module holds the decisions
//! round it: whether a start request needs a worker at all, what is made of
//! the way the worker's start went, what the worker's report does to the
//! state, and what a caller that asked for a start is told. A start waits for
//! the worker's report for a short, bounded time only: where none has come by
//! then, the start succeeds and the report counts when it comes.

use vstd::prelude::*;

verus! {

/// The milliseconds that a start waits for its worker's report, at most.
pub const READINESS_WAIT_MS: u64 = 10;

/// Why no device state can be made.
#[derive(Debug, PartialEq, Eq, Structural, Clone, Copy)]
pub enum HookError {
    /// The process lacks the permission that watching input needs.
    PermissionDenied,
    /// The hook could not be installed: the platform refused to register it,
    /// or the worker that should hold it could not be started.
    HookInstallFailed,
}

/// Where the hook stands.
#[derive(Debug, PartialEq, Eq, Structural, Clone, Copy)]
pub enum HookState {
    /// Nobody has asked for the hook yet.
    Uninitialized,
    /// A worker was asked for and has not reported yet.
    Installing,
    /// The hook is installed and its worker pumps events.
    Running,
    /// Installing failed; no later request tries again.
    Failed(HookError),
}

/// What the caller of a start request has to do.
#[derive(Debug, PartialEq, Eq, Structural, Clone, Copy)]
pub enum HookCommand {
    /// Nothing: a worker was asked for before.
    Nothing,
    /// Start the worker that installs the hook, and report how it went.
    SpawnWorker,
}

impl HookState {
    /// The state after a start request, and what the request asks of its
    /// caller. Only the first request asks for a worker.
    pub open spec fn requested(self) -> (HookState, HookCommand) {
        match self {
            HookState::Uninitialized => (HookState::Installing, HookCommand::SpawnWorker),
            _ => (self, HookCommand::Nothing),
        }
    }

    /// The state after the worker reported `outcome`. A report counts only
    /// while an installation is under way.
    pub open spec fn reported(self, outcome: Result<(), HookError>) -> HookState {
        match self {
            HookState::Installing => match outcome {
                Ok(_) => HookState::Running,
                Err(e) => HookState::Failed(e),
            },
            _ => self,
        }
    }

    /// The state after a start, and what the caller is told. `report` is the
    /// worker's report, or `None` where the wait for it ended without one; it
    /// counts only where this start is the one that asks for the worker. A
    /// start without a report leaves the installation under way and succeeds.
    pub open spec fn ensured(self, report: Option<Result<(), HookError>>)
        -> (HookState, Result<(), HookError>) {
        match self {
            HookState::Uninitialized => match report {
                Some(Ok(_)) => (HookState::Running, Ok(())),
                Some(Err(e)) => (HookState::Failed(e), Err(e)),
                None => (HookState::Installing, Ok(())),
            },
            HookState::Installing => (HookState::Installing, Ok(())),
            HookState::Running => (HookState::Running, Ok(())),
            HookState::Failed(e) => (HookState::Failed(e), Err(e)),
        }
    }
}

/// What a worker reports that has tried to register the hook.
pub open spec fn install_outcome_spec(installed: bool) -> Result<(), HookError> {
    if installed {
        Ok(())
    } else {
        Err(HookError::HookInstallFailed)
    }
}

/// What is known of the worker when the wait for its report ends. `spawned`
/// says whether the worker could be started, `answer` is what it said of
/// registering the hook, if it said anything within the wait, and
/// `worker_alive` whether it can still say something. A worker that was not
/// started, one that could not register the hook and one that is gone without
/// a word have all failed to install the hook. A worker that lives and has
/// not answered yet is no failure: there is no report, that is all.
pub open spec fn worker_outcome_spec(spawned: bool, answer: Option<bool>, worker_alive: bool)
    -> Option<Result<(), HookError>> {
    if !spawned {
        Some(Err(HookError::HookInstallFailed))
    } else {
        match answer {
            Some(installed) => Some(install_outcome_spec(installed)),
            None => if worker_alive {
                None
            } else {
                Some(Err(HookError::HookInstallFailed))
            },
        }
    }
}

/// What a worker reports that has tried to register the hook.
pub fn install_outcome(installed: bool) -> (outcome: Result<(), HookError>)
    ensures
        outcome == install_outcome_spec(installed),
{
    if installed {
        Ok(())
    } else {
        Err(HookError::HookInstallFailed)
    }
}

/// What is known of the worker when the wait for its report ends: its
/// report, or `None` where it lives and has not answered yet.
pub fn worker_outcome(spawned: bool, answer: Option<bool>, worker_alive: bool)
    -> (report: Option<Result<(), HookError>>)
    ensures
        report == worker_outcome_spec(spawned, answer, worker_alive),
{
    if !spawned {
        return Some(Err(HookError::HookInstallFailed));
    }
    match answer {
        Some(installed) => Some(install_outcome(installed)),
        None => {
            if worker_alive {
                None
            } else {
                Some(Err(HookError::HookInstallFailed))
            }
        },
    }
}

/// The one hook of a process and where it stands.
#[derive(Debug)]
pub struct HookLifecycle {
    state: HookState,
}

impl View for HookLifecycle {
    type V = HookState;

    closed spec fn view(&self) -> HookState {
        self.state
    }
}

impl HookLifecycle {
    /// A hook that nobody has asked for yet.
    pub fn new() -> (hook: HookLifecycle)
        ensures
            hook@ == HookState::Uninitialized,
    {
        HookLifecycle { state: HookState::Uninitialized }
    }

    /// Where the hook stands.
    pub fn state(&self) -> (state: HookState)
        ensures
            state == self@,
    {
        self.state
    }

    /// Whether a start now would ask for a worker.
    pub fn needs_worker(&self) -> (needed: bool)
        ensures
            needed == (self@.requested().1 == HookCommand::SpawnWorker),
            needed == (self@ == HookState::Uninitialized),
    {
        match self.state {
            HookState::Uninitialized => true,
            _ => false,
        }
    }

    /// Asks for the hook. The first request moves to `Installing` and tells
    /// the caller to start the worker; every later one changes nothing.
    pub fn request_start(&mut self) -> (command: HookCommand)
        ensures
            (final(self)@, command) == old(self)@.requested(),
    {
        match self.state {
            HookState::Uninitialized => {
                self.state = HookState::Installing;
                HookCommand::SpawnWorker
            },
            _ => HookCommand::Nothing,
        }
    }

    /// Takes the worker's report: the hook runs, or it failed for good. A
    /// report that comes after the start has returned counts as one that
    /// came in time.
    pub fn complete_start(&mut self, outcome: Result<(), HookError>)
        ensures
            final(self)@ == old(self)@.reported(outcome),
    {
        match self.state {
            HookState::Installing => {
                match outcome {
                    Ok(_) => {
                        self.state = HookState::Running;
                    },
                    Err(e) => {
                        self.state = HookState::Failed(e);
                    },
                }
            },
            _ => {},
        }
    }

    /// Asks for the hook and, where that asks for a worker, takes what is
    /// known of the worker when the bounded wait for it ends: its report, or
    /// `None`. Succeeds unless the hook has failed, now or before.
    pub fn ensure_started(&mut self, report: Option<Result<(), HookError>>)
        -> (result: Result<(), HookError>)
        ensures
            (final(self)@, result) == old(self)@.ensured(report),
    {
        let command = self.request_start();
        match command {
            HookCommand::SpawnWorker => {
                match report {
                    Some(outcome) => {
                        self.complete_start(outcome);
                    },
                    None => {},
                }
            },
            HookCommand::Nothing => {},
        }
        match self.state {
            HookState::Failed(e) => Err(e),
            _ => Ok(()),
        }
    }
}

/// A start is a start request followed, where the request asked for a worker
/// and the worker reported within the wait, by that report.
pub proof fn lemma_ensured_is_request_then_report(
    state: HookState,
    report: Option<Result<(), HookError>>,
)
    ensures
        ({
            let (asked, command) = state.requested();
            let settled = match report {
                Some(outcome) => if command == HookCommand::SpawnWorker {
                    asked.reported(outcome)
                } else {
                    asked
                },
                None => asked,
            };
            &&& state.ensured(report).0 == settled
            &&& state.ensured(report).1 is Err <==> settled is Failed
        }),
{
}

/// A report that comes late counts as one that came in time: a start that
/// asks for the worker and ends without its report, followed by the report,
/// leaves the hook where a start with the report leaves it.
pub proof fn lemma_late_report_counts(outcome: Result<(), HookError>)
    ensures
        HookState::Uninitialized.ensured(None).0.reported(outcome)
            == HookState::Uninitialized.ensured(Some(outcome)).0,
{
}

/// Law of the one hook. Starting twice is starting once: after any start,
/// from any state and whatever was known of its worker, a second start leaves
/// the state as it is, tells its caller what the first one told, and asks for
/// no second worker, whatever a second worker would have reported.
pub proof fn lemma_start_is_idempotent(
    state: HookState,
    first: Option<Result<(), HookError>>,
    second: Option<Result<(), HookError>>,
)
    ensures
        ({
            let (once, told) = state.ensured(first);
            &&& once.ensured(second) == (once, told)
            &&& once.requested() == (once, HookCommand::Nothing)
        }),
{
}

/// A start request after a start request asks for nothing and changes
/// nothing.
pub proof fn lemma_request_is_idempotent(state: HookState)
    ensures
        state.requested().0.requested() == (state.requested().0, HookCommand::Nothing),
{
}

/// Once the hook runs it runs for the rest of the process: no request, no
/// report and no start moves it.
pub proof fn lemma_running_is_terminal(
    outcome: Result<(), HookError>,
    report: Option<Result<(), HookError>>,
)
    ensures
        HookState::Running.requested().0 == HookState::Running,
        HookState::Running.reported(outcome) == HookState::Running,
        HookState::Running.ensured(report) == (HookState::Running, Ok::<(), HookError>(())),
{
}

} // verus!
