//! The worker loop: what a worker does next, given what happened last.
//!
//! A worker looks for the cancellation signal, claims a job, runs the
//! executor on it, finalizes and completes it, or returns it to the queue
//! where the attempt failed; then it begins again. With nothing to claim it
//! sleeps; after a failure it sleeps a fixed time, so that a job that keeps
//! failing is not retried in a hot loop. Only cancellation ends the loop,
//! and never while a job is held.

use vstd::prelude::*;
use crate::queue_model::{return_of, QueueModel};
use crate::JobPriority;

verus! {

/// A worker, for setups in which workers are told apart.
#[derive(Debug, PartialEq, Eq)]
pub struct Worker {
    pub id: String,
    pub media_root: String,
    pub background_mode: bool,
}

impl Worker {
    /// A worker under the given identifier.
    pub fn new(id: String, media_root: String, background_mode: bool) -> (r: Self)
        ensures
            r.id == id,
            r.media_root == media_root,
            r.background_mode == background_mode,
    {
        Worker { id, media_root, background_mode }
    }
}

/// Seconds that a worker waits after a failure before it goes on.
pub const COOLDOWN_SECONDS: u64 = 10;

/// Where a worker stands in its loop; each phase waits for the outcome of
/// the action that led to it.
#[derive(Debug, Clone, Copy, PartialEq, Eq, Structural)]
pub enum WorkerPhase {
    /// Looking for the cancellation signal.
    Polling,
    /// Claiming a job.
    Claiming,
    /// Running the executor on the claimed job.
    Transcoding { disable_sources: bool },
    /// Moving the finished output to its destination.
    Moving { disable_sources: bool },
    /// Putting the source files out of the way.
    Disabling,
    /// Marking the job completed.
    Completing,
    /// Returning the job to the queue.
    Returning { cooldown: bool },
    /// Sleeping after a failure.
    CoolingDown,
    /// Sleeping with nothing to do.
    Idling,
    /// The loop has ended.
    Stopped,
}

/// What happened to the action that the worker asked for.
#[derive(Debug, Clone, Copy, PartialEq, Eq, Structural)]
pub enum WorkerEvent {
    /// The cancellation signal has come.
    Cancelled,
    /// The cancellation signal has not come.
    Clear,
    /// A job was claimed; the flag is its setting for the source files.
    Claimed { disable_sources: bool },
    /// No job could be claimed.
    Empty,
    /// The action was carried out.
    Done,
    /// The action failed.
    Failed,
}

/// What the worker is to do next.
#[derive(Debug, Clone, Copy, PartialEq, Eq, Structural)]
pub enum WorkerAction {
    /// Look for the cancellation signal.
    CheckCancelled,
    /// Claim a job from the queue.
    Claim { priority: Option<JobPriority> },
    /// Probe the work folder and run the executor on the claimed job.
    Transcode,
    /// Move the finished output to its destination.
    MoveOutput,
    /// Put the source files out of the way.
    DisableSources,
    /// Mark the job completed.
    Complete,
    /// Return the job to the queue.
    ReturnToQueue,
    /// Sleep, unless the cancellation signal comes first.
    Sleep { seconds: u64 },
    /// Leave the loop.
    Stop,
}

/// The loop of one worker.
#[derive(Debug, Clone, Copy, PartialEq, Eq, Structural)]
pub struct WorkerLoop {
    pub priority: JobPriority,
    pub sleep_interval: u64,
    pub phase: WorkerPhase,
}

impl WorkerPhase {
    /// The worker holds a claimed job that it has neither completed nor
    /// returned.
    pub open spec fn holds_job(self) -> bool {
        self is Transcoding || self is Moving || self is Disabling
    }

    /// How many actions at most lie between this phase and the settling of
    /// the held job.
    pub open spec fn steps_to_settle(self) -> nat {
        match self {
            WorkerPhase::Transcoding { .. } => 3,
            WorkerPhase::Moving { .. } => 2,
            WorkerPhase::Disabling => 1,
            _ => 0,
        }
    }
}

impl WorkerAction {
    /// The action settles the held job: it completes it or returns it.
    pub open spec fn settles(self) -> bool {
        self is Complete || self is ReturnToQueue
    }
}

impl WorkerLoop {
    /// The priority that a claim is made with: none where jobs are taken in
    /// the order of the listing.
    pub open spec fn claim_priority(self) -> Option<JobPriority> {
        if self.priority == JobPriority::Unordered {
            None
        } else {
            Some(self.priority)
        }
    }

    /// The loop in another phase.
    pub open spec fn at(self, phase: WorkerPhase) -> WorkerLoop {
        WorkerLoop { phase, ..self }
    }

    /// The phase and the action that follow an event.
    ///
    /// - At the top of the loop a worker that is cancelled stops; any other
    ///   claims a job.
    /// - With a job claimed, the executor is run. With none to claim the
    ///   worker sleeps for its idle interval. Where the claim failed it
    ///   sleeps for the cooldown.
    /// - After a successful attempt the output is moved; after a failed
    ///   one the job is returned and the cooldown follows.
    /// - After the move the source files are put away where the job asks
    ///   for it, and the job is completed; where the move failed the job
    ///   is returned, without cooldown.
    /// - Whether the source files could be put away or not, the job is
    ///   completed.
    /// - After a sleep, and after a job is settled, the loop begins again;
    ///   where settling failed, after the cooldown. A sleep that the
    ///   cancellation signal cut short ends the loop.
    pub open spec fn next(self, event: WorkerEvent) -> (WorkerLoop, WorkerAction) {
        match self.phase {
            WorkerPhase::Polling => if event is Cancelled {
                (self.at(WorkerPhase::Stopped), WorkerAction::Stop)
            } else {
                (
                    self.at(WorkerPhase::Claiming),
                    WorkerAction::Claim { priority: self.claim_priority() },
                )
            },
            WorkerPhase::Claiming => match event {
                WorkerEvent::Claimed { disable_sources } => (
                    self.at(WorkerPhase::Transcoding { disable_sources }),
                    WorkerAction::Transcode,
                ),
                WorkerEvent::Empty => (
                    self.at(WorkerPhase::Idling),
                    WorkerAction::Sleep { seconds: self.sleep_interval },
                ),
                _ => (
                    self.at(WorkerPhase::CoolingDown),
                    WorkerAction::Sleep { seconds: COOLDOWN_SECONDS },
                ),
            },
            WorkerPhase::Transcoding { disable_sources } => if event is Done {
                (self.at(WorkerPhase::Moving { disable_sources }), WorkerAction::MoveOutput)
            } else {
                (self.at(WorkerPhase::Returning { cooldown: true }), WorkerAction::ReturnToQueue)
            },
            WorkerPhase::Moving { disable_sources } => if event is Done {
                if disable_sources {
                    (self.at(WorkerPhase::Disabling), WorkerAction::DisableSources)
                } else {
                    (self.at(WorkerPhase::Completing), WorkerAction::Complete)
                }
            } else {
                (self.at(WorkerPhase::Returning { cooldown: false }), WorkerAction::ReturnToQueue)
            },
            WorkerPhase::Disabling => (self.at(WorkerPhase::Completing), WorkerAction::Complete),
            WorkerPhase::Completing => if event is Done {
                (self.at(WorkerPhase::Polling), WorkerAction::CheckCancelled)
            } else {
                (
                    self.at(WorkerPhase::CoolingDown),
                    WorkerAction::Sleep { seconds: COOLDOWN_SECONDS },
                )
            },
            WorkerPhase::Returning { cooldown } => if event is Done && !cooldown {
                (self.at(WorkerPhase::Polling), WorkerAction::CheckCancelled)
            } else {
                (
                    self.at(WorkerPhase::CoolingDown),
                    WorkerAction::Sleep { seconds: COOLDOWN_SECONDS },
                )
            },
            WorkerPhase::CoolingDown | WorkerPhase::Idling => if event is Cancelled {
                (self.at(WorkerPhase::Stopped), WorkerAction::Stop)
            } else {
                (self.at(WorkerPhase::Polling), WorkerAction::CheckCancelled)
            },
            WorkerPhase::Stopped => (self, WorkerAction::Stop),
        }
    }

    /// A loop at its top, and the action that it begins with.
    pub fn start(priority: JobPriority, sleep_interval: u64) -> (r: (WorkerLoop, WorkerAction))
        ensures
            r.0 == (WorkerLoop { priority, sleep_interval, phase: WorkerPhase::Polling }),
            r.1 == WorkerAction::CheckCancelled,
    {
        (
            WorkerLoop { priority, sleep_interval, phase: WorkerPhase::Polling },
            WorkerAction::CheckCancelled,
        )
    }

    /// Takes what happened to the last action, and gives the loop as it
    /// now stands and the action to take.
    pub fn step(self, event: WorkerEvent) -> (r: (WorkerLoop, WorkerAction))
        ensures
            r == self.next(event),
    {
        let WorkerLoop { priority, sleep_interval, phase } = self;
        let cooling = (WorkerPhase::CoolingDown, WorkerAction::Sleep { seconds: COOLDOWN_SECONDS });
        let again = (WorkerPhase::Polling, WorkerAction::CheckCancelled);
        let (phase, action) = match phase {
            WorkerPhase::Polling => match event {
                WorkerEvent::Cancelled => (WorkerPhase::Stopped, WorkerAction::Stop),
                _ => {
                    let claim_priority = match priority {
                        JobPriority::Unordered => None,
                        other => Some(other),
                    };
                    (WorkerPhase::Claiming, WorkerAction::Claim { priority: claim_priority })
                },
            },
            WorkerPhase::Claiming => match event {
                WorkerEvent::Claimed { disable_sources } => (
                    WorkerPhase::Transcoding { disable_sources },
                    WorkerAction::Transcode,
                ),
                WorkerEvent::Empty => (
                    WorkerPhase::Idling,
                    WorkerAction::Sleep { seconds: sleep_interval },
                ),
                _ => cooling,
            },
            WorkerPhase::Transcoding { disable_sources } => match event {
                WorkerEvent::Done => (
                    WorkerPhase::Moving { disable_sources },
                    WorkerAction::MoveOutput,
                ),
                _ => (WorkerPhase::Returning { cooldown: true }, WorkerAction::ReturnToQueue),
            },
            WorkerPhase::Moving { disable_sources } => match event {
                WorkerEvent::Done => if disable_sources {
                    (WorkerPhase::Disabling, WorkerAction::DisableSources)
                } else {
                    (WorkerPhase::Completing, WorkerAction::Complete)
                },
                _ => (WorkerPhase::Returning { cooldown: false }, WorkerAction::ReturnToQueue),
            },
            WorkerPhase::Disabling => (WorkerPhase::Completing, WorkerAction::Complete),
            WorkerPhase::Completing => match event {
                WorkerEvent::Done => again,
                _ => cooling,
            },
            WorkerPhase::Returning { cooldown } => match event {
                WorkerEvent::Done => if cooldown {
                    cooling
                } else {
                    again
                },
                _ => cooling,
            },
            WorkerPhase::CoolingDown | WorkerPhase::Idling => match event {
                WorkerEvent::Cancelled => (WorkerPhase::Stopped, WorkerAction::Stop),
                _ => again,
            },
            WorkerPhase::Stopped => (WorkerPhase::Stopped, WorkerAction::Stop),
        };
        (WorkerLoop { priority, sleep_interval, phase }, action)
    }
}

/// A worker never leaves the loop with a job in its hands: it stops only
/// at the top of the loop or out of a sleep, and whatever happens while it
/// holds a job, it either still holds it, closer to settling it, or the
/// very next action completes or returns it.
pub proof fn lemma_held_job_is_settled(state: WorkerLoop, event: WorkerEvent)
    ensures
        state.next(event).1 is Stop ==> !state.phase.holds_job(),
        state.phase.holds_job() ==> {
            let (after, action) = state.next(event);
            ||| action.settles()
            ||| after.phase.holds_job() && after.phase.steps_to_settle()
                < state.phase.steps_to_settle()
        },
        state.next(event).0.phase.holds_job() ==> state.phase.holds_job() || (state.phase
            is Claiming && event is Claimed),
{
}

/// A failed attempt is never dropped: the job is returned to the queue at
/// once, and the worker then waits for the cooldown before it goes on.
pub proof fn lemma_failure_returns_job(state: WorkerLoop, event: WorkerEvent, settled: WorkerEvent)
    requires
        state.phase is Transcoding,
        !(event is Done),
    ensures
        state.next(event).1 is ReturnToQueue,
        state.next(event).0.next(settled).1 == (WorkerAction::Sleep { seconds: COOLDOWN_SECONDS }),
{
}

/// No loss on failure, seen from the worker. While a worker runs the
/// executor on a job, the job's record lies in `in_progress` and nowhere
/// else. When the attempt fails, the worker's next action is to return the
/// job, and once that is done the record lies in `pending` and nowhere
/// else, holding what it held: never in no directory, never in two.
pub proof fn lemma_failed_attempt_keeps_job(
    state: WorkerLoop,
    event: WorkerEvent,
    dirs: QueueModel,
    name: Seq<char>,
)
    requires
        state.phase is Transcoding,
        !(event is Done),
        dirs.homes(name) == 1,
        dirs.in_progress.contains_key(name),
    ensures
        state.next(event).1 is ReturnToQueue,
        ({
            let after = dirs.apply(return_of(name)).0;
            &&& after.homes(name) == 1
            &&& after.pending.contains_key(name)
            &&& after.pending[name] == dirs.in_progress[name]
        }),
{
    crate::queue_model::lemma_no_loss_on_failure(dirs, name);
}

/// Only cancellation ends the loop.
pub proof fn lemma_only_cancellation_stops(state: WorkerLoop, event: WorkerEvent)
    requires
        !(state.phase is Stopped),
    ensures
        state.next(event).1 is Stop ==> event is Cancelled,
{
}

} // verus!
