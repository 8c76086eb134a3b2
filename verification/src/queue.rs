//! The queue directory protocol.
//!
//! Three directories hold the job records, each record under the name
//! `{id}.job` in exactly one of them:
//! `pending` → (claim) → `in_progress` → (success) → `completed`, and
//! `in_progress` → (failure) → `pending`. Workers share nothing else. Two
//! operations of the filesystem carry the protocol: creating a directory,
//! which fails where the directory exists, guards the writing of a record;
//! renaming a record, which finds the record gone where another worker
//! has it, decides who claims it. A record that is gone is contention and
//! no error; every other failure is reported.
//!
//! This module decides; the driver acts. An enqueue or a claim is a small
//! machine: `request` names the operation to perform next, `advance` takes
//! how it went. What the operations do to the directories, and what
//! follows for workers that act at the same time, is the subject of
//! `queue_model`.
//!
//! A record that a worker left in `in_progress` when it died stays there:
//! nothing in the protocol puts it back into `pending`.

use vstd::prelude::*;
use crate::episode::{metadata_of, EpisodeMetadata, EpisodeView};
use crate::job::Job;
use crate::paths::{extension, join, opt_view, path_extension, path_join};
use crate::priority::{is_priority_order, keys_view, priority_order};
use crate::text::same_text;
use crate::JobPriority;

verus! {

/// The three directories of a queue.
#[derive(Debug, Clone, Copy, PartialEq, Eq, Structural)]
pub enum QueueDir {
    Pending,
    InProgress,
    Completed,
}

/// The directories of one queue, and the root of the media that its jobs
/// speak of.
#[derive(Debug, PartialEq, Eq)]
pub struct JobQueue {
    pub media_root: String,
    pub queue_dir: String,
    pub in_progress_dir: String,
    pub completed_dir: String,
}

/// An operation on the queue's directories, for the driver to perform.
#[derive(Debug, PartialEq, Eq)]
pub enum QueueOp {
    /// Create the directory, and those above it, unless it exists.
    EnsureDir { dir: QueueDir },
    /// Remove the directory with all that is in it, if it exists.
    RemoveDir { dir: QueueDir },
    /// Create the lock directory of a record in `pending`. This fails where
    /// the lock directory exists.
    AcquireLock { name: String },
    /// Write a record into `pending`.
    WriteRecord { name: String, content: String },
    /// Remove the lock directory of a record.
    ReleaseLock { name: String },
    /// List the names in `pending`.
    ListPending,
    /// Read a record and turn it into a job.
    ReadRecord { dir: QueueDir, name: String },
    /// Rename a record from one directory into another. Where the record
    /// is not in the first, the outcome is `Missing`; any other failure is
    /// `Failed`, with its reason.
    MoveRecord { name: String, from: QueueDir, to: QueueDir },
}

/// A queue operation as plain values.
pub enum QueueOpView {
    EnsureDir { dir: QueueDir },
    RemoveDir { dir: QueueDir },
    AcquireLock { name: Seq<char> },
    WriteRecord { name: Seq<char>, content: Seq<char> },
    ReleaseLock { name: Seq<char> },
    ListPending,
    ReadRecord { dir: QueueDir, name: Seq<char> },
    MoveRecord { name: Seq<char>, from: QueueDir, to: QueueDir },
}

impl View for QueueOp {
    type V = QueueOpView;

    open spec fn view(&self) -> QueueOpView {
        match *self {
            QueueOp::EnsureDir { dir } => QueueOpView::EnsureDir { dir },
            QueueOp::RemoveDir { dir } => QueueOpView::RemoveDir { dir },
            QueueOp::AcquireLock { name } => QueueOpView::AcquireLock { name: name@ },
            QueueOp::WriteRecord { name, content } => QueueOpView::WriteRecord {
                name: name@,
                content: content@,
            },
            QueueOp::ReleaseLock { name } => QueueOpView::ReleaseLock { name: name@ },
            QueueOp::ListPending => QueueOpView::ListPending,
            QueueOp::ReadRecord { dir, name } => QueueOpView::ReadRecord { dir, name: name@ },
            QueueOp::MoveRecord { name, from, to } => QueueOpView::MoveRecord {
                name: name@,
                from,
                to,
            },
        }
    }
}

/// The view of an optional operation.
pub open spec fn opt_op_view(op: Option<QueueOp>) -> Option<QueueOpView> {
    match op {
        Some(op) => Some(op@),
        None => None,
    }
}

/// How an operation went.
#[derive(Debug, PartialEq, Eq)]
pub enum OpOutcome {
    /// The operation took effect.
    Done,
    /// The operation had nothing to act on: the record that it names is
    /// not where it was to be found. Of a move this says that the record is
    /// gone from the directory it was to be moved from, and nothing else.
    Missing,
    /// The operation did not take effect, for any other reason.
    Failed { reason: String },
    /// The names found by a listing, in the order of the listing.
    Names { names: Vec<String> },
    /// The job that a record holds.
    Record { job: Job },
}

/// Why a queue operation gave no result.
#[derive(Debug, PartialEq, Eq)]
pub enum QueueError {
    /// The record could not be written.
    WriteFailed { reason: String },
    /// The pending directory could not be listed.
    ListFailed { reason: String },
    /// A claimed record could not be read back.
    ReadFailed { reason: String },
    /// A record could not be moved, though nobody had taken it.
    MoveFailed { reason: String },
}

/// What an enqueue did.
#[derive(Debug, Clone, Copy, PartialEq, Eq, Structural)]
pub enum Enqueued {
    /// The record was written.
    Written,
    /// Another writer held the record's lock; nothing was written.
    Skipped,
}

impl OpOutcome {
    /// The reason that a failure gives; for a record that was missing,
    /// that it is gone; empty for any other outcome.
    pub open spec fn spec_reason(self) -> Seq<char> {
        match self {
            OpOutcome::Failed { reason } => reason@,
            OpOutcome::Missing => "the record is gone"@,
            _ => Seq::empty(),
        }
    }

    /// The reason that a failure gives; for a record that was missing,
    /// that it is gone; empty for any other outcome.
    pub fn reason(&self) -> (r: String)
        ensures
            r@ == self.spec_reason(),
    {
        match self {
            OpOutcome::Failed { reason } => reason.clone(),
            OpOutcome::Missing => String::from_str("the record is gone"),
            _ => String::new(),
        }
    }
}

impl JobQueue {
    /// The three directories stand directly under the queue's root:
    /// `pending`, `in_progress` and `completed`.
    pub open spec fn rooted_at(self, media_root: Seq<char>, queue_root: Seq<char>) -> bool {
        &&& self.media_root@ == media_root
        &&& self.queue_dir@ == path_join(queue_root, "pending"@)
        &&& self.in_progress_dir@ == path_join(queue_root, "in_progress"@)
        &&& self.completed_dir@ == path_join(queue_root, "completed"@)
    }

    /// A queue whose directories stand under `queue_root`, apart from the
    /// media.
    pub fn new(media_root: String, queue_root: String) -> (q: Self)
        ensures
            q.rooted_at(media_root@, queue_root@),
    {
        let queue_dir = join(queue_root.as_str(), "pending");
        let in_progress_dir = join(queue_root.as_str(), "in_progress");
        let completed_dir = join(queue_root.as_str(), "completed");
        JobQueue { media_root, queue_dir, in_progress_dir, completed_dir }
    }

    /// The path of each directory.
    pub open spec fn spec_dir_path(self, dir: QueueDir) -> Seq<char> {
        match dir {
            QueueDir::Pending => self.queue_dir@,
            QueueDir::InProgress => self.in_progress_dir@,
            QueueDir::Completed => self.completed_dir@,
        }
    }

    /// The path of a directory of the queue.
    pub fn dir_path(&self, dir: QueueDir) -> (r: &str)
        ensures
            r@ == self.spec_dir_path(dir),
    {
        match dir {
            QueueDir::Pending => self.queue_dir.as_str(),
            QueueDir::InProgress => self.in_progress_dir.as_str(),
            QueueDir::Completed => self.completed_dir.as_str(),
        }
    }

    /// The path of the record `name` in a directory of the queue.
    pub fn record_path(&self, dir: QueueDir, name: &str) -> (r: String)
        ensures
            r@ == path_join(self.spec_dir_path(dir), name@),
    {
        join(self.dir_path(dir), name)
    }

    /// The path of the lock directory of the record `name`: beside the
    /// record in `pending`, with `.lock` after its name.
    pub fn lock_path(&self, name: &str) -> (r: String)
        ensures
            r@ == path_join(self.queue_dir@, name@ + ".lock"@),
    {
        let lock_name = String::from_str(name).concat(".lock");
        join(self.queue_dir.as_str(), lock_name.as_str())
    }

    /// The operations that make sure the three directories exist. Each does
    /// nothing where its directory is there, so any number of workers may
    /// run them at once.
    pub fn init(&self) -> (ops: Vec<QueueOp>)
        ensures
            ops@.len() == 3,
            ops@[0]@ == (QueueOpView::EnsureDir { dir: QueueDir::Pending }),
            ops@[1]@ == (QueueOpView::EnsureDir { dir: QueueDir::InProgress }),
            ops@[2]@ == (QueueOpView::EnsureDir { dir: QueueDir::Completed }),
    {
        vec![
            QueueOp::EnsureDir { dir: QueueDir::Pending },
            QueueOp::EnsureDir { dir: QueueDir::InProgress },
            QueueOp::EnsureDir { dir: QueueDir::Completed },
        ]
    }

    /// The operations that remove the three directories with all their
    /// records.
    pub fn clean(&self) -> (ops: Vec<QueueOp>)
        ensures
            ops@.len() == 3,
            ops@[0]@ == (QueueOpView::RemoveDir { dir: QueueDir::Pending }),
            ops@[1]@ == (QueueOpView::RemoveDir { dir: QueueDir::InProgress }),
            ops@[2]@ == (QueueOpView::RemoveDir { dir: QueueDir::Completed }),
    {
        vec![
            QueueOp::RemoveDir { dir: QueueDir::Pending },
            QueueOp::RemoveDir { dir: QueueDir::InProgress },
            QueueOp::RemoveDir { dir: QueueDir::Completed },
        ]
    }

    /// Whether the job's record is among the names of a listing of
    /// `pending`.
    pub fn job_exists(&self, job: &Job, pending: &Vec<String>) -> (r: bool)
        ensures
            r == exists|i: int| 0 <= i < pending@.len() && (#[trigger] pending@[i])@ == job.record_name(),
    {
        let name = job.job_filename();
        let mut i: usize = 0;
        while i < pending.len()
            invariant
                i <= pending@.len(),
                name@ == job.record_name(),
                forall|k: int| 0 <= k < i ==> (#[trigger] pending@[k])@ != job.record_name(),
            decreases pending@.len() - i,
        {
            if pending[i] == name {
                return true;
            }
            i += 1;
        }
        false
    }

    /// The number of job records among the names of a listing of `pending`.
    pub fn pending_count(&self, pending: &Vec<String>) -> (r: usize)
        ensures
            r == job_files_of(names_view(*pending)).len(),
    {
        job_files(pending).len()
    }

    /// Starts a claim: of the first pending job that can be had, or, where
    /// episodes are given priority, of the first in priority order.
    pub fn claim_job(&self, priority: Option<JobPriority>) -> (r: Claim)
        ensures
            r@ == (ClaimView {
                by_episode: priority == Some(JobPriority::Episode),
                phase: ClaimPhaseView::Listing,
            }),
    {
        let by_episode = match priority {
            Some(JobPriority::Episode) => true,
            _ => false,
        };
        Claim { by_episode, phase: ClaimPhase::Listing }
    }

    /// Starts an enqueue of `job`, whose record is to hold `content`.
    pub fn enqueue_job(&self, job: &Job, content: String) -> (r: Enqueue)
        ensures
            r@ == (EnqueueView {
                name: job.record_name(),
                content: content@,
                phase: EnqueuePhaseView::Locking,
            }),
    {
        Enqueue { name: job.job_filename(), content, phase: EnqueuePhase::Locking }
    }
}

/// The extension of job records.
pub open spec fn is_job_extension(ext: Option<Seq<char>>) -> bool {
    ext == Some("job"@)
}

/// Computes `is_job_extension`.
pub fn has_job_extension(ext: &Option<String>) -> (r: bool)
    ensures
        r == is_job_extension(opt_view(*ext)),
{
    match ext {
        Some(ext) => same_text(ext.as_str(), "job"),
        None => false,
    }
}

/// A name of a listing is a job record where its extension is `job`.
pub open spec fn is_job_file(name: Seq<char>) -> bool {
    is_job_extension(path_extension(name))
}

/// The names of a listing as plain values.
pub open spec fn names_view(names: Vec<String>) -> Seq<Seq<char>> {
    names@.map_values(|n: String| n@)
}

/// The job records among the names of a listing, in the order of the
/// listing.
pub open spec fn job_files_of(names: Seq<Seq<char>>) -> Seq<Seq<char>>
    decreases names.len(),
{
    if names.len() == 0 {
        Seq::empty()
    } else if is_job_file(names.last()) {
        job_files_of(names.drop_last()).push(names.last())
    } else {
        job_files_of(names.drop_last())
    }
}

/// Computes `job_files_of`.
pub fn job_files(names: &Vec<String>) -> (r: Vec<String>)
    ensures
        names_view(r) == job_files_of(names_view(*names)),
{
    let mut r: Vec<String> = Vec::new();
    let mut i: usize = 0;
    while i < names.len()
        invariant
            i <= names@.len(),
            names_view(r) == job_files_of(names_view(*names).take(i as int)),
        decreases names@.len() - i,
    {
        let ghost all = names_view(*names);
        assert(all.take(i + 1).drop_last() == all.take(i as int));
        if has_job_extension(&extension(names[i].as_str())) {
            r.push(names[i].clone());
        }
        i += 1;
    }
    assert(names_view(*names).take(names@.len() as int) == names_view(*names));
    r
}

/// Where an enqueue stands.
#[derive(Debug, PartialEq, Eq)]
pub enum EnqueuePhase {
    /// The lock is to be acquired.
    Locking,
    /// The lock is held and the record is to be written.
    Writing,
    /// The record was written, or could not be, and the lock is to be
    /// released.
    Releasing { write_error: Option<String> },
    /// Nothing is left to do.
    Finished { end: EnqueueEnd },
}

/// How an enqueue ended.
#[derive(Debug, PartialEq, Eq)]
pub enum EnqueueEnd {
    /// The record was written.
    Written,
    /// Another writer held the record's lock; nothing was written.
    Skipped,
    /// The record could not be written.
    WriteFailed { reason: String },
}

/// An enqueue under way: the record's name, what it is to hold, and where
/// the enqueue stands.
#[derive(Debug, PartialEq, Eq)]
pub struct Enqueue {
    name: String,
    content: String,
    phase: EnqueuePhase,
}

/// How an enqueue ended, as plain values.
pub enum EnqueueResultView {
    Written,
    Skipped,
    WriteFailed { reason: Seq<char> },
}

/// Where an enqueue stands, as plain values.
pub enum EnqueuePhaseView {
    Locking,
    Writing,
    Releasing { write_error: Option<Seq<char>> },
    Finished { result: EnqueueResultView },
}

/// An enqueue under way, as plain values.
pub struct EnqueueView {
    pub name: Seq<char>,
    pub content: Seq<char>,
    pub phase: EnqueuePhaseView,
}

impl View for EnqueueEnd {
    type V = EnqueueResultView;

    open spec fn view(&self) -> EnqueueResultView {
        match *self {
            EnqueueEnd::Written => EnqueueResultView::Written,
            EnqueueEnd::Skipped => EnqueueResultView::Skipped,
            EnqueueEnd::WriteFailed { reason } => EnqueueResultView::WriteFailed {
                reason: reason@,
            },
        }
    }
}

impl View for Enqueue {
    type V = EnqueueView;

    closed spec fn view(&self) -> EnqueueView {
        EnqueueView {
            name: self.name@,
            content: self.content@,
            phase: match self.phase {
                EnqueuePhase::Locking => EnqueuePhaseView::Locking,
                EnqueuePhase::Writing => EnqueuePhaseView::Writing,
                EnqueuePhase::Releasing { write_error } => EnqueuePhaseView::Releasing {
                    write_error: opt_view(write_error),
                },
                EnqueuePhase::Finished { end } => EnqueuePhaseView::Finished { result: end@ },
            },
        }
    }
}

impl EnqueueView {
    /// The operation that the enqueue asks for: the lock, then the write,
    /// then the release of the lock; none once it has finished.
    pub open spec fn request(self) -> Option<QueueOpView> {
        match self.phase {
            EnqueuePhaseView::Locking => Some(QueueOpView::AcquireLock { name: self.name }),
            EnqueuePhaseView::Writing => Some(
                QueueOpView::WriteRecord { name: self.name, content: self.content },
            ),
            EnqueuePhaseView::Releasing { .. } => Some(
                QueueOpView::ReleaseLock { name: self.name },
            ),
            EnqueuePhaseView::Finished { .. } => None,
        }
    }

    /// Where the enqueue stands after its operation went as `outcome` says.
    ///
    /// Where the lock is not had, another writer is writing this record: the
    /// enqueue ends without writing and without error. Where the write
    /// fails, the lock is still released and the failure reported. How the
    /// release goes changes nothing.
    pub open spec fn advance(self, outcome: OpOutcome) -> EnqueueView {
        let phase = match self.phase {
            EnqueuePhaseView::Locking => if outcome is Done {
                EnqueuePhaseView::Writing
            } else {
                EnqueuePhaseView::Finished { result: EnqueueResultView::Skipped }
            },
            EnqueuePhaseView::Writing => if outcome is Done {
                EnqueuePhaseView::Releasing { write_error: None }
            } else {
                EnqueuePhaseView::Releasing { write_error: Some(outcome.spec_reason()) }
            },
            EnqueuePhaseView::Releasing { write_error } => match write_error {
                None => EnqueuePhaseView::Finished { result: EnqueueResultView::Written },
                Some(reason) => EnqueuePhaseView::Finished {
                    result: EnqueueResultView::WriteFailed { reason },
                },
            },
            EnqueuePhaseView::Finished { result } => EnqueuePhaseView::Finished { result },
        };
        EnqueueView { name: self.name, content: self.content, phase }
    }
}

impl Enqueue {
    /// The operation to perform next, if the enqueue has not finished.
    pub fn request(&self) -> (op: Option<QueueOp>)
        ensures
            opt_op_view(op) == self@.request(),
    {
        match &self.phase {
            EnqueuePhase::Locking => Some(QueueOp::AcquireLock { name: self.name.clone() }),
            EnqueuePhase::Writing => Some(
                QueueOp::WriteRecord { name: self.name.clone(), content: self.content.clone() },
            ),
            EnqueuePhase::Releasing { .. } => Some(
                QueueOp::ReleaseLock { name: self.name.clone() },
            ),
            EnqueuePhase::Finished { .. } => None,
        }
    }

    /// Takes how the requested operation went.
    pub fn advance(self, outcome: OpOutcome) -> (next: Self)
        ensures
            next@ == self@.advance(outcome),
    {
        let Enqueue { name, content, phase } = self;
        let phase = match phase {
            EnqueuePhase::Locking => match outcome {
                OpOutcome::Done => EnqueuePhase::Writing,
                _ => EnqueuePhase::Finished { end: EnqueueEnd::Skipped },
            },
            EnqueuePhase::Writing => match outcome {
                OpOutcome::Done => EnqueuePhase::Releasing { write_error: None },
                other => EnqueuePhase::Releasing { write_error: Some(other.reason()) },
            },
            EnqueuePhase::Releasing { write_error } => match write_error {
                None => EnqueuePhase::Finished { end: EnqueueEnd::Written },
                Some(reason) => EnqueuePhase::Finished { end: EnqueueEnd::WriteFailed { reason } },
            },
            EnqueuePhase::Finished { end } => EnqueuePhase::Finished { end },
        };
        Enqueue { name, content, phase }
    }

    /// How the enqueue ended, once it has: without error where the record
    /// was written or another writer was at it, with the reason where the
    /// write failed.
    pub fn result(self) -> (r: Option<Result<Enqueued, QueueError>>)
        ensures
            match self@.phase {
                EnqueuePhaseView::Finished { result } => match result {
                    EnqueueResultView::Written => r == Some(
                        Ok::<Enqueued, QueueError>(Enqueued::Written),
                    ),
                    EnqueueResultView::Skipped => r == Some(
                        Ok::<Enqueued, QueueError>(Enqueued::Skipped),
                    ),
                    EnqueueResultView::WriteFailed { reason } => r is Some && r->Some_0 is Err
                        && r->Some_0->Err_0 is WriteFailed && r->Some_0->Err_0->WriteFailed_reason@
                        == reason,
                },
                _ => r is None,
            },
    {
        match self.phase {
            EnqueuePhase::Finished { end } => match end {
                EnqueueEnd::Written => Some(Ok(Enqueued::Written)),
                EnqueueEnd::Skipped => Some(Ok(Enqueued::Skipped)),
                EnqueueEnd::WriteFailed { reason } => Some(
                    Err(QueueError::WriteFailed { reason }),
                ),
            },
            _ => None,
        }
    }
}

/// A job that a worker has claimed: the name of its record, which lies in
/// `in_progress`, and the job that the record holds. A claim hands it out.
#[derive(Debug, PartialEq, Eq)]
pub struct ClaimedJob {
    pub job_name: String,
    pub job: Job,
}

impl ClaimedJob {
    /// The name of the claimed record.
    pub open spec fn name(self) -> Seq<char> {
        self.job_name@
    }

    /// The job that the claimed record holds.
    pub open spec fn spec_job(self) -> Job {
        self.job
    }

    /// The job that the claimed record holds.
    pub fn job(&self) -> (r: &Job)
        ensures
            *r == self.spec_job(),
    {
        &self.job
    }

    /// The name of the claimed record.
    pub fn job_name(&self) -> (r: &str)
        ensures
            r@ == self.name(),
    {
        self.job_name.as_str()
    }

    /// The extension of the media file that the job is about.
    pub fn file_extension(&self) -> (r: Option<String>)
        ensures
            opt_view(r) == path_extension(self.spec_job().input_path@),
    {
        extension(self.job.input_path.as_str())
    }

    /// Gives the handle up for the operation that marks the job completed:
    /// its record moves from `in_progress` to `completed`.
    pub fn complete(self) -> (op: QueueOp)
        ensures
            op@ == (QueueOpView::MoveRecord {
                name: self.name(),
                from: QueueDir::InProgress,
                to: QueueDir::Completed,
            }),
    {
        QueueOp::MoveRecord {
            name: self.job_name,
            from: QueueDir::InProgress,
            to: QueueDir::Completed,
        }
    }

    /// Gives the handle up for the operation that returns the job to the
    /// queue: its record moves from `in_progress` back to `pending`, where
    /// any worker may claim it again.
    pub fn return_to_queue(self) -> (op: QueueOp)
        ensures
            op@ == (QueueOpView::MoveRecord {
                name: self.name(),
                from: QueueDir::InProgress,
                to: QueueDir::Pending,
            }),
    {
        QueueOp::MoveRecord {
            name: self.job_name,
            from: QueueDir::InProgress,
            to: QueueDir::Pending,
        }
    }
}

/// What the move of a claimed record came to: nothing to report where it
/// took effect, else the failure with its reason.
pub fn settled(outcome: OpOutcome) -> (r: Result<(), QueueError>)
    ensures
        outcome is Done ==> r is Ok,
        !(outcome is Done) ==> r is Err && r->Err_0 is MoveFailed
            && r->Err_0->MoveFailed_reason@ == outcome.spec_reason(),
{
    match outcome {
        OpOutcome::Done => Ok(()),
        other => Err(QueueError::MoveFailed { reason: other.reason() }),
    }
}

/// How a claim ended.
#[derive(Debug, PartialEq, Eq)]
pub enum ClaimEnd {
    /// The job is this worker's.
    Claimed { claimed: ClaimedJob },
    /// No pending job could be had.
    Empty,
    /// The listing failed, a move failed though the record was there, or
    /// the claimed record could not be read back.
    Failed { error: QueueError },
}

/// Where a claim stands.
#[derive(Debug, PartialEq, Eq)]
pub enum ClaimPhase {
    /// `pending` is to be listed.
    Listing,
    /// Record `next` of `files` is to be read for its metadata; `names` and
    /// `keys` hold the records read so far and the metadata of each.
    Loading { files: Vec<String>, next: usize, names: Vec<String>, keys: Vec<Option<EpisodeMetadata>> },
    /// Record `next` of `order` is to be moved to `in_progress`.
    Claiming { order: Vec<String>, next: usize },
    /// The record was moved and is to be read back.
    ReadingBack { name: String },
    /// Nothing is left to do.
    Finished { end: ClaimEnd },
}

/// A claim under way.
#[derive(Debug, PartialEq, Eq)]
pub struct Claim {
    by_episode: bool,
    phase: ClaimPhase,
}

/// Kinds of failure of a queue operation.
pub enum QueueErrorKind {
    Write,
    List,
    Read,
    Move,
}

impl QueueError {
    /// The kind of the failure.
    pub open spec fn kind(self) -> QueueErrorKind {
        match self {
            QueueError::WriteFailed { .. } => QueueErrorKind::Write,
            QueueError::ListFailed { .. } => QueueErrorKind::List,
            QueueError::ReadFailed { .. } => QueueErrorKind::Read,
            QueueError::MoveFailed { .. } => QueueErrorKind::Move,
        }
    }

    /// The reason that the failed operation gave.
    pub open spec fn spec_reason(self) -> Seq<char> {
        match self {
            QueueError::WriteFailed { reason } => reason@,
            QueueError::ListFailed { reason } => reason@,
            QueueError::ReadFailed { reason } => reason@,
            QueueError::MoveFailed { reason } => reason@,
        }
    }

    /// The reason that the failed operation gave.
    pub fn reason(&self) -> (r: &str)
        ensures
            r@ == self.spec_reason(),
    {
        match self {
            QueueError::WriteFailed { reason } => reason.as_str(),
            QueueError::ListFailed { reason } => reason.as_str(),
            QueueError::ReadFailed { reason } => reason.as_str(),
            QueueError::MoveFailed { reason } => reason.as_str(),
        }
    }
}

/// How a claim ended, as plain values.
pub enum ClaimEndView {
    Claimed { name: Seq<char>, job: Job },
    Empty,
    Failed { kind: QueueErrorKind, reason: Seq<char> },
}

/// Where a claim stands, as plain values.
pub enum ClaimPhaseView {
    Listing,
    Loading {
        files: Seq<Seq<char>>,
        next: int,
        names: Seq<Seq<char>>,
        keys: Seq<Option<EpisodeView>>,
    },
    Claiming { order: Seq<Seq<char>>, next: int },
    ReadingBack { name: Seq<char> },
    Finished { end: ClaimEndView },
}

/// A claim under way, as plain values.
pub struct ClaimView {
    pub by_episode: bool,
    pub phase: ClaimPhaseView,
}

impl View for ClaimEnd {
    type V = ClaimEndView;

    open spec fn view(&self) -> ClaimEndView {
        match *self {
            ClaimEnd::Claimed { claimed } => ClaimEndView::Claimed {
                name: claimed.name(),
                job: claimed.spec_job(),
            },
            ClaimEnd::Empty => ClaimEndView::Empty,
            ClaimEnd::Failed { error } => ClaimEndView::Failed {
                kind: error.kind(),
                reason: error.spec_reason(),
            },
        }
    }
}

impl View for Claim {
    type V = ClaimView;

    closed spec fn view(&self) -> ClaimView {
        ClaimView {
            by_episode: self.by_episode,
            phase: match self.phase {
                ClaimPhase::Listing => ClaimPhaseView::Listing,
                ClaimPhase::Loading { files, next, names, keys } => ClaimPhaseView::Loading {
                    files: names_view(files),
                    next: next as int,
                    names: names_view(names),
                    keys: keys_view(keys),
                },
                ClaimPhase::Claiming { order, next } => ClaimPhaseView::Claiming {
                    order: names_view(order),
                    next: next as int,
                },
                ClaimPhase::ReadingBack { name } => ClaimPhaseView::ReadingBack { name: name@ },
                ClaimPhase::Finished { end } => ClaimPhaseView::Finished { end: end@ },
            },
        }
    }
}

/// `order` holds the names of the loaded records in priority order: first
/// those with episode metadata, by series, season and episode, then the
/// rest, and what is level in the order in which it was listed.
pub open spec fn in_priority_order(
    names: Seq<Seq<char>>,
    keys: Seq<Option<EpisodeView>>,
    order: Seq<Seq<char>>,
) -> bool {
    exists|positions: Seq<usize>|
        {
            &&& #[trigger] is_priority_order(keys, positions)
            &&& order.len() == positions.len()
            &&& forall|i: int| 0 <= i < order.len() ==> order[i] == names[positions[i] as int]
        }
}

impl ClaimView {
    /// A claim always has its next operation at hand: a record to read
    /// while it loads, a record to move while it claims.
    pub open spec fn well_formed(self) -> bool {
        match self.phase {
            ClaimPhaseView::Loading { files, next, names, keys } => 0 <= next < files.len()
                && names.len() == keys.len(),
            ClaimPhaseView::Claiming { order, next } => 0 <= next < order.len(),
            _ => true,
        }
    }

    /// The operation that the claim asks for: the listing of `pending`;
    /// while it loads, the next record of the listing; while it claims, the
    /// move of the next candidate from `pending` to `in_progress`; then the
    /// moved record, read where it now is; none once it has finished.
    pub open spec fn request(self) -> Option<QueueOpView> {
        match self.phase {
            ClaimPhaseView::Listing => Some(QueueOpView::ListPending),
            ClaimPhaseView::Loading { files, next, .. } => Some(
                QueueOpView::ReadRecord { dir: QueueDir::Pending, name: files[next] },
            ),
            ClaimPhaseView::Claiming { order, next } => Some(
                QueueOpView::MoveRecord {
                    name: order[next],
                    from: QueueDir::Pending,
                    to: QueueDir::InProgress,
                },
            ),
            ClaimPhaseView::ReadingBack { name } => Some(
                QueueOpView::ReadRecord { dir: QueueDir::InProgress, name },
            ),
            ClaimPhaseView::Finished { .. } => None,
        }
    }

    /// The claim that tries the candidates `order` from the first on, or
    /// that ends empty where there is none.
    pub open spec fn trying(self, order: Seq<Seq<char>>, next: int) -> ClaimView {
        ClaimView {
            by_episode: self.by_episode,
            phase: if next < order.len() {
                ClaimPhaseView::Claiming { order, next }
            } else {
                ClaimPhaseView::Finished { end: ClaimEndView::Empty }
            },
        }
    }

    /// Whether `after` tries the loaded records in priority order.
    pub open spec fn tries_loaded(
        self,
        names: Seq<Seq<char>>,
        keys: Seq<Option<EpisodeView>>,
        after: ClaimView,
    ) -> bool {
        exists|order: Seq<Seq<char>>|
            #[trigger] in_priority_order(names, keys, order) && after == self.trying(order, 0)
    }

    /// Whether `after` is where the claim stands once the operation that
    /// `self` asked for went as `outcome` says.
    ///
    /// - Listed: the candidates are the job records of the listing. Without
    ///   priority they are tried in the order of the listing; with
    ///   priority each is first read for its metadata.
    /// - Loaded: a record that was read counts with its metadata, one that
    ///   could not be read is left out. After the last, the records that
    ///   count are tried in priority order.
    /// - Moved: where the move took effect the job is this worker's and its
    ///   record is read back from `in_progress`. Where the record was gone,
    ///   another worker has the job: the next candidate is tried, and the
    ///   claim ends empty after the last. Where the move failed for any
    ///   other reason, the claim ends with that failure. A candidate is
    ///   never tried twice.
    /// - Read back: the claim ends with the job that the record holds, or
    ///   with the failure.
    pub open spec fn followed_by(self, outcome: OpOutcome, after: ClaimView) -> bool {
        &&& after.by_episode == self.by_episode
        &&& match self.phase {
            ClaimPhaseView::Listing => match outcome {
                OpOutcome::Names { names } => {
                    let files = job_files_of(names_view(names));
                    if self.by_episode && files.len() > 0 {
                        after.phase == (ClaimPhaseView::Loading {
                            files,
                            next: 0,
                            names: Seq::empty(),
                            keys: Seq::empty(),
                        })
                    } else {
                        after == self.trying(files, 0)
                    }
                },
                _ => after.phase == (ClaimPhaseView::Finished {
                    end: ClaimEndView::Failed {
                        kind: QueueErrorKind::List,
                        reason: outcome.spec_reason(),
                    },
                }),
            },
            ClaimPhaseView::Loading { files, next, names, keys } => {
                let (names2, keys2) = match outcome {
                    OpOutcome::Record { job } => (
                        names.push(files[next]),
                        keys.push(metadata_of(job.input_path@)),
                    ),
                    _ => (names, keys),
                };
                if next + 1 < files.len() {
                    after.phase == (ClaimPhaseView::Loading {
                        files,
                        next: next + 1,
                        names: names2,
                        keys: keys2,
                    })
                } else {
                    self.tries_loaded(names2, keys2, after)
                }
            },
            ClaimPhaseView::Claiming { order, next } => match outcome {
                OpOutcome::Done => after.phase == (ClaimPhaseView::ReadingBack {
                    name: order[next],
                }),
                OpOutcome::Missing => after == self.trying(order, next + 1),
                _ => after.phase == (ClaimPhaseView::Finished {
                    end: ClaimEndView::Failed {
                        kind: QueueErrorKind::Move,
                        reason: outcome.spec_reason(),
                    },
                }),
            },
            ClaimPhaseView::ReadingBack { name } => match outcome {
                OpOutcome::Record { job } => after.phase == (ClaimPhaseView::Finished {
                    end: ClaimEndView::Claimed { name, job },
                }),
                _ => after.phase == (ClaimPhaseView::Finished {
                    end: ClaimEndView::Failed {
                        kind: QueueErrorKind::Read,
                        reason: outcome.spec_reason(),
                    },
                }),
            },
            ClaimPhaseView::Finished { end } => after.phase == self.phase,
        }
    }
}

impl Claim {
    #[verifier::type_invariant]
    spec fn inv(self) -> bool {
        self@.well_formed()
    }

    fn trying(by_episode: bool, order: Vec<String>, next: usize) -> (r: Claim)
        ensures
            r@ == (ClaimView { by_episode, phase: ClaimPhaseView::Listing }).trying(
                names_view(order),
                next as int,
            ),
    {
        if next < order.len() {
            Claim { by_episode, phase: ClaimPhase::Claiming { order, next } }
        } else {
            Claim { by_episode, phase: ClaimPhase::Finished { end: ClaimEnd::Empty } }
        }
    }

    /// The operation to perform next, if the claim has not finished.
    pub fn request(&self) -> (op: Option<QueueOp>)
        ensures
            opt_op_view(op) == self@.request(),
    {
        proof {
            use_type_invariant(self);
        }
        match &self.phase {
            ClaimPhase::Listing => Some(QueueOp::ListPending),
            ClaimPhase::Loading { files, next, .. } => Some(
                QueueOp::ReadRecord { dir: QueueDir::Pending, name: files[*next].clone() },
            ),
            ClaimPhase::Claiming { order, next } => Some(
                QueueOp::MoveRecord {
                    name: order[*next].clone(),
                    from: QueueDir::Pending,
                    to: QueueDir::InProgress,
                },
            ),
            ClaimPhase::ReadingBack { name } => Some(
                QueueOp::ReadRecord { dir: QueueDir::InProgress, name: name.clone() },
            ),
            ClaimPhase::Finished { .. } => None,
        }
    }

    /// Takes how the requested operation went.
    pub fn advance(self, outcome: OpOutcome) -> (next: Self)
        ensures
            self@.followed_by(outcome, next@),
            next@.well_formed(),
    {
        proof {
            use_type_invariant(&self);
        }
        let Claim { by_episode, phase } = self;
        match phase {
            ClaimPhase::Listing => match outcome {
                OpOutcome::Names { names } => {
                    let files = job_files(&names);
                    if by_episode && files.len() > 0 {
                        let next = Claim {
                            by_episode,
                            phase: ClaimPhase::Loading {
                                files,
                                next: 0,
                                names: Vec::new(),
                                keys: Vec::new(),
                            },
                        };
                        assert(next@.phase->Loading_names =~= Seq::empty());
                        assert(next@.phase->Loading_keys =~= Seq::empty());
                        next
                    } else {
                        Claim::trying(by_episode, files, 0)
                    }
                },
                other => Claim {
                    by_episode,
                    phase: ClaimPhase::Finished {
                        end: ClaimEnd::Failed {
                            error: QueueError::ListFailed { reason: other.reason() },
                        },
                    },
                },
            },
            ClaimPhase::Loading { files, next, names, keys } => {
                let mut names = names;
                let mut keys = keys;
                let ghost names0 = names_view(names);
                let ghost keys0 = keys_view(keys);
                match outcome {
                    OpOutcome::Record { job } => {
                        names.push(files[next].clone());
                        keys.push(job.extract_episode_metadata());
                        assert(names_view(names) =~= names0.push(names_view(files)[next as int]));
                        assert(keys_view(keys) =~= keys0.push(metadata_of(job.input_path@)));
                    },
                    _ => {},
                }
                let total = files.len();
                if next + 1 < total {
                    Claim {
                        by_episode,
                        phase: ClaimPhase::Loading { files, next: next + 1, names, keys },
                    }
                } else {
                    let positions = priority_order(&keys);
                    let order = arrange(&names, &positions);
                    assert(in_priority_order(
                        names_view(names),
                        keys_view(keys),
                        names_view(order),
                    ));
                    Claim::trying(by_episode, order, 0)
                }
            },
            ClaimPhase::Claiming { order, next } => match outcome {
                OpOutcome::Done => {
                    let name = order[next].clone();
                    Claim { by_episode, phase: ClaimPhase::ReadingBack { name } }
                },
                OpOutcome::Missing => {
                    let total = order.len();
                    assert(next < total);
                    Claim::trying(by_episode, order, next + 1)
                },
                other => Claim {
                    by_episode,
                    phase: ClaimPhase::Finished {
                        end: ClaimEnd::Failed {
                            error: QueueError::MoveFailed { reason: other.reason() },
                        },
                    },
                },
            },
            ClaimPhase::ReadingBack { name } => match outcome {
                OpOutcome::Record { job } => Claim {
                    by_episode,
                    phase: ClaimPhase::Finished {
                        end: ClaimEnd::Claimed { claimed: ClaimedJob { job_name: name, job } },
                    },
                },
                other => Claim {
                    by_episode,
                    phase: ClaimPhase::Finished {
                        end: ClaimEnd::Failed {
                            error: QueueError::ReadFailed { reason: other.reason() },
                        },
                    },
                },
            },
            ClaimPhase::Finished { end } => Claim { by_episode, phase: ClaimPhase::Finished { end } },
        }
    }

    /// How the claim ended, once it has: with the claimed job, with nothing
    /// where no pending job could be had, or with the failure.
    pub fn result(self) -> (r: Option<Result<Option<ClaimedJob>, QueueError>>)
        ensures
            match self@.phase {
                ClaimPhaseView::Finished { end } => match end {
                    ClaimEndView::Claimed { name, job } => r is Some && r->Some_0 is Ok
                        && r->Some_0->Ok_0 is Some && r->Some_0->Ok_0->Some_0.name() == name
                        && r->Some_0->Ok_0->Some_0.spec_job() == job,
                    ClaimEndView::Empty => r is Some && r->Some_0 is Ok && r->Some_0->Ok_0 is None,
                    ClaimEndView::Failed { kind, reason } => r is Some && r->Some_0 is Err
                        && r->Some_0->Err_0.kind() == kind && r->Some_0->Err_0.spec_reason()
                        == reason,
                },
                _ => r is None,
            },
    {
        match self.phase {
            ClaimPhase::Finished { end } => match end {
                ClaimEnd::Claimed { claimed } => Some(Ok(Some(claimed))),
                ClaimEnd::Empty => Some(Ok(None)),
                ClaimEnd::Failed { error } => Some(Err(error)),
            },
            _ => None,
        }
    }
}

/// The names at the given positions, in the order of the positions.
fn arrange(names: &Vec<String>, positions: &Vec<usize>) -> (order: Vec<String>)
    requires
        forall|i: int| 0 <= i < positions@.len() ==> (#[trigger] positions@[i]) < names@.len(),
    ensures
        order@.len() == positions@.len(),
        forall|i: int|
            0 <= i < order@.len() ==> (#[trigger] names_view(order)[i]) == names_view(
                *names,
            )[positions@[i] as int],
{
    let mut order: Vec<String> = Vec::new();
    let mut i: usize = 0;
    while i < positions.len()
        invariant
            i <= positions@.len(),
            order@.len() == i,
            forall|k: int| 0 <= k < positions@.len() ==> (#[trigger] positions@[k]) < names@.len(),
            forall|k: int|
                0 <= k < i ==> (#[trigger] names_view(order)[k]) == names_view(
                    *names,
                )[positions@[k] as int],
        decreases positions@.len() - i,
    {
        let ghost before = names_view(order);
        order.push(names[positions[i]].clone());
        assert(names_view(order) == before.push(names@[positions@[i as int] as int]@));
        i += 1;
    }
    order
}

} // verus!
