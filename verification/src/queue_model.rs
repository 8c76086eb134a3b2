//! What the queue's operations do to the shared directories, and what
//! follows for the protocol.
//!
//! The model is the filesystem as the protocol needs it: each directory
//! holds records by name, a lock directory exists or does not, and each
//! operation takes effect at once or not at all. Creating a lock fails
//! where the lock exists; moving a record finds it missing where the record
//! is not in the directory it is moved from. Whatever several workers do at
//! the same time therefore comes to some sequence of operations, and the
//! laws below hold of every sequence: of single operations, of enqueues
//! racing, of claims racing, with or without priority for episodes, and of
//! workers that claim and complete job after job.
//!
//! An operation that fails for any other reason, a directory that cannot be
//! written, leaves the directories as they were; the machines of `queue`
//! report such a failure and do not take it for contention.

use vstd::prelude::*;
use crate::job::Job;
use crate::priority::is_priority_order;
use crate::queue::{
    in_priority_order, job_files_of, names_view, ClaimEndView, ClaimPhaseView, ClaimView,
    EnqueuePhaseView, EnqueueResultView, EnqueueView, OpOutcome, QueueDir, QueueErrorKind,
    QueueOpView,
};

verus! {

/// The shared directories: the records of each by name, and the names whose
/// lock directory exists.
pub struct QueueModel {
    pub pending: Map<Seq<char>, Seq<char>>,
    pub in_progress: Map<Seq<char>, Seq<char>>,
    pub completed: Map<Seq<char>, Seq<char>>,
    pub locks: Set<Seq<char>>,
}

impl QueueModel {
    /// The records of a directory.
    pub open spec fn records(self, dir: QueueDir) -> Map<Seq<char>, Seq<char>> {
        match dir {
            QueueDir::Pending => self.pending,
            QueueDir::InProgress => self.in_progress,
            QueueDir::Completed => self.completed,
        }
    }

    /// The model with the records of one directory replaced.
    pub open spec fn with_records(self, dir: QueueDir, records: Map<Seq<char>, Seq<char>>) -> Self {
        match dir {
            QueueDir::Pending => QueueModel { pending: records, ..self },
            QueueDir::InProgress => QueueModel { in_progress: records, ..self },
            QueueDir::Completed => QueueModel { completed: records, ..self },
        }
    }

    /// In how many directories a record of this name lies.
    pub open spec fn homes(self, name: Seq<char>) -> nat {
        let p: nat = if self.pending.contains_key(name) {
            1
        } else {
            0
        };
        let i: nat = if self.in_progress.contains_key(name) {
            1
        } else {
            0
        };
        let c: nat = if self.completed.contains_key(name) {
            1
        } else {
            0
        };
        p + i + c
    }

    /// The directories after an operation, and whether the operation took
    /// effect.
    pub open spec fn apply(self, op: QueueOpView) -> (QueueModel, bool) {
        match op {
            QueueOpView::EnsureDir { dir } => (self, true),
            QueueOpView::RemoveDir { dir } => (
                if dir == QueueDir::Pending {
                    QueueModel { pending: Map::empty(), locks: Set::empty(), ..self }
                } else {
                    self.with_records(dir, Map::empty())
                },
                true,
            ),
            QueueOpView::AcquireLock { name } => if self.locks.contains(name) {
                (self, false)
            } else {
                (QueueModel { locks: self.locks.insert(name), ..self }, true)
            },
            QueueOpView::WriteRecord { name, content } => (
                QueueModel { pending: self.pending.insert(name, content), ..self },
                true,
            ),
            QueueOpView::ReleaseLock { name } => (
                QueueModel { locks: self.locks.remove(name), ..self },
                self.locks.contains(name),
            ),
            QueueOpView::ListPending => (self, true),
            QueueOpView::ReadRecord { dir, name } => (self, self.records(dir).contains_key(name)),
            QueueOpView::MoveRecord { name, from, to } => if self.records(from).contains_key(
                name,
            ) {
                let content = self.records(from)[name];
                let taken = self.with_records(from, self.records(from).remove(name));
                (taken.with_records(to, taken.records(to).insert(name, content)), true)
            } else {
                (self, false)
            },
        }
    }

    /// The directories after a sequence of operations.
    pub open spec fn run(self, ops: Seq<QueueOpView>) -> QueueModel
        decreases ops.len(),
    {
        if ops.len() == 0 {
            self
        } else {
            self.run(ops.drop_last()).apply(ops.last()).0
        }
    }
}

/// The operation by which a worker claims the record `name`.
pub open spec fn claim_of(name: Seq<char>) -> QueueOpView {
    QueueOpView::MoveRecord { name, from: QueueDir::Pending, to: QueueDir::InProgress }
}

/// The operation by which a worker returns the record `name` to the queue.
pub open spec fn return_of(name: Seq<char>) -> QueueOpView {
    QueueOpView::MoveRecord { name, from: QueueDir::InProgress, to: QueueDir::Pending }
}

/// The operation by which a worker marks the record `name` completed.
pub open spec fn completion_of(name: Seq<char>) -> QueueOpView {
    QueueOpView::MoveRecord { name, from: QueueDir::InProgress, to: QueueDir::Completed }
}

/// The operation neither puts a record `name` into `pending` nor takes one
/// out of it.
pub open spec fn leaves_pending(op: QueueOpView, name: Seq<char>) -> bool {
    match op {
        QueueOpView::WriteRecord { name: n, .. } => n != name,
        QueueOpView::RemoveDir { dir } => dir != QueueDir::Pending,
        QueueOpView::MoveRecord { name: n, from, to } => n != name || (from != QueueDir::Pending
            && to != QueueDir::Pending),
        _ => true,
    }
}

/// How many of the claims of `name` among `ops` took effect.
pub open spec fn claims_won(m: QueueModel, ops: Seq<QueueOpView>, name: Seq<char>) -> nat
    decreases ops.len(),
{
    if ops.len() == 0 {
        0
    } else {
        let won: nat = if ops.last() == claim_of(name) && m.run(ops.drop_last()).apply(
            ops.last(),
        ).1 {
            1
        } else {
            0
        };
        claims_won(m, ops.drop_last(), name) + won
    }
}

/// Whether a claim of `name` is among `ops`.
pub open spec fn claim_tried(ops: Seq<QueueOpView>, name: Seq<char>) -> bool {
    exists|i: int| 0 <= i < ops.len() && #[trigger] ops[i] == claim_of(name)
}

/// At most one claimant. However many workers try to claim a pending
/// record, and whatever else happens to other records meanwhile, exactly
/// one claim takes effect; a record that is not pending is claimed by none.
pub proof fn lemma_single_claimant(m: QueueModel, ops: Seq<QueueOpView>, name: Seq<char>)
    requires
        forall|i: int|
            0 <= i < ops.len() ==> #[trigger] ops[i] == claim_of(name) || leaves_pending(
                ops[i],
                name,
            ),
    ensures
        claims_won(m, ops, name) <= 1,
        claims_won(m, ops, name) == 1 <==> m.pending.contains_key(name) && claim_tried(ops, name),
        m.run(ops).pending.contains_key(name) <==> m.pending.contains_key(name) && !claim_tried(
            ops,
            name,
        ),
    decreases ops.len(),
{
    if ops.len() > 0 {
        let front = ops.drop_last();
        lemma_single_claimant(m, front, name);
        if claim_tried(front, name) {
            let i = choose|i: int| 0 <= i < front.len() && #[trigger] front[i] == claim_of(name);
            assert(ops[i] == claim_of(name));
        }
        if ops.last() == claim_of(name) {
            assert(ops[ops.len() - 1] == claim_of(name));
        }
        if claim_tried(ops, name) && !claim_tried(front, name) {
            let i = choose|i: int| 0 <= i < ops.len() && #[trigger] ops[i] == claim_of(name);
            if i < front.len() {
                assert(front[i] == claim_of(name));
            }
        }
    }
}

/// A failure is not taken for contention. Where the move of a candidate
/// fails though the record was not found missing, the claim tries no
/// further candidate and ends with the failure and its reason; only a
/// record that is gone sends the claim on to its next candidate.
pub proof fn lemma_move_failure_is_surfaced(claim: ClaimView, outcome: OpOutcome, after: ClaimView)
    requires
        claim.well_formed(),
        claim.phase is Claiming,
        claim.followed_by(outcome, after),
    ensures
        !(outcome is Done) && !(outcome is Missing) ==> after.phase == (ClaimPhaseView::Finished {
            end: ClaimEndView::Failed {
                kind: QueueErrorKind::Move,
                reason: outcome.spec_reason(),
            },
        }),
        outcome is Missing ==> after == claim.trying(
            claim.phase->Claiming_order,
            claim.phase->Claiming_next + 1,
        ),
        after.phase is Finished && after.phase->Finished_end is Empty ==> outcome is Missing,
{
}

/// A claim gets a job only by its own move. Where a claim goes on to read
/// a record back, the operation it had asked for was the claim of that
/// record, the record was pending, and the move has put it into
/// `in_progress`; and a claim ends with a job only after it has read that
/// job's record back. With `lemma_single_claimant` this is why no two
/// claims end with the same job.
pub proof fn lemma_claim_needs_move(
    m: QueueModel,
    claim: ClaimView,
    outcome: OpOutcome,
    after: ClaimView,
)
    requires
        claim.well_formed(),
        claim.request() is Some,
        claim.followed_by(outcome, after),
        outcome is Done <==> m.apply(claim.request()->Some_0).1,
    ensures
        after.phase matches ClaimPhaseView::ReadingBack { name } ==> {
            &&& claim.request() == Some(claim_of(name))
            &&& m.pending.contains_key(name)
            &&& m.apply(claim_of(name)).0.in_progress.contains_key(name)
            &&& !m.apply(claim_of(name)).0.pending.contains_key(name)
            &&& m.apply(claim_of(name)).0.in_progress[name] == m.pending[name]
        },
        after.phase matches ClaimPhaseView::Finished { end: ClaimEndView::Claimed { name, job } }
            ==> claim.phase == (ClaimPhaseView::ReadingBack { name }),
{
}

/// What a driver reports to a claim for the operation it asked for, where
/// the directories are as `m` says: a move has taken effect, or the record
/// was gone; and a record that is read back holds the job that `jobs`
/// gives for its name.
pub open spec fn claim_outcome(
    m: QueueModel,
    claim: ClaimView,
    jobs: spec_fn(Seq<char>) -> Job,
) -> OpOutcome {
    match claim.phase {
        ClaimPhaseView::Claiming { order, next } => if m.apply(claim_of(order[next])).1 {
            OpOutcome::Done
        } else {
            OpOutcome::Missing
        },
        ClaimPhaseView::ReadingBack { name } => OpOutcome::Record { job: jobs(name) },
        _ => OpOutcome::Missing,
    }
}

/// One step of a claim that has its candidates, against the shared
/// directories: it tries to move its next candidate, or reads back the
/// record that it has moved.
pub open spec fn claim_step(
    m: QueueModel,
    claim: ClaimView,
    jobs: spec_fn(Seq<char>) -> Job,
) -> (QueueModel, ClaimView) {
    match claim.phase {
        ClaimPhaseView::Claiming { order, next } => {
            let (after, took_effect) = m.apply(claim_of(order[next]));
            (
                after,
                if took_effect {
                    ClaimView {
                        by_episode: claim.by_episode,
                        phase: ClaimPhaseView::ReadingBack { name: order[next] },
                    }
                } else {
                    claim.trying(order, next + 1)
                },
            )
        },
        ClaimPhaseView::ReadingBack { name } => (
            m,
            ClaimView {
                by_episode: claim.by_episode,
                phase: ClaimPhaseView::Finished {
                    end: ClaimEndView::Claimed { name, job: jobs(name) },
                },
            },
        ),
        _ => (m, claim),
    }
}

/// `claim_step` is what a claim does: the claim that it gives is the one
/// that follows the outcome which the directories give.
pub proof fn lemma_claim_step_follows(
    m: QueueModel,
    claim: ClaimView,
    jobs: spec_fn(Seq<char>) -> Job,
)
    requires
        claim.well_formed(),
        claim.phase is Claiming || claim.phase is ReadingBack,
    ensures
        claim.followed_by(claim_outcome(m, claim, jobs), claim_step(m, claim, jobs).1),
        claim_step(m, claim, jobs).1.well_formed(),
        claim.request() is Some,
        claim_step(m, claim, jobs).0 == if claim.phase is Claiming {
            m.apply(claim.request()->Some_0).0
        } else {
            m
        },
{
}

/// The claim has the job of the record `name`: it has moved the record and
/// is about to read it back, or it has ended with the job.
pub open spec fn has_claimed(claim: ClaimView, name: Seq<char>) -> bool {
    match claim.phase {
        ClaimPhaseView::ReadingBack { name: n } => n == name,
        ClaimPhaseView::Finished { end: ClaimEndView::Claimed { name: n, .. } } => n == name,
        _ => false,
    }
}

/// One of the claims has the job of the record `name`.
pub open spec fn claimed_by_one(claims: Seq<ClaimView>, name: Seq<char>) -> bool {
    exists|i: int| 0 <= i < claims.len() && has_claimed(#[trigger] claims[i], name)
}

/// One turn in a race of claims: the claim that takes a step, what the
/// driver reports to it, and where the claim stands afterwards.
pub struct ClaimTurn {
    pub worker: int,
    pub outcome: OpOutcome,
    pub after: ClaimView,
}

/// The outcome is what a driver reports for the operation that the claim
/// asks for, where the directories are as `m` says: a listing names the
/// pending records, all of them and nothing else; a pending record is
/// read and one that is gone is not; a move takes effect or finds the
/// record missing; and the record that was moved is read back.
pub open spec fn answers(m: QueueModel, claim: ClaimView, outcome: OpOutcome) -> bool {
    match claim.phase {
        ClaimPhaseView::Listing => outcome matches OpOutcome::Names { names } && forall|
            name: Seq<char>,
        |
            #![trigger job_files_of(names_view(names)).contains(name)]
            job_files_of(names_view(names)).contains(name) <==> m.pending.contains_key(name),
        ClaimPhaseView::Loading { files, next, .. } => outcome is Record
            <==> m.pending.contains_key(files[next]),
        ClaimPhaseView::Claiming { order, next } => if m.apply(claim_of(order[next])).1 {
            outcome is Done
        } else {
            outcome is Missing
        },
        ClaimPhaseView::ReadingBack { .. } => outcome is Record,
        ClaimPhaseView::Finished { .. } => true,
    }
}

/// The directories after the operation that the claim asks for.
pub open spec fn claim_effect(m: QueueModel, claim: ClaimView) -> QueueModel {
    match claim.request() {
        Some(op) => m.apply(op).0,
        None => m,
    }
}

/// The directories and the claims after the turns of a race.
pub open spec fn claims_after(m: QueueModel, claims: Seq<ClaimView>, turns: Seq<ClaimTurn>) -> (
    QueueModel,
    Seq<ClaimView>,
)
    decreases turns.len(),
{
    if turns.len() == 0 {
        (m, claims)
    } else {
        let (m1, c1) = claims_after(m, claims, turns.drop_last());
        let turn = turns.last();
        if 0 <= turn.worker < c1.len() {
            (claim_effect(m1, c1[turn.worker]), c1.update(turn.worker, turn.after))
        } else {
            (m1, c1)
        }
    }
}

/// The turns are those of a race of claims: at each turn the outcome is
/// what the directories give, and the claim stands afterwards where
/// `Claim::advance` puts it for that outcome.
pub open spec fn is_claim_race(m: QueueModel, claims: Seq<ClaimView>, turns: Seq<ClaimTurn>) -> bool
    decreases turns.len(),
{
    if turns.len() == 0 {
        true
    } else {
        let (m1, c1) = claims_after(m, claims, turns.drop_last());
        let turn = turns.last();
        &&& is_claim_race(m, claims, turns.drop_last())
        &&& 0 <= turn.worker < c1.len() ==> {
            &&& answers(m1, c1[turn.worker], turn.outcome)
            &&& c1[turn.worker].followed_by(turn.outcome, turn.after)
            &&& turn.after.well_formed()
        }
    }
}

/// What holds of racing claims throughout their race.
spec fn claim_race_invariant(m: QueueModel, now: QueueModel, claims: Seq<ClaimView>) -> bool {
    &&& forall|k: int| 0 <= k < claims.len() ==> (#[trigger] claims[k]).well_formed()
    &&& forall|k: int, name: Seq<char>|
        0 <= k < claims.len() && #[trigger] has_claimed(claims[k], name) ==> m.pending.contains_key(
            name,
        ) && !now.pending.contains_key(name) && now.in_progress.contains_key(name)
    &&& forall|i: int, j: int, name: Seq<char>|
        0 <= i < claims.len() && 0 <= j < claims.len() && i != j && #[trigger] has_claimed(
            claims[i],
            name,
        ) ==> !#[trigger] has_claimed(claims[j], name)
    &&& forall|name: Seq<char>| #[trigger]
        now.pending.contains_key(name) ==> m.pending.contains_key(name)
    &&& forall|name: Seq<char>|
        m.pending.contains_key(name) && !now.pending.contains_key(name)
            ==> #[trigger] claimed_by_one(claims, name)
}

/// The claims have not begun to move anything.
pub open spec fn none_has_claimed(claims: Seq<ClaimView>) -> bool {
    &&& forall|k: int| 0 <= k < claims.len() ==> (#[trigger] claims[k]).well_formed()
    &&& forall|k: int, name: Seq<char>|
        0 <= k < claims.len() ==> !#[trigger] has_claimed(claims[k], name)
}

proof fn lemma_claim_turn(
    m: QueueModel,
    m1: QueueModel,
    c1: Seq<ClaimView>,
    turn: ClaimTurn,
)
    requires
        claim_race_invariant(m, m1, c1),
        0 <= turn.worker < c1.len(),
        answers(m1, c1[turn.worker], turn.outcome),
        c1[turn.worker].followed_by(turn.outcome, turn.after),
        turn.after.well_formed(),
    ensures
        claim_race_invariant(m, claim_effect(m1, c1[turn.worker]), c1.update(
            turn.worker,
            turn.after,
        )),
{
    let k = turn.worker;
    let before = c1[k];
    let m2 = claim_effect(m1, before);
    let c2 = c1.update(k, turn.after);
    assert(before.well_formed());
    // Only the move of a candidate changes the directories.
    if !(before.phase is Claiming) {
        assert(m2 == m1);
    }
    // The claim that steps has a job afterwards only if it had it before
    // or has moved the record just now.
    assert forall|name: Seq<char>| #[trigger] has_claimed(turn.after, name) implies has_claimed(
        before,
        name,
    ) || (before.phase is Claiming && m1.pending.contains_key(name) && m2.in_progress.contains_key(
        name,
    ) && !m2.pending.contains_key(name)) by {
        if before.phase is Loading {
            let files = before.phase->Loading_files;
            let next = before.phase->Loading_next;
            if next + 1 >= files.len() {
                lemma_loaded_claim_has_nothing(before, turn.outcome, turn.after);
            }
        }
    }
    assert forall|name: Seq<char>| #[trigger] has_claimed(before, name) implies has_claimed(
        turn.after,
        name,
    ) by {}
    assert forall|i: int, name: Seq<char>|
        0 <= i < c2.len() && #[trigger] has_claimed(c2[i], name) implies m.pending.contains_key(
        name,
    ) && !m2.pending.contains_key(name) && m2.in_progress.contains_key(name) by {
        if i != k {
            assert(has_claimed(c1[i], name));
        } else if has_claimed(before, name) {
            assert(!m1.pending.contains_key(name));
        } else {
            assert(m1.pending.contains_key(name));
        }
    }
    assert forall|i: int, j: int, name: Seq<char>|
        0 <= i < c2.len() && 0 <= j < c2.len() && i != j && #[trigger] has_claimed(
            c2[i],
            name,
        ) implies !#[trigger] has_claimed(c2[j], name) by {
        if has_claimed(c2[j], name) {
            if i != k {
                assert(has_claimed(c1[i], name));
                assert(!m1.pending.contains_key(name));
            }
            if j != k {
                assert(has_claimed(c1[j], name));
                assert(!m1.pending.contains_key(name));
            }
            if i == k {
                assert(has_claimed(before, name) || m1.pending.contains_key(name));
            }
            if j == k {
                assert(has_claimed(before, name) || m1.pending.contains_key(name));
            }
        }
    }
    assert forall|name: Seq<char>|
        m.pending.contains_key(name) && !m2.pending.contains_key(
            name,
        ) implies #[trigger] claimed_by_one(c2, name) by {
        if m1.pending.contains_key(name) {
            assert(before.phase is Claiming);
            assert(has_claimed(c2[k], name));
        } else {
            assert(claimed_by_one(c1, name));
            let i = choose|i: int| 0 <= i < c1.len() && has_claimed(#[trigger] c1[i], name);
            assert(has_claimed(c2[i], name));
        }
    }
}

/// A claim that has loaded its last record has no job yet: it goes on to
/// try what it has loaded, or ends empty.
proof fn lemma_loaded_claim_has_nothing(claim: ClaimView, outcome: OpOutcome, after: ClaimView)
    requires
        claim.well_formed(),
        claim.phase is Loading,
        claim.phase->Loading_next + 1 >= claim.phase->Loading_files.len(),
        claim.followed_by(outcome, after),
    ensures
        after.phase is Claiming || after.phase == (ClaimPhaseView::Finished {
            end: ClaimEndView::Empty,
        }),
{
}

proof fn lemma_claim_race_invariant(m: QueueModel, claims: Seq<ClaimView>, turns: Seq<ClaimTurn>)
    requires
        none_has_claimed(claims),
        is_claim_race(m, claims, turns),
        forall|name: Seq<char>| #[trigger]
            m.pending.contains_key(name) ==> !m.in_progress.contains_key(name),
    ensures
        claims_after(m, claims, turns).1.len() == claims.len(),
        claim_race_invariant(m, claims_after(m, claims, turns).0, claims_after(m, claims, turns).1),
    decreases turns.len(),
{
    if turns.len() > 0 {
        lemma_claim_race_invariant(m, claims, turns.drop_last());
        let (m1, c1) = claims_after(m, claims, turns.drop_last());
        let turn = turns.last();
        if 0 <= turn.worker < c1.len() {
            lemma_claim_turn(m, m1, c1, turn);
        }
    }
}

/// At most one claimant. However many workers claim at the same time, with
/// or without priority for episodes, whatever each of them finds listed
/// and in whatever order they take their steps: no two of them get the
/// same job, and a job that one of them gets was pending, is pending no
/// more and lies in `in_progress`.
pub proof fn lemma_claims_never_collide(
    m: QueueModel,
    claims: Seq<ClaimView>,
    turns: Seq<ClaimTurn>,
    i: int,
    j: int,
    name: Seq<char>,
)
    requires
        none_has_claimed(claims),
        is_claim_race(m, claims, turns),
        forall|name: Seq<char>| #[trigger]
            m.pending.contains_key(name) ==> !m.in_progress.contains_key(name),
        0 <= i < claims.len(),
        0 <= j < claims.len(),
        i != j,
    ensures
        ({
            let (end, racing) = claims_after(m, claims, turns);
            &&& racing.len() == claims.len()
            &&& !(has_claimed(racing[i], name) && has_claimed(racing[j], name))
            &&& has_claimed(racing[i], name) ==> m.pending.contains_key(name)
                && !end.pending.contains_key(name) && end.in_progress.contains_key(name)
        }),
{
    lemma_claim_race_invariant(m, claims, turns);
}

/// Claims that have not begun: each is about to list `pending`, some with
/// priority for episodes and some without.
pub open spec fn fresh_claims(by_episode: Seq<bool>) -> Seq<ClaimView> {
    Seq::new(
        by_episode.len(),
        |k: int| ClaimView { by_episode: by_episode[k], phase: ClaimPhaseView::Listing },
    )
}

/// Every text of the sequence is `name`.
spec fn all_are(names: Seq<Seq<char>>, name: Seq<char>) -> bool {
    forall|q: int| 0 <= q < names.len() ==> #[trigger] names[q] == name
}

/// How far a claim has come where `name` is the one record that was
/// pending: all its candidates are that record; once it has found the
/// record gone, the record is pending no more; and it has not failed.
spec fn lone_claim_progress(now: QueueModel, claim: ClaimView, name: Seq<char>) -> bool {
    match claim.phase {
        ClaimPhaseView::Listing => true,
        ClaimPhaseView::Loading { files, next, names, keys } => {
            &&& all_are(files, name)
            &&& all_are(names, name)
            &&& names.len() == 0 && next > 0 ==> !now.pending.contains_key(name)
        },
        ClaimPhaseView::Claiming { order, next } => all_are(order, name) && (next > 0
            ==> !now.pending.contains_key(name)),
        ClaimPhaseView::ReadingBack { name: n } => n == name,
        ClaimPhaseView::Finished { end: ClaimEndView::Claimed { name: n, .. } } => n == name,
        ClaimPhaseView::Finished { end: ClaimEndView::Empty } => !now.pending.contains_key(name),
        ClaimPhaseView::Finished { end: ClaimEndView::Failed { .. } } => false,
    }
}

proof fn lemma_lone_claim_turn(
    m: QueueModel,
    m1: QueueModel,
    c1: Seq<ClaimView>,
    turn: ClaimTurn,
    name: Seq<char>,
)
    requires
        forall|n: Seq<char>| #[trigger] m.pending.contains_key(n) ==> n == name,
        claim_race_invariant(m, m1, c1),
        forall|k: int| 0 <= k < c1.len() ==> lone_claim_progress(m1, #[trigger] c1[k], name),
        0 <= turn.worker < c1.len(),
        answers(m1, c1[turn.worker], turn.outcome),
        c1[turn.worker].followed_by(turn.outcome, turn.after),
        turn.after.well_formed(),
    ensures
        forall|k: int|
            0 <= k < c1.len() ==> lone_claim_progress(
                claim_effect(m1, c1[turn.worker]),
                #[trigger] c1.update(turn.worker, turn.after)[k],
                name,
            ),
{
    let k = turn.worker;
    let before = c1[k];
    let m2 = claim_effect(m1, before);
    let c2 = c1.update(k, turn.after);
    assert(before.well_formed());
    assert(lone_claim_progress(m1, before, name));
    // What is pending no more stays so.
    assert(!m1.pending.contains_key(name) ==> !m2.pending.contains_key(name));
    assert(lone_claim_progress(m2, turn.after, name)) by {
        match before.phase {
            ClaimPhaseView::Listing => {
                let names = turn.outcome->Names_names;
                let files = job_files_of(names_view(names));
                assert(all_are(files, name)) by {
                    assert forall|q: int| 0 <= q < files.len() implies #[trigger] files[q]
                        == name by {
                        assert(files.contains(files[q]));
                        assert(m1.pending.contains_key(files[q]));
                    }
                }
                if files.len() == 0 {
                    if m1.pending.contains_key(name) {
                        assert(files.contains(name));
                    }
                }
                assert(Seq::<Seq<char>>::empty().len() == 0);
            },
            ClaimPhaseView::Loading { files, next, names, keys } => {
                let names2 = match turn.outcome {
                    OpOutcome::Record { job } => names.push(files[next]),
                    _ => names,
                };
                let keys2 = match turn.outcome {
                    OpOutcome::Record { job } => keys.push(
                        crate::episode::metadata_of(job.input_path@),
                    ),
                    _ => keys,
                };
                assert(files[next] == name);
                assert(all_are(names2, name)) by {
                    assert forall|q: int| 0 <= q < names2.len() implies #[trigger] names2[q]
                        == name by {
                        if q < names.len() {
                            assert(names[q] == name);
                        }
                    }
                }
                assert(names2.len() == 0 ==> !m2.pending.contains_key(name));
                if next + 1 >= files.len() {
                    assert(before.tries_loaded(names2, keys2, turn.after));
                    let order = choose|order: Seq<Seq<char>>|
                        #[trigger] in_priority_order(names2, keys2, order) && turn.after
                            == before.trying(order, 0);
                    let positions = choose|positions: Seq<usize>|
                        {
                            &&& #[trigger] is_priority_order(keys2, positions)
                            &&& order.len() == positions.len()
                            &&& forall|i: int|
                                0 <= i < order.len() ==> order[i] == names2[positions[i] as int]
                        };
                    assert(keys2.len() == names2.len());
                    assert(all_are(order, name)) by {
                        assert forall|q: int| 0 <= q < order.len() implies #[trigger] order[q]
                            == name by {
                            assert(positions[q] < keys2.len());
                            assert(names2[positions[q] as int] == name);
                        }
                    }
                    assert(order.len() == names2.len());
                }
            },
            ClaimPhaseView::Claiming { order, next } => {
                assert(order[next] == name);
            },
            _ => {},
        }
    }
    assert forall|i: int| 0 <= i < c1.len() implies lone_claim_progress(
        m2,
        #[trigger] c2[i],
        name,
    ) by {
        if i != k {
            assert(lone_claim_progress(m1, c1[i], name));
        }
    }
}

proof fn lemma_lone_claim_race(
    m: QueueModel,
    by_episode: Seq<bool>,
    turns: Seq<ClaimTurn>,
    name: Seq<char>,
)
    requires
        forall|n: Seq<char>| #[trigger] m.pending.contains_key(n) ==> n == name,
        !m.in_progress.contains_key(name),
        is_claim_race(m, fresh_claims(by_episode), turns),
    ensures
        claims_after(m, fresh_claims(by_episode), turns).1.len() == by_episode.len(),
        claim_race_invariant(
            m,
            claims_after(m, fresh_claims(by_episode), turns).0,
            claims_after(m, fresh_claims(by_episode), turns).1,
        ),
        forall|k: int|
            0 <= k < by_episode.len() ==> lone_claim_progress(
                claims_after(m, fresh_claims(by_episode), turns).0,
                #[trigger] claims_after(m, fresh_claims(by_episode), turns).1[k],
                name,
            ),
    decreases turns.len(),
{
    let claims = fresh_claims(by_episode);
    lemma_claim_race_invariant(m, claims, turns);
    if turns.len() > 0 {
        lemma_lone_claim_race(m, by_episode, turns.drop_last(), name);
        let (m1, c1) = claims_after(m, claims, turns.drop_last());
        let turn = turns.last();
        if 0 <= turn.worker < c1.len() {
            lemma_lone_claim_turn(m, m1, c1, turn, name);
        }
    }
}

/// Exactly one claimant. Where one record is pending and any number of
/// workers claim at the same time, each with or without priority for
/// episodes and in whatever order they take their steps, then once they
/// have all ended exactly one of them has the job, each of the others has
/// found nothing to claim, none has ended with an error, and the record
/// lies in `in_progress` and no more in `pending`.
pub proof fn lemma_exactly_one_claimant(
    m: QueueModel,
    by_episode: Seq<bool>,
    name: Seq<char>,
    turns: Seq<ClaimTurn>,
)
    requires
        m.pending.contains_key(name),
        forall|n: Seq<char>| #[trigger] m.pending.contains_key(n) ==> n == name,
        !m.in_progress.contains_key(name),
        by_episode.len() >= 1,
        is_claim_race(m, fresh_claims(by_episode), turns),
    ensures
        ({
            let (end, racing) = claims_after(m, fresh_claims(by_episode), turns);
            &&& racing.len() == by_episode.len()
            &&& (forall|k: int| 0 <= k < racing.len() ==> (#[trigger] racing[k]).phase is Finished)
                ==> {
                &&& exists|winner: int|
                    {
                        &&& 0 <= winner < racing.len()
                        &&& #[trigger] has_claimed(racing[winner], name)
                        &&& forall|k: int|
                            0 <= k < racing.len() && k != winner ==> (#[trigger] racing[k]).phase
                                == (ClaimPhaseView::Finished { end: ClaimEndView::Empty })
                    }
                &&& !end.pending.contains_key(name)
                &&& end.in_progress.contains_key(name)
            }
        }),
{
    lemma_lone_claim_race(m, by_episode, turns, name);
    let (end, racing) = claims_after(m, fresh_claims(by_episode), turns);
    if forall|k: int| 0 <= k < racing.len() ==> (#[trigger] racing[k]).phase is Finished {
        // Whoever has ended, with the job or without, has left it pending no more.
        assert(!end.pending.contains_key(name)) by {
            assert(lone_claim_progress(end, racing[0], name));
            if racing[0].phase != (ClaimPhaseView::Finished { end: ClaimEndView::Empty }) {
                assert(has_claimed(racing[0], name));
            }
        }
        assert(claimed_by_one(racing, name));
        let winner = choose|i: int| 0 <= i < racing.len() && has_claimed(#[trigger] racing[i], name);
        assert forall|k: int| 0 <= k < racing.len() && k != winner implies (#[trigger] racing[k]).phase
            == (ClaimPhaseView::Finished { end: ClaimEndView::Empty }) by {
            assert(lone_claim_progress(end, racing[k], name));
            assert(!has_claimed(racing[k], name));
        }
    }
}

/// The move of a record takes it from one directory to another and loses
/// nothing: a record that lies in exactly one directory lies in exactly one
/// afterwards, with what it held, whether the move took effect or not; and
/// no other record changes.
pub proof fn lemma_move_keeps_records(
    m: QueueModel,
    name: Seq<char>,
    from: QueueDir,
    to: QueueDir,
    other: Seq<char>,
)
    requires
        m.homes(name) == 1,
    ensures
        ({
            let (after, took_effect) = m.apply(QueueOpView::MoveRecord { name, from, to });
            &&& after.homes(name) == 1
            &&& took_effect <==> m.records(from).contains_key(name)
            &&& took_effect ==> after.records(to).contains_key(name) && after.records(to)[name]
                == m.records(from)[name]
            &&& !took_effect ==> after == m
            &&& other != name ==> forall|dir: QueueDir|
                after.records(dir).contains_key(other) == m.records(dir).contains_key(other) && (
                m.records(dir).contains_key(other) ==> after.records(dir)[other] == m.records(
                    dir,
                )[other])
            &&& after.locks == m.locks
        }),
{
}

/// No loss on failure. A claimed job lies in `in_progress` and nowhere
/// else; when its attempt fails and the worker returns it, it lies in
/// `pending` and nowhere else, with what it held.
pub proof fn lemma_no_loss_on_failure(m: QueueModel, name: Seq<char>)
    requires
        m.homes(name) == 1,
        m.in_progress.contains_key(name),
    ensures
        ({
            let (after, took_effect) = m.apply(return_of(name));
            &&& took_effect
            &&& after.homes(name) == 1
            &&& after.pending.contains_key(name)
            &&& after.pending[name] == m.in_progress[name]
        }),
{
}

/// The life of a record: pending, claimed, then completed or returned. At
/// each step it lies in exactly one directory.
pub proof fn lemma_lifecycle(m: QueueModel, name: Seq<char>)
    requires
        m.homes(name) == 1,
        m.pending.contains_key(name),
    ensures
        ({
            let claimed = m.apply(claim_of(name)).0;
            let completed = claimed.apply(completion_of(name)).0;
            let returned = claimed.apply(return_of(name)).0;
            &&& claimed.homes(name) == 1 && claimed.in_progress.contains_key(name)
            &&& completed.homes(name) == 1 && completed.completed.contains_key(name)
            &&& returned.homes(name) == 1 && returned.pending.contains_key(name)
            &&& completed.completed[name] == m.pending[name]
            &&& returned.pending[name] == m.pending[name]
        }),
{
}

/// One step of an enqueue against the shared directories: the operation it
/// asks for is applied, and the enqueue takes how it went. `failure` is
/// what the driver reports of an operation that did not take effect.
pub open spec fn enqueue_step(m: QueueModel, writer: EnqueueView, failure: OpOutcome) -> (
    QueueModel,
    EnqueueView,
) {
    match writer.request() {
        Some(op) => {
            let (after, took_effect) = m.apply(op);
            (
                after,
                writer.advance(
                    if took_effect {
                        OpOutcome::Done
                    } else {
                        failure
                    },
                ),
            )
        },
        None => (m, writer),
    }
}

/// An enqueue of the record `name` that has not begun.
pub open spec fn enqueue_of(name: Seq<char>, content: Seq<char>) -> EnqueueView {
    EnqueueView { name, content, phase: EnqueuePhaseView::Locking }
}

/// An enqueue that nobody disturbs takes three steps: it acquires the
/// lock, writes the record into `pending` and releases the lock. It ends
/// with the record written, holding what was to be written, and leaves
/// everything else as it was.
pub proof fn lemma_enqueue_alone(
    m: QueueModel,
    name: Seq<char>,
    content: Seq<char>,
    failure: OpOutcome,
)
    requires
        !m.locks.contains(name),
        !(failure is Done),
    ensures
        ({
            let (m1, w1) = enqueue_step(m, enqueue_of(name, content), failure);
            let (m2, w2) = enqueue_step(m1, w1, failure);
            let (m3, w3) = enqueue_step(m2, w2, failure);
            &&& w3.phase == (EnqueuePhaseView::Finished { result: EnqueueResultView::Written })
            &&& m3.pending == m.pending.insert(name, content)
            &&& m3.locks == m.locks
            &&& m3.in_progress == m.in_progress
            &&& m3.completed == m.completed
        }),
{
}

/// What is claimed is what was enqueued. After an enqueue that nobody
/// disturbs, the claim of the record takes effect and the record lies in
/// `in_progress` holding, letter for letter, the content that was
/// enqueued, on to `completed` or back to `pending`. What job the content
/// stands for is for the driver to read.
pub proof fn lemma_claimed_record_is_what_was_enqueued(
    m: QueueModel,
    name: Seq<char>,
    content: Seq<char>,
    failure: OpOutcome,
)
    requires
        !m.locks.contains(name),
        !(failure is Done),
        !m.in_progress.contains_key(name),
        !m.completed.contains_key(name),
    ensures
        ({
            let (m1, w1) = enqueue_step(m, enqueue_of(name, content), failure);
            let (m2, w2) = enqueue_step(m1, w1, failure);
            let (m3, w3) = enqueue_step(m2, w2, failure);
            let (claimed, took_effect) = m3.apply(claim_of(name));
            &&& took_effect
            &&& claimed.homes(name) == 1
            &&& claimed.in_progress[name] == content
            &&& claimed.apply(completion_of(name)).0.completed[name] == content
            &&& claimed.apply(return_of(name)).0.pending[name] == content
        }),
{
}

/// An enqueue that finds the record's lock held ends at once, without
/// error and without touching anything: another writer is taken to be at
/// the record. A lock that was left behind has the same effect.
pub proof fn lemma_enqueue_behind_lock(
    m: QueueModel,
    name: Seq<char>,
    content: Seq<char>,
    failure: OpOutcome,
)
    requires
        m.locks.contains(name),
        !(failure is Done),
    ensures
        enqueue_step(m, enqueue_of(name, content), failure) == (
            m,
            EnqueueView {
                name,
                content,
                phase: EnqueuePhaseView::Finished { result: EnqueueResultView::Skipped },
            },
        ),
{
}

/// The enqueue holds the lock.
pub open spec fn holds_lock(w: EnqueueView) -> bool {
    w.phase is Writing || w.phase is Releasing
}

/// The enqueue has written the record.
pub open spec fn has_written(w: EnqueueView) -> bool {
    w.phase == (EnqueuePhaseView::Releasing { write_error: None }) || w.phase == (
    EnqueuePhaseView::Finished { result: EnqueueResultView::Written })
}

/// The enqueue ended without writing, the lock being another's.
pub open spec fn has_skipped(w: EnqueueView) -> bool {
    w.phase == (EnqueuePhaseView::Finished { result: EnqueueResultView::Skipped })
}

/// Any number of enqueues racing: at each turn of `schedule` the enqueue
/// of that number takes one step.
pub open spec fn enqueue_race(
    m: QueueModel,
    writers: Seq<EnqueueView>,
    schedule: Seq<int>,
    failure: OpOutcome,
) -> (QueueModel, Seq<EnqueueView>)
    decreases schedule.len(),
{
    if schedule.len() == 0 {
        (m, writers)
    } else {
        let (m1, w1) = enqueue_race(m, writers, schedule.drop_last(), failure);
        let k = schedule.last();
        if 0 <= k < w1.len() {
            let (m2, stepped) = enqueue_step(m1, w1[k], failure);
            (m2, w1.update(k, stepped))
        } else {
            (m1, w1)
        }
    }
}

/// One of the enqueues holds the lock.
pub open spec fn lock_held(writers: Seq<EnqueueView>) -> bool {
    exists|k: int| 0 <= k < writers.len() && holds_lock(#[trigger] writers[k])
}

/// One of the enqueues has written the record.
pub open spec fn written_by_one(writers: Seq<EnqueueView>) -> bool {
    exists|k: int| 0 <= k < writers.len() && has_written(#[trigger] writers[k])
}

/// The record holds what one of the enqueues was to write.
pub open spec fn holds_one_of(m: QueueModel, name: Seq<char>, contents: Seq<Seq<char>>) -> bool {
    m.pending.contains_key(name) && exists|j: int|
        0 <= j < contents.len() && m.pending[name] == #[trigger] contents[j]
}

/// The enqueues of one record, one for each content, none of them begun.
pub open spec fn enqueues_of(name: Seq<char>, contents: Seq<Seq<char>>) -> Seq<EnqueueView> {
    Seq::new(contents.len(), |k: int| enqueue_of(name, contents[k]))
}

/// Where one enqueue of a race stands.
spec fn writer_in_race(w: EnqueueView, name: Seq<char>, content: Seq<char>) -> bool {
    &&& w.name == name
    &&& w.content == content
    &&& w.phase is Locking || holds_lock(w) || has_written(w) || has_skipped(w)
    &&& w.phase is Releasing ==> has_written(w)
}

/// What holds of any number of enqueues of one record throughout their
/// race.
spec fn enqueue_race_invariant(
    m: QueueModel,
    now: QueueModel,
    writers: Seq<EnqueueView>,
    name: Seq<char>,
    contents: Seq<Seq<char>>,
) -> bool {
    &&& writers.len() == contents.len()
    &&& forall|k: int|
        0 <= k < writers.len() ==> writer_in_race(#[trigger] writers[k], name, contents[k])
    &&& now.locks.contains(name) <==> lock_held(writers)
    &&& forall|i: int, j: int|
        0 <= i < writers.len() && 0 <= j < writers.len() && i != j ==> !(holds_lock(
            #[trigger] writers[i],
        ) && holds_lock(#[trigger] writers[j]))
    &&& written_by_one(writers) ==> holds_one_of(now, name, contents)
    &&& forall|k: int|
        0 <= k < writers.len() && has_skipped(#[trigger] writers[k]) ==> lock_held(writers)
            || written_by_one(writers)
    &&& now.pending.remove(name) == m.pending.remove(name)
    &&& now.locks.remove(name) == m.locks.remove(name)
    &&& now.in_progress == m.in_progress
    &&& now.completed == m.completed
}

proof fn lemma_enqueue_race_invariant(
    m: QueueModel,
    name: Seq<char>,
    contents: Seq<Seq<char>>,
    schedule: Seq<int>,
    failure: OpOutcome,
)
    requires
        !m.locks.contains(name),
        !(failure is Done),
    ensures
        ({
            let (end, racing) = enqueue_race(m, enqueues_of(name, contents), schedule, failure);
            enqueue_race_invariant(m, end, racing, name, contents)
        }),
    decreases schedule.len(),
{
    if schedule.len() > 0 {
        lemma_enqueue_race_invariant(m, name, contents, schedule.drop_last(), failure);
        let (m1, w1) = enqueue_race(
            m,
            enqueues_of(name, contents),
            schedule.drop_last(),
            failure,
        );
        let k = schedule.last();
        if 0 <= k < w1.len() {
            let (m2, stepped) = enqueue_step(m1, w1[k], failure);
            let w2 = w1.update(k, stepped);
            assert(writer_in_race(w1[k], name, contents[k]));
            assert(m2.pending.remove(name) =~= m.pending.remove(name));
            assert(m2.locks.remove(name) =~= m.locks.remove(name));
            // Who held the lock or had written before, other than the one that
            // steps, does so still; the one that steps keeps what it has written.
            assert forall|i: int| 0 <= i < w2.len() && i != k implies w2[i] == w1[i] by {}
            assert(has_written(w1[k]) ==> has_written(stepped));
            assert(holds_lock(w1[k]) ==> holds_lock(stepped) || has_written(stepped));
            if lock_held(w1) {
                let h = choose|h: int| 0 <= h < w1.len() && holds_lock(#[trigger] w1[h]);
                if h != k {
                    assert(holds_lock(w2[h]));
                    assert(!holds_lock(w1[k]));
                } else {
                    assert(forall|i: int|
                        0 <= i < w1.len() && i != k ==> !holds_lock(#[trigger] w1[i]));
                }
            } else {
                assert(forall|i: int| 0 <= i < w1.len() ==> !holds_lock(#[trigger] w1[i]));
            }
            if written_by_one(w1) {
                let h = choose|h: int| 0 <= h < w1.len() && has_written(#[trigger] w1[h]);
                assert(has_written(w2[h]));
                let j = choose|j: int|
                    0 <= j < contents.len() && m1.pending[name] == #[trigger] contents[j];
                assert(m2.pending[name] == contents[j] || m2.pending[name] == contents[k]);
            }
            if has_written(stepped) {
                assert(has_written(w2[k]));
                assert(m2.pending[name] == contents[k] || holds_one_of(m1, name, contents));
            }
            if holds_lock(stepped) {
                assert(holds_lock(w2[k]));
            }
            assert(lock_held(w2) <==> m2.locks.contains(name)) by {
                if lock_held(w2) {
                    let h = choose|h: int| 0 <= h < w2.len() && holds_lock(#[trigger] w2[h]);
                    if h != k {
                        assert(holds_lock(w1[h]));
                    }
                }
            }
            assert(written_by_one(w2) ==> holds_one_of(m2, name, contents)) by {
                if written_by_one(w2) {
                    let h = choose|h: int| 0 <= h < w2.len() && has_written(#[trigger] w2[h]);
                    if h != k {
                        assert(has_written(w1[h]));
                    }
                }
            }
            assert forall|i: int, j: int|
                0 <= i < w2.len() && 0 <= j < w2.len() && i != j implies !(holds_lock(
                #[trigger] w2[i],
            ) && holds_lock(#[trigger] w2[j])) by {
                if holds_lock(w2[i]) && holds_lock(w2[j]) {
                    if i != k {
                        assert(holds_lock(w1[i]));
                    }
                    if j != k {
                        assert(holds_lock(w1[j]));
                    }
                }
            }
            assert forall|i: int| 0 <= i < w2.len() && has_skipped(#[trigger] w2[i]) implies lock_held(
                w2,
            ) || written_by_one(w2) by {
                if i != k || has_skipped(w1[k]) {
                    assert(has_skipped(w1[i]));
                    assert(lock_held(w1) || written_by_one(w1));
                } else {
                    // It has found the lock held just now.
                    assert(lock_held(w1));
                }
            }
            assert forall|i: int| 0 <= i < w2.len() implies writer_in_race(
                #[trigger] w2[i],
                name,
                contents[i],
            ) by {
                if i != k {
                    assert(writer_in_race(w1[i], name, contents[i]));
                }
            }
        }
    } else {
        let writers = enqueues_of(name, contents);
        assert(!lock_held(writers));
        assert(!written_by_one(writers));
    }
}

/// Idempotent enqueue, for any number of writers. However many enqueues of
/// one record race, in whatever order they take their steps: once they
/// have all ended none of them reports an error, at least one has written,
/// the record lies in `pending` and holds, whole, what one of them was to
/// write, the lock is released, and nothing else in the directories has
/// changed. This is said of directories in which no lock of the record
/// was left behind before and writes take effect.
pub proof fn lemma_enqueue_any_number(
    m: QueueModel,
    name: Seq<char>,
    contents: Seq<Seq<char>>,
    schedule: Seq<int>,
    failure: OpOutcome,
)
    requires
        !m.locks.contains(name),
        !(failure is Done),
        contents.len() >= 1,
    ensures
        ({
            let (end, racing) = enqueue_race(m, enqueues_of(name, contents), schedule, failure);
            &&& racing.len() == contents.len()
            &&& (forall|k: int| 0 <= k < racing.len() ==> (#[trigger] racing[k]).phase is Finished)
                ==> {
                &&& forall|k: int|
                    0 <= k < racing.len() ==> has_written(#[trigger] racing[k]) || has_skipped(
                        racing[k],
                    )
                &&& written_by_one(racing)
                &&& holds_one_of(end, name, contents)
                &&& !end.locks.contains(name)
                &&& end.pending.remove(name) == m.pending.remove(name)
                &&& end.locks == m.locks
                &&& end.in_progress == m.in_progress
                &&& end.completed == m.completed
            }
        }),
{
    lemma_enqueue_race_invariant(m, name, contents, schedule, failure);
    let (end, racing) = enqueue_race(m, enqueues_of(name, contents), schedule, failure);
    if forall|k: int| 0 <= k < racing.len() ==> (#[trigger] racing[k]).phase is Finished {
        assert(!lock_held(racing)) by {
            if lock_held(racing) {
                let h = choose|h: int| 0 <= h < racing.len() && holds_lock(#[trigger] racing[h]);
                assert(racing[h].phase is Finished);
            }
        }
        assert forall|k: int| 0 <= k < racing.len() implies has_written(#[trigger] racing[k])
            || has_skipped(racing[k]) by {
            assert(writer_in_race(racing[k], name, contents[k]));
        }
        assert(written_by_one(racing)) by {
            assert(has_written(racing[0]) || has_skipped(racing[0]));
        }
        assert(end.locks =~= end.locks.remove(name));
        assert(m.locks =~= m.locks.remove(name));
    }
}

/// Idempotent enqueue. Two enqueues of one record, one after the other or
/// racing in any way, leave the record in `pending` once they have both
/// ended: neither reports an error, at least one has written, the record
/// holds what one of them wrote, and the lock is released.
pub proof fn lemma_enqueue_twice(
    m: QueueModel,
    name: Seq<char>,
    c1: Seq<char>,
    c2: Seq<char>,
    schedule: Seq<int>,
    failure: OpOutcome,
)
    requires
        !m.locks.contains(name),
        !(failure is Done),
    ensures
        ({
            let (end, racing) = enqueue_race(
                m,
                enqueues_of(name, seq![c1, c2]),
                schedule,
                failure,
            );
            &&& racing.len() == 2
            &&& racing[0].phase is Finished && racing[1].phase is Finished ==> {
                &&& has_written(racing[0]) || has_skipped(racing[0])
                &&& has_written(racing[1]) || has_skipped(racing[1])
                &&& has_written(racing[0]) || has_written(racing[1])
                &&& end.pending.contains_key(name)
                &&& end.pending[name] == c1 || end.pending[name] == c2
                &&& !end.locks.contains(name)
                &&& end.pending.remove(name) == m.pending.remove(name)
                &&& end.locks == m.locks
                &&& end.in_progress == m.in_progress
                &&& end.completed == m.completed
            }
        }),
{
    let contents = seq![c1, c2];
    lemma_enqueue_any_number(m, name, contents, schedule, failure);
    let (end, racing) = enqueue_race(m, enqueues_of(name, contents), schedule, failure);
    if racing[0].phase is Finished && racing[1].phase is Finished {
        let j = choose|j: int| 0 <= j < contents.len() && end.pending[name] == #[trigger] contents[j];
        assert(contents[j] == c1 || contents[j] == c2);
    }
}

/// Where a worker stands that claims and completes job after job until it
/// finds nothing to claim.
pub enum ClaimLoopView {
    /// About to list `pending` for a new claim.
    Listing,
    /// At a claim: trying its candidates, reading a record back, or at the
    /// claim's end.
    Claiming { claim: ClaimView },
    /// A claim has ended without a job, and the worker has stopped.
    Stopped,
}

/// A worker of a claim loop: where it stands, and the records that it has
/// completed, in their order.
pub struct LoopWorker {
    pub state: ClaimLoopView,
    pub done: Seq<Seq<char>>,
}

/// A listing names what is pending, all of it and nothing else, in some
/// order. This is asked of the listing wherever no more is pending than
/// in `m`.
pub open spec fn lists_pending(
    listing: spec_fn(QueueModel) -> Seq<Seq<char>>,
    m: QueueModel,
) -> bool {
    forall|now: QueueModel, name: Seq<char>|
        #![trigger listing(now).contains(name)]
        now.pending.dom().subset_of(m.pending.dom()) ==> (listing(now).contains(name)
            <==> now.pending.contains_key(name))
}

/// One step of a worker of a claim loop, against the shared directories.
/// The worker lists and begins a claim; or its claim takes a step; or,
/// its claim having ended with a job, it marks the job completed and
/// begins again; or, its claim having ended without, it stops.
pub open spec fn loop_step(
    m: QueueModel,
    worker: LoopWorker,
    listing: spec_fn(QueueModel) -> Seq<Seq<char>>,
    jobs: spec_fn(Seq<char>) -> Job,
) -> (QueueModel, LoopWorker) {
    match worker.state {
        ClaimLoopView::Listing => (
            m,
            LoopWorker {
                state: ClaimLoopView::Claiming {
                    claim: (ClaimView { by_episode: false, phase: ClaimPhaseView::Listing }).trying(
                        listing(m),
                        0,
                    ),
                },
                done: worker.done,
            },
        ),
        ClaimLoopView::Claiming { claim } => match claim.phase {
            ClaimPhaseView::Claiming { .. } | ClaimPhaseView::ReadingBack { .. } => {
                let (after, stepped) = claim_step(m, claim, jobs);
                (
                    after,
                    LoopWorker {
                        state: ClaimLoopView::Claiming { claim: stepped },
                        done: worker.done,
                    },
                )
            },
            ClaimPhaseView::Finished { end: ClaimEndView::Claimed { name, .. } } => (
                m.apply(completion_of(name)).0,
                LoopWorker { state: ClaimLoopView::Listing, done: worker.done.push(name) },
            ),
            _ => (m, LoopWorker { state: ClaimLoopView::Stopped, done: worker.done }),
        },
        ClaimLoopView::Stopped => (m, worker),
    }
}

/// Any number of claim loops racing: at each turn of `schedule` the worker
/// of that number takes one step.
pub open spec fn loop_race(
    m: QueueModel,
    workers: Seq<LoopWorker>,
    schedule: Seq<int>,
    listing: spec_fn(QueueModel) -> Seq<Seq<char>>,
    jobs: spec_fn(Seq<char>) -> Job,
) -> (QueueModel, Seq<LoopWorker>)
    decreases schedule.len(),
{
    if schedule.len() == 0 {
        (m, workers)
    } else {
        let (m1, w1) = loop_race(m, workers, schedule.drop_last(), listing, jobs);
        let k = schedule.last();
        if 0 <= k < w1.len() {
            let (m2, stepped) = loop_step(m1, w1[k], listing, jobs);
            (m2, w1.update(k, stepped))
        } else {
            (m1, w1)
        }
    }
}

/// The worker has the job of the record `name` and has not completed it.
pub open spec fn holds_job(worker: LoopWorker, name: Seq<char>) -> bool {
    worker.state matches ClaimLoopView::Claiming { claim } && has_claimed(claim, name)
}

/// One of the workers has the job of the record `name` in its hands.
pub open spec fn held_by_one(workers: Seq<LoopWorker>, name: Seq<char>) -> bool {
    exists|k: int| 0 <= k < workers.len() && holds_job(#[trigger] workers[k], name)
}

/// One of the workers has completed the record `name`.
pub open spec fn completed_by_one(workers: Seq<LoopWorker>, name: Seq<char>) -> bool {
    exists|k: int| 0 <= k < workers.len() && (#[trigger] workers[k]).done.contains(name)
}

/// Workers that have not begun.
pub open spec fn fresh_workers(count: nat) -> Seq<LoopWorker> {
    Seq::new(count, |k: int| LoopWorker { state: ClaimLoopView::Listing, done: Seq::empty() })
}

/// Where one worker of a race of claim loops stands.
spec fn worker_in_race(m: QueueModel, now: QueueModel, w: LoopWorker) -> bool {
    &&& w.done.no_duplicates()
    &&& forall|name: Seq<char>| #[trigger]
        w.done.contains(name) ==> {
            &&& m.pending.contains_key(name)
            &&& now.completed.contains_key(name)
            &&& now.completed[name] == m.pending[name]
            &&& !now.pending.contains_key(name)
            &&& !now.in_progress.contains_key(name)
        }
    &&& match w.state {
        ClaimLoopView::Listing => true,
        ClaimLoopView::Stopped => forall|name: Seq<char>| !#[trigger] now.pending.contains_key(name),
        ClaimLoopView::Claiming { claim } => {
            &&& claim.well_formed()
            &&& match claim.phase {
                ClaimPhaseView::Claiming { order, next } => 0 <= next && forall|name: Seq<char>| #[trigger]
                    now.pending.contains_key(name) ==> exists|q: int|
                        next <= q < order.len() && #[trigger] order[q] == name,
                ClaimPhaseView::ReadingBack { .. } => true,
                ClaimPhaseView::Finished { end: ClaimEndView::Claimed { .. } } => true,
                ClaimPhaseView::Finished { end: ClaimEndView::Empty } => forall|name: Seq<char>|
                    !#[trigger] now.pending.contains_key(name),
                _ => false,
            }
        },
    }
    &&& forall|name: Seq<char>| #[trigger]
        holds_job(w, name) ==> {
            &&& m.pending.contains_key(name)
            &&& now.in_progress.contains_key(name)
            &&& now.in_progress[name] == m.pending[name]
            &&& !now.pending.contains_key(name)
            &&& !now.completed.contains_key(name)
        }
}

/// What holds of racing claim loops throughout their race.
spec fn loop_race_invariant(m: QueueModel, now: QueueModel, workers: Seq<LoopWorker>) -> bool {
    &&& forall|k: int| 0 <= k < workers.len() ==> worker_in_race(m, now, #[trigger] workers[k])
    &&& forall|i: int, j: int, name: Seq<char>|
        0 <= i < workers.len() && 0 <= j < workers.len() && i != j && #[trigger] holds_job(
            workers[i],
            name,
        ) ==> !#[trigger] holds_job(workers[j], name)
    &&& forall|i: int, j: int, name: Seq<char>|
        0 <= i < workers.len() && 0 <= j < workers.len() && i != j && #[trigger] workers[i].done.contains(
            name,
        ) ==> !#[trigger] workers[j].done.contains(name)
    &&& forall|name: Seq<char>| #[trigger]
        now.pending.contains_key(name) ==> m.pending.contains_key(name) && now.pending[name]
            == m.pending[name] && !now.in_progress.contains_key(name)
            && !now.completed.contains_key(name)
    &&& forall|name: Seq<char>| #[trigger]
        m.pending.contains_key(name) ==> now.pending.contains_key(name) || held_by_one(
            workers,
            name,
        ) || completed_by_one(workers, name)
    &&& forall|name: Seq<char>|
        !m.pending.contains_key(name) ==> #[trigger] now.in_progress.contains_key(name)
            == m.in_progress.contains_key(name)
    &&& forall|name: Seq<char>|
        !m.pending.contains_key(name) ==> #[trigger] now.completed.contains_key(name)
            == m.completed.contains_key(name)
}

proof fn lemma_loop_step(
    m: QueueModel,
    m1: QueueModel,
    w1: Seq<LoopWorker>,
    k: int,
    listing: spec_fn(QueueModel) -> Seq<Seq<char>>,
    jobs: spec_fn(Seq<char>) -> Job,
)
    requires
        lists_pending(listing, m),
        loop_race_invariant(m, m1, w1),
        0 <= k < w1.len(),
    ensures
        loop_race_invariant(m, loop_step(m1, w1[k], listing, jobs).0, w1.update(
            k,
            loop_step(m1, w1[k], listing, jobs).1,
        )),
{
    let (m2, stepped) = loop_step(m1, w1[k], listing, jobs);
    let w2 = w1.update(k, stepped);
    let old = w1[k];
    assert(worker_in_race(m, m1, old));
    assert forall|i: int| 0 <= i < w2.len() && i != k implies w2[i] == w1[i] by {}
    // What the step touches: nothing, or the one record that the worker
    // moves.
    let moved: Option<Seq<char>> = match old.state {
        ClaimLoopView::Claiming { claim } => match claim.phase {
            ClaimPhaseView::Claiming { order, next } => if m1.pending.contains_key(order[next]) {
                Some(order[next])
            } else {
                None
            },
            ClaimPhaseView::Finished { end: ClaimEndView::Claimed { name, .. } } => Some(name),
            _ => None,
        },
        _ => None,
    };
    match moved {
        None => {
            assert(m2 == m1);
        },
        Some(x) => {
            assert(m.pending.contains_key(x)) by {
                if !m1.pending.contains_key(x) {
                    assert(holds_job(old, x));
                }
            }
            assert forall|name: Seq<char>| name != x implies (m2.pending.contains_key(name)
                == m1.pending.contains_key(name)) && (m2.in_progress.contains_key(name)
                == m1.in_progress.contains_key(name)) && (m2.completed.contains_key(name)
                == m1.completed.contains_key(name)) by {}
        },
    }
    // The worker that steps.
    assert forall|name: Seq<char>| #[trigger] holds_job(stepped, name) implies m.pending.contains_key(
        name,
    ) && m2.in_progress.contains_key(name) by {
        if holds_job(old, name) {
            assert(m1.in_progress.contains_key(name));
        } else {
            // It has moved the record just now.
            assert(m1.pending.contains_key(name));
        }
    }
    assert(worker_in_race(m, m2, stepped)) by {
        match old.state {
            ClaimLoopView::Listing => {
                let order = listing(m1);
                assert(m1.pending.dom().subset_of(m.pending.dom())) by {
                    assert forall|name: Seq<char>|
                        m1.pending.dom().contains(name) implies m.pending.dom().contains(name) by {
                        assert(m1.pending.contains_key(name));
                    }
                }
                assert forall|name: Seq<char>| #[trigger]
                    m1.pending.contains_key(name) implies exists|q: int|
                    0 <= q < order.len() && #[trigger] order[q] == name by {
                    assert(order.contains(name));
                }
            },
            ClaimLoopView::Claiming { claim } => {
                match claim.phase {
                    ClaimPhaseView::Claiming { order, next } => {
                        let x = order[next];
                        if m1.pending.contains_key(x) {
                            assert(has_claimed(stepped.state->Claiming_claim, x));
                            assert forall|name: Seq<char>| #[trigger]
                                stepped.done.contains(name) implies !m2.in_progress.contains_key(
                                name,
                            ) && m2.completed.contains_key(name) by {
                                assert(old.done.contains(name));
                            }
                        } else {
                            assert forall|name: Seq<char>| #[trigger]
                                m2.pending.contains_key(name) implies exists|q: int|
                                next + 1 <= q < order.len() && #[trigger] order[q] == name by {
                                let q = choose|q: int|
                                    next <= q < order.len() && #[trigger] order[q] == name;
                                assert(q != next);
                            }
                        }
                    },
                    ClaimPhaseView::Finished { end: ClaimEndView::Claimed { name: x, .. } } => {
                        assert(holds_job(old, x));
                        assert(!old.done.contains(x));
                        assert forall|name: Seq<char>| #[trigger]
                            stepped.done.contains(name) implies old.done.contains(name) || name
                            == x by {
                            let q = choose|q: int|
                                0 <= q < stepped.done.len() && stepped.done[q] == name;
                            if q < old.done.len() {
                                assert(old.done[q] == name);
                            }
                        }
                        assert forall|i: int, j: int|
                            0 <= i < stepped.done.len() && 0 <= j < stepped.done.len() && i
                                != j implies stepped.done[i] != stepped.done[j] by {
                            if i < old.done.len() {
                                assert(old.done.contains(stepped.done[i]));
                            }
                            if j < old.done.len() {
                                assert(old.done.contains(stepped.done[j]));
                            }
                        }
                    },
                    _ => {},
                }
            },
            ClaimLoopView::Stopped => {},
        }
    }
    // The other workers.
    assert forall|i: int| 0 <= i < w2.len() implies worker_in_race(m, m2, #[trigger] w2[i]) by {
        if i != k {
            let w = w1[i];
            assert(worker_in_race(m, m1, w));
            match moved {
                None => {},
                Some(x) => {
                    // The record that moves was pending, or in the hands of
                    // the worker that steps: no other worker had it.
                    assert(!w.done.contains(x)) by {
                        if w.done.contains(x) {
                            assert(!m1.pending.contains_key(x) && !m1.in_progress.contains_key(x));
                            assert(holds_job(old, x) ==> m1.in_progress.contains_key(x));
                        }
                    }
                    assert(!holds_job(w, x)) by {
                        if holds_job(w, x) {
                            assert(!m1.pending.contains_key(x));
                            assert(holds_job(old, x));
                        }
                    }
                },
            }
        }
    }
    assert forall|i: int, j: int, name: Seq<char>|
        0 <= i < w2.len() && 0 <= j < w2.len() && i != j && #[trigger] holds_job(
            w2[i],
            name,
        ) implies !#[trigger] holds_job(w2[j], name) by {
        if holds_job(w2[j], name) {
            if i != k {
                assert(holds_job(w1[i], name));
                assert(!m1.pending.contains_key(name));
            }
            if j != k {
                assert(holds_job(w1[j], name));
                assert(!m1.pending.contains_key(name));
            }
            if i == k {
                assert(holds_job(old, name) || m1.pending.contains_key(name));
            }
            if j == k {
                assert(holds_job(old, name) || m1.pending.contains_key(name));
            }
        }
    }
    assert forall|i: int, j: int, name: Seq<char>|
        0 <= i < w2.len() && 0 <= j < w2.len() && i != j && #[trigger] w2[i].done.contains(
            name,
        ) implies !#[trigger] w2[j].done.contains(name) by {
        if w2[j].done.contains(name) {
            assert(worker_in_race(m, m2, w2[i]));
            assert(worker_in_race(m, m2, w2[j]));
            if i != k && j != k {
                assert(w1[i].done.contains(name) && w1[j].done.contains(name));
            } else {
                let other = if i == k {
                    j
                } else {
                    i
                };
                assert(w1[other].done.contains(name));
                assert(worker_in_race(m, m1, w1[other]));
                if !old.done.contains(name) {
                    // The worker that steps has completed it just now.
                    assert(holds_job(old, name));
                }
            }
        }
    }
    assert forall|name: Seq<char>| #[trigger] m.pending.contains_key(name) implies m2.pending.contains_key(
        name,
    ) || held_by_one(w2, name) || completed_by_one(w2, name) by {
        if !m2.pending.contains_key(name) {
            if m1.pending.contains_key(name) {
                assert(holds_job(w2[k], name));
            } else if held_by_one(w1, name) {
                let h = choose|h: int| 0 <= h < w1.len() && holds_job(#[trigger] w1[h], name);
                if h != k {
                    assert(holds_job(w2[h], name));
                } else if !holds_job(stepped, name) {
                    assert(stepped.done.last() == name);
                    assert(w2[k].done.contains(name));
                } else {
                    assert(holds_job(w2[k], name));
                }
            } else {
                assert(completed_by_one(w1, name));
                let h = choose|h: int| 0 <= h < w1.len() && (#[trigger] w1[h]).done.contains(name);
                if h != k {
                    assert(w2[h].done.contains(name));
                } else {
                    let q = choose|q: int| 0 <= q < old.done.len() && old.done[q] == name;
                    assert(stepped.done.len() >= old.done.len());
                    assert(stepped.done[q] == name);
                    assert(w2[k].done.contains(name));
                }
            }
        }
    }
}

proof fn lemma_loop_race_invariant(
    m: QueueModel,
    workers: nat,
    schedule: Seq<int>,
    listing: spec_fn(QueueModel) -> Seq<Seq<char>>,
    jobs: spec_fn(Seq<char>) -> Job,
)
    requires
        lists_pending(listing, m),
        forall|name: Seq<char>| #[trigger]
            m.pending.contains_key(name) ==> !m.in_progress.contains_key(name)
                && !m.completed.contains_key(name),
    ensures
        loop_race(m, fresh_workers(workers), schedule, listing, jobs).1.len() == workers,
        loop_race_invariant(
            m,
            loop_race(m, fresh_workers(workers), schedule, listing, jobs).0,
            loop_race(m, fresh_workers(workers), schedule, listing, jobs).1,
        ),
    decreases schedule.len(),
{
    if schedule.len() > 0 {
        lemma_loop_race_invariant(m, workers, schedule.drop_last(), listing, jobs);
        let (m1, w1) = loop_race(m, fresh_workers(workers), schedule.drop_last(), listing, jobs);
        let k = schedule.last();
        if 0 <= k < w1.len() {
            lemma_loop_step(m, m1, w1, k, listing, jobs);
        }
    } else {
        let begin = fresh_workers(workers);
        assert forall|k: int| 0 <= k < begin.len() implies worker_in_race(
            m,
            m,
            #[trigger] begin[k],
        ) by {
            assert(begin[k].done =~= Seq::<Seq<char>>::empty());
        }
    }
}

/// Claim loops empty the queue. Any number of workers, each claiming and
/// completing job after job until it finds nothing to claim, taking their
/// steps in whatever order: once they have all stopped, every job that
/// was pending lies in `completed` and nowhere else, holding what it held;
/// it was completed by exactly one worker, once; no worker completed
/// anything else; and nothing else in `in_progress` or `completed` has
/// changed.
pub proof fn lemma_claim_loops_empty_the_queue(
    m: QueueModel,
    workers: nat,
    schedule: Seq<int>,
    listing: spec_fn(QueueModel) -> Seq<Seq<char>>,
    jobs: spec_fn(Seq<char>) -> Job,
)
    requires
        lists_pending(listing, m),
        forall|name: Seq<char>| #[trigger]
            m.pending.contains_key(name) ==> !m.in_progress.contains_key(name)
                && !m.completed.contains_key(name),
    ensures
        ({
            let (end, racing) = loop_race(m, fresh_workers(workers), schedule, listing, jobs);
            &&& racing.len() == workers
            &&& (forall|k: int| 0 <= k < racing.len() ==> (#[trigger] racing[k]).state is Stopped)
                && workers >= 1 ==> {
                &&& forall|name: Seq<char>| #[trigger]
                    m.pending.contains_key(name) ==> {
                        &&& !end.pending.contains_key(name)
                        &&& !end.in_progress.contains_key(name)
                        &&& end.completed.contains_key(name)
                        &&& end.completed[name] == m.pending[name]
                        &&& completed_by_one(racing, name)
                    }
                &&& forall|name: Seq<char>| !#[trigger] end.pending.contains_key(name)
                &&& forall|k: int, name: Seq<char>|
                    0 <= k < racing.len() && #[trigger] racing[k].done.contains(name)
                        ==> m.pending.contains_key(name)
                &&& forall|k: int| 0 <= k < racing.len() ==> (#[trigger] racing[k]).done.no_duplicates()
                &&& forall|i: int, j: int, name: Seq<char>|
                    0 <= i < racing.len() && 0 <= j < racing.len() && i != j
                        && #[trigger] racing[i].done.contains(name) ==> !#[trigger] racing[j].done.contains(
                        name,
                    )
                &&& forall|name: Seq<char>|
                    !m.pending.contains_key(name) ==> #[trigger] end.in_progress.contains_key(name)
                        == m.in_progress.contains_key(name)
                &&& forall|name: Seq<char>|
                    !m.pending.contains_key(name) ==> #[trigger] end.completed.contains_key(name)
                        == m.completed.contains_key(name)
            }
        }),
{
    lemma_loop_race_invariant(m, workers, schedule, listing, jobs);
    let (end, racing) = loop_race(m, fresh_workers(workers), schedule, listing, jobs);
    if (forall|k: int| 0 <= k < racing.len() ==> (#[trigger] racing[k]).state is Stopped) && workers
        >= 1 {
        assert(worker_in_race(m, end, racing[0]));
        assert forall|name: Seq<char>| #[trigger] m.pending.contains_key(name) implies {
            &&& !end.pending.contains_key(name)
            &&& !end.in_progress.contains_key(name)
            &&& end.completed.contains_key(name)
            &&& end.completed[name] == m.pending[name]
            &&& completed_by_one(racing, name)
        } by {
            assert(!end.pending.contains_key(name));
            if held_by_one(racing, name) {
                let h = choose|h: int| 0 <= h < racing.len() && holds_job(#[trigger] racing[h], name);
                assert(racing[h].state is Stopped);
            }
            assert(completed_by_one(racing, name));
            let c = choose|c: int| 0 <= c < racing.len() && (#[trigger] racing[c]).done.contains(name);
            assert(worker_in_race(m, end, racing[c]));
        }
        assert forall|k: int, name: Seq<char>|
            0 <= k < racing.len() && #[trigger] racing[k].done.contains(
                name,
            ) implies m.pending.contains_key(name) by {
            assert(worker_in_race(m, end, racing[k]));
        }
        assert forall|k: int| 0 <= k < racing.len() implies (#[trigger] racing[k]).done.no_duplicates() by {
            assert(worker_in_race(m, end, racing[k]));
        }
    }
}

} // verus!
