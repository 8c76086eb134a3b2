//! Work outside the library, written down as a script and carried out step
//! by step.
//!
//! A script is a list of steps. The driver performs the operation that the
//! script asks for and reports how it went; the script decides whether to
//! go on. A step that must succeed ends the script with its error when it
//! does not, after the operations that tidy up behind it; a step that is
//! only tried never ends the script.

use vstd::prelude::*;
use crate::queue::names_view;

verus! {

/// An operation on files or processes, for the driver to perform.
#[derive(Debug, PartialEq, Eq)]
pub enum ExecOp {
    /// See whether a file exists.
    Exists { path: String },
    /// Create the directory that is to hold `path`, and those above it,
    /// unless it exists.
    EnsureParent { path: String },
    /// Run a command and wait for it. It fails where the command cannot be
    /// run or does not exit with success; the reason is what the command
    /// wrote about it.
    Run { command: Vec<String> },
    /// Write a file.
    WriteFile { path: String, content: String },
    /// Remove a file.
    RemoveFile { path: String },
    /// Rename a file.
    Rename { from: String, to: String },
    /// Rename a file if it exists; where it does not, nothing is done and
    /// nothing has failed.
    RenameIfPresent { from: String, to: String },
}

/// How an operation went.
#[derive(Debug, PartialEq, Eq)]
pub enum ExecOutcome {
    /// The operation took effect.
    Done,
    /// The operation did not take effect.
    Failed { reason: String },
    /// The file exists.
    Present,
    /// The file does not exist.
    Absent,
}

/// What a step asks of the outcome of its operation.
#[derive(Debug, Clone, Copy, PartialEq, Eq, Structural)]
pub enum Expect {
    Done,
    Present,
    Absent,
}

/// Kinds of failure of an attempt or of its finalization.
#[derive(Debug, Clone, Copy, PartialEq, Eq, Structural)]
pub enum ExecErrorKind {
    /// The input file does not exist.
    InputMissing,
    /// A WebM job carries no subtitle path.
    SubtitlePathMissing,
    /// The subtitle file that a WebM job needs does not exist.
    SubtitleMissing,
    /// The directory for the output could not be created.
    OutputDirFailed,
    /// The encoder did not succeed.
    EncoderFailed,
    /// The list of segments could not be written.
    ConcatListFailed,
    /// The finished output is not in the work folder.
    WorkOutputMissing,
    /// A file stands where the output is to go.
    DestinationExists,
    /// The output could not be moved to its destination.
    MoveFailed,
    /// A source file could not be renamed.
    DisableFailed,
}

/// A failure: its kind, and the path or the diagnostics that go with it.
#[derive(Debug, PartialEq, Eq)]
pub struct ExecError {
    pub kind: ExecErrorKind,
    pub detail: String,
}

/// One step of a script.
#[derive(Debug, PartialEq, Eq)]
pub enum Step {
    /// Perform `op`. Where the outcome is not the expected one, perform the
    /// operations of `cleanup`, whatever comes of them, and end with an
    /// error of kind `error`.
    Must { op: ExecOp, expect: Expect, error: ExecErrorKind, cleanup: Vec<ExecOp> },
    /// Perform `op` and go on, whatever comes of it.
    Try { op: ExecOp },
    /// End with an error.
    Abort { error: ExecErrorKind, detail: String },
}

/// A script under way: its steps, the step it is at, and, once a step has
/// failed, the error and how far the tidying up has come.
#[derive(Debug, PartialEq, Eq)]
pub struct Script {
    pub steps: Vec<Step>,
    pub next: usize,
    pub failure: Option<ExecError>,
    pub cleaned: usize,
}

/// An operation as plain values.
pub enum ExecOpView {
    Exists { path: Seq<char> },
    EnsureParent { path: Seq<char> },
    Run { command: Seq<Seq<char>> },
    WriteFile { path: Seq<char>, content: Seq<char> },
    RemoveFile { path: Seq<char> },
    Rename { from: Seq<char>, to: Seq<char> },
    RenameIfPresent { from: Seq<char>, to: Seq<char> },
}

/// A step as plain values.
pub enum StepView {
    Must { op: ExecOpView, expect: Expect, error: ExecErrorKind, cleanup: Seq<ExecOpView> },
    Try { op: ExecOpView },
    Abort { error: ExecErrorKind, detail: Seq<char> },
}

impl View for ExecOp {
    type V = ExecOpView;

    open spec fn view(&self) -> ExecOpView {
        match *self {
            ExecOp::Exists { path } => ExecOpView::Exists { path: path@ },
            ExecOp::EnsureParent { path } => ExecOpView::EnsureParent { path: path@ },
            ExecOp::Run { command } => ExecOpView::Run { command: names_view(command) },
            ExecOp::WriteFile { path, content } => ExecOpView::WriteFile {
                path: path@,
                content: content@,
            },
            ExecOp::RemoveFile { path } => ExecOpView::RemoveFile { path: path@ },
            ExecOp::Rename { from, to } => ExecOpView::Rename { from: from@, to: to@ },
            ExecOp::RenameIfPresent { from, to } => ExecOpView::RenameIfPresent {
                from: from@,
                to: to@,
            },
        }
    }
}

/// The operations of a list as plain values.
pub open spec fn ops_view(ops: Vec<ExecOp>) -> Seq<ExecOpView> {
    ops@.map_values(|op: ExecOp| op@)
}

impl View for Step {
    type V = StepView;

    open spec fn view(&self) -> StepView {
        match *self {
            Step::Must { op, expect, error, cleanup } => StepView::Must {
                op: op@,
                expect,
                error,
                cleanup: ops_view(cleanup),
            },
            Step::Try { op } => StepView::Try { op: op@ },
            Step::Abort { error, detail } => StepView::Abort { error, detail: detail@ },
        }
    }
}

/// The steps of a list as plain values.
pub open spec fn steps_view(steps: Vec<Step>) -> Seq<StepView> {
    steps@.map_values(|s: Step| s@)
}

impl ExecOpView {
    /// The path that the operation is about; for a command, nothing.
    pub open spec fn subject(self) -> Seq<char> {
        match self {
            ExecOpView::Exists { path } => path,
            ExecOpView::EnsureParent { path } => path,
            ExecOpView::Run { .. } => Seq::empty(),
            ExecOpView::WriteFile { path, .. } => path,
            ExecOpView::RemoveFile { path } => path,
            ExecOpView::Rename { from, .. } => from,
            ExecOpView::RenameIfPresent { from, .. } => from,
        }
    }
}

impl ExecOp {
    /// The path that the operation is about; for a command, nothing.
    pub fn subject(&self) -> (r: String)
        ensures
            r@ == self@.subject(),
    {
        match self {
            ExecOp::Exists { path } => path.clone(),
            ExecOp::EnsureParent { path } => path.clone(),
            ExecOp::Run { .. } => String::new(),
            ExecOp::WriteFile { path, .. } => path.clone(),
            ExecOp::RemoveFile { path } => path.clone(),
            ExecOp::Rename { from, .. } => from.clone(),
            ExecOp::RenameIfPresent { from, .. } => from.clone(),
        }
    }
}

impl ExecOutcome {
    /// Whether the outcome is the expected one.
    pub open spec fn meets(self, expect: Expect) -> bool {
        match expect {
            Expect::Done => self is Done,
            Expect::Present => self is Present,
            Expect::Absent => self is Absent,
        }
    }

    /// Computes `meets`.
    pub fn is_as_expected(&self, expect: Expect) -> (r: bool)
        ensures
            r == self.meets(expect),
    {
        match (expect, self) {
            (Expect::Done, ExecOutcome::Done) => true,
            (Expect::Present, ExecOutcome::Present) => true,
            (Expect::Absent, ExecOutcome::Absent) => true,
            _ => false,
        }
    }

    /// What goes with the failure of an operation: the reason where the
    /// driver gave one, else the path that the operation was about.
    pub open spec fn detail_for(self, op: ExecOpView) -> Seq<char> {
        match self {
            ExecOutcome::Failed { reason } => reason@,
            _ => op.subject(),
        }
    }
}

/// Where a script stands.
pub enum ScriptState {
    /// The operation of step `step` is to be performed.
    Stepping { step: int },
    /// A step has failed and operation `index` of its cleanup is to be
    /// performed.
    Cleaning { step: int, index: int },
    /// All steps are done.
    Succeeded,
    /// The script has ended with an error.
    Failed { kind: ExecErrorKind, detail: Seq<char> },
}

impl Script {
    /// Where the script stands.
    pub open spec fn state(self) -> ScriptState {
        match self.failure {
            Some(e) => if self.next < self.steps@.len() && self.steps@[self.next as int] is Must
                && self.cleaned < self.steps@[self.next as int]->cleanup@.len() {
                ScriptState::Cleaning { step: self.next as int, index: self.cleaned as int }
            } else {
                ScriptState::Failed { kind: e.kind, detail: e.detail@ }
            },
            None => if self.next < self.steps@.len() {
                match self.steps@[self.next as int] {
                    Step::Abort { error, detail } => ScriptState::Failed {
                        kind: error,
                        detail: detail@,
                    },
                    _ => ScriptState::Stepping { step: self.next as int },
                }
            } else {
                ScriptState::Succeeded
            },
        }
    }

    /// The operation that the script asks for, if it has not ended: that of
    /// its step, or, after a failure, the next of the cleanup.
    pub open spec fn spec_request(self) -> Option<ExecOp> {
        match self.state() {
            ScriptState::Stepping { step } => match self.steps@[step] {
                Step::Must { op, .. } => Some(op),
                Step::Try { op } => Some(op),
                Step::Abort { .. } => None,
            },
            ScriptState::Cleaning { step, index } => Some(self.steps@[step]->cleanup@[index]),
            _ => None,
        }
    }

    /// Whether `after` is the script once the operation that `self` asked
    /// for went as `outcome` says.
    ///
    /// A step that is tried is passed; a step that must succeed is passed
    /// where the outcome is the expected one, and else fails the script
    /// with its kind of error and what goes with the outcome. After a
    /// failure each operation of the cleanup is passed in turn.
    pub open spec fn followed_by(self, outcome: ExecOutcome, after: Script) -> bool {
        &&& after.steps == self.steps
        &&& match self.state() {
            ScriptState::Stepping { step } => match self.steps@[step] {
                Step::Must { op, expect, error, .. } => if outcome.meets(expect) {
                    after.next == self.next + 1 && after.failure is None && after.cleaned == 0
                } else {
                    &&& after.next == self.next
                    &&& after.cleaned == 0
                    &&& after.failure is Some
                    &&& after.failure->Some_0.kind == error
                    &&& after.failure->Some_0.detail@ == outcome.detail_for(op@)
                },
                _ => after.next == self.next + 1 && after.failure is None && after.cleaned == 0,
            },
            ScriptState::Cleaning { .. } => after.next == self.next && after.failure
                == self.failure && after.cleaned == self.cleaned + 1,
            _ => after == self,
        }
    }

    /// The script of `steps` at its first step.
    pub open spec fn spec_new(steps: Vec<Step>) -> Script {
        Script { steps, next: 0, failure: None, cleaned: 0 }
    }

    /// A script that is at its first step.
    pub fn new(steps: Vec<Step>) -> (r: Self)
        ensures
            r == Self::spec_new(steps),
    {
        Script { steps, next: 0, failure: None, cleaned: 0 }
    }

    /// The operation to perform next, if the script has not ended.
    pub fn request(&self) -> (op: Option<&ExecOp>)
        ensures
            match op {
                Some(op) => self.spec_request() == Some(*op),
                None => self.spec_request() is None,
            },
    {
        if self.next >= self.steps.len() {
            return None;
        }
        match &self.steps[self.next] {
            Step::Must { op, cleanup, .. } => {
                if self.failure.is_some() {
                    if self.cleaned < cleanup.len() {
                        Some(&cleanup[self.cleaned])
                    } else {
                        None
                    }
                } else {
                    Some(op)
                }
            },
            Step::Try { op } => {
                if self.failure.is_some() {
                    None
                } else {
                    Some(op)
                }
            },
            Step::Abort { .. } => None,
        }
    }

    /// Takes how the requested operation went.
    pub fn advance(self, outcome: ExecOutcome) -> (after: Self)
        ensures
            self.followed_by(outcome, after),
    {
        let Script { steps, next, failure, cleaned } = self;
        if next >= steps.len() {
            return Script { steps, next, failure, cleaned };
        }
        if failure.is_some() {
            let in_cleanup = match &steps[next] {
                Step::Must { cleanup, .. } => cleaned < cleanup.len(),
                _ => false,
            };
            if in_cleanup {
                return Script { steps, next, failure, cleaned: cleaned + 1 };
            }
            return Script { steps, next, failure, cleaned };
        }
        let failed: Option<ExecError> = match &steps[next] {
            Step::Must { op, expect, error, .. } => {
                if outcome.is_as_expected(*expect) {
                    None
                } else {
                    let detail = match outcome {
                        ExecOutcome::Failed { reason } => reason,
                        _ => op.subject(),
                    };
                    Some(ExecError { kind: *error, detail })
                }
            },
            Step::Try { .. } => None,
            Step::Abort { .. } => {
                return Script { steps, next, failure, cleaned };
            },
        };
        match failed {
            Some(e) => Script { steps, next, failure: Some(e), cleaned: 0 },
            None => Script { steps, next: next + 1, failure: None, cleaned: 0 },
        }
    }

    /// How the script ended, once it has.
    pub fn result(&self) -> (r: Option<Result<(), ExecError>>)
        ensures
            match self.state() {
                ScriptState::Succeeded => r == Some(Ok::<(), ExecError>(())),
                ScriptState::Failed { kind, detail } => r is Some && r->Some_0 is Err
                    && r->Some_0->Err_0.kind == kind && r->Some_0->Err_0.detail@ == detail,
                _ => r is None,
            },
    {
        if self.request().is_some() {
            return None;
        }
        match &self.failure {
            Some(e) => Some(Err(ExecError { kind: e.kind, detail: e.detail.clone() })),
            None => {
                if self.next < self.steps.len() {
                    match &self.steps[self.next] {
                        Step::Abort { error, detail } => Some(
                            Err(ExecError { kind: *error, detail: detail.clone() }),
                        ),
                        _ => None,
                    }
                } else {
                    Some(Ok(()))
                }
            },
        }
    }
}

} // verus!
