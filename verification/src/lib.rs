//! Building blocks of a distributed media-transcoding pipeline: the job
//! record, the directory-backed queue protocol, the priority selector, the
//! resumable executor and the worker loop, each as verified code.
//!
//! The library touches neither the filesystem nor any process. Where work
//! has to be done outside (a directory listed, a record renamed, the encoder
//! run), the library names the operation, its driver performs it and reports
//! how it went, and the library decides what comes next.
//!
//! - `job`, `episode`: the job record and the metadata read from its path.
//! - `queue`, `queue_model`: enqueue, claim, complete and return, and the
//!   laws of the protocol.
//! - `priority`: the order in which pending jobs are tried.
//! - `ffmpeg`, `script`: the scripts of a fresh and of a resumed attempt,
//!   and how a script is carried out.
//! - `worker`, `commands`, `config`: the worker loop and what the commands
//!   decide.
//! - `paths`, `text`, `naming`, `ignore`: paths as text, numbers and white
//!   space, and two helpers of the producers of jobs.

use vstd::prelude::*;

pub mod commands;
pub mod config;
pub mod episode;
pub mod ffmpeg;
pub mod ignore;
pub mod job;
pub mod naming;
pub mod paths;
pub mod priority;
pub mod queue;
pub mod queue_model;
pub mod script;
pub mod text;
pub mod worker;

verus! {

/// How a worker chooses among pending jobs.
#[derive(Debug, Clone, Copy, PartialEq, Eq, Structural)]
pub enum JobPriority {
    /// No prioritization: jobs are tried in the order of the listing.
    Unordered,
    /// Episodes first, each series in order.
    Episode,
}

} // verus!
