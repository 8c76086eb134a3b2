//! The commands of the tool, as far as they decide anything: what a
//! producer of jobs makes of a media file, and what each command needs
//! before it starts.

use vstd::prelude::*;
use crate::job::{
    base_for, base_of, opt_str_view, Job, JobError, MediaFileType, PostProcessingSettings, QualityOverrides,
    QualityPreset, QualitySettings,
};
use crate::paths::{
    debug_text, extension, join, parent, path_debug, path_extension, path_join, path_parent,
    path_strip_prefix, strip_prefix,
};
use crate::config::Config;
use crate::queue::JobQueue;
use crate::text::{lowercase, lowercase_of, same_text};
use crate::worker::{WorkerAction, WorkerLoop, WorkerPhase};
use crate::JobPriority;

verus! {

/// Why a command does not run.
#[derive(Debug, PartialEq, Eq)]
pub enum CommandError {
    /// The media directory does not exist.
    MediaRootMissing { path: String },
    /// The media directory is no directory.
    NotADirectory { path: String },
    /// The file to add does not exist.
    FileMissing { path: String },
    /// The path to add is no file.
    NotAFile { path: String },
    /// The file is neither WebM nor MKV.
    UnsupportedFileType { message: String },
    /// The file's path has no directory part.
    NoParent { path: String },
    /// The file's path does not begin with its directory.
    NoRelativePath { path: String },
    /// A WebM file has no subtitle file beside it.
    MissingSubtitle { path: String },
}

/// What a command finds at a path.
#[derive(Debug, Clone, Copy, PartialEq, Eq, Structural)]
pub struct PathProbe {
    pub exists: bool,
    pub is_dir: bool,
    pub is_file: bool,
}

/// A command that works on a media directory needs the directory to be
/// there: it must exist, and it must be a directory.
pub fn check_media_root(media_root: &str, probe: PathProbe) -> (r: Result<(), CommandError>)
    ensures
        match r {
            Ok(_) => probe.exists && probe.is_dir,
            Err(CommandError::MediaRootMissing { path }) => !probe.exists && path@ == media_root@,
            Err(CommandError::NotADirectory { path }) => probe.exists && !probe.is_dir && path@
                == media_root@,
            Err(_) => false,
        },
{
    if !probe.exists {
        Err(CommandError::MediaRootMissing { path: String::from_str(media_root) })
    } else if !probe.is_dir {
        Err(CommandError::NotADirectory { path: String::from_str(media_root) })
    } else {
        Ok(())
    }
}

/// The settings that a producer gives to the jobs it makes.
#[derive(Debug, PartialEq, Eq)]
pub struct JobProcessorConfig {
    pub quality_settings: QualitySettings,
    pub post_processing: PostProcessingSettings,
}

impl JobProcessorConfig {
    /// The settings of the named preset, or those of the environment where
    /// no preset is named; source files are put away after a conversion.
    pub fn from_preset(preset: Option<&str>, env: &QualityOverrides) -> (r: Result<Self, JobError>)
        ensures
            match preset {
                Some(name) => match QualityPreset::named(name@) {
                    Some(p) => r is Ok && r->Ok_0.quality_settings.triple()
                        == QualitySettings::with_overrides(p.settings(), *env),
                    None => r is Err && r->Err_0 is UnknownPreset && r->Err_0->name@ == name@,
                },
                None => r is Ok && r->Ok_0.quality_settings.triple()
                    == QualitySettings::with_overrides(QualityPreset::Fast.settings(), *env),
            },
            r is Ok ==> r->Ok_0.post_processing.disable_source_files,
    {
        let quality_settings = match preset {
            Some(preset_name) => match QualitySettings::from_preset_name(preset_name, env) {
                Ok(q) => q,
                Err(e) => {
                    return Err(e);
                },
            },
            None => QualitySettings::from_env(env),
        };
        Ok(
            JobProcessorConfig {
                quality_settings,
                post_processing: PostProcessingSettings { disable_source_files: true },
            },
        )
    }
}

/// What came of a media file.
#[derive(Debug, Clone, Copy, PartialEq, Eq, Structural)]
pub enum JobProcessResult {
    /// A job is to be enqueued for it.
    Created,
    /// Its output exists already.
    OutputExists,
    /// Its job is in the queue already.
    AlreadyQueued,
    /// It is a WebM file without its subtitle file.
    MissingSubtitle,
}

/// How loud a message is.
#[derive(Debug, Clone, Copy, PartialEq, Eq, Structural)]
pub enum LogLevel {
    Info,
    Warn,
}

/// A message for the log.
#[derive(Debug, PartialEq, Eq)]
pub struct LogLine {
    pub level: LogLevel,
    pub message: String,
}

/// What the producers of jobs share.
#[derive(Debug)]
pub struct JobProcessor<'a> {
    pub queue: &'a JobQueue,
    pub config: &'a JobProcessorConfig,
    pub media_root: &'a str,
}

/// What is said of a media file whose extension is neither `webm` nor
/// `mkv`; `quoted` is the file's path in quotes.
pub open spec fn unsupported_message(quoted: Seq<char>) -> Seq<char> {
    "Unsupported file type. Only .webm and .mkv files are supported. Got: "@ + quoted
}

/// What is said of a media file without an extension; `quoted` is the
/// file's path in quotes.
pub open spec fn no_extension_message(quoted: Seq<char>) -> Seq<char> {
    "File has no extension. Only .webm and .mkv files are supported: "@ + quoted
}

/// What is wrong with a media file whose type is not known: it has an
/// extension that is not supported, or it has none.
pub fn file_type_error(has_extension: bool, quoted: &str) -> (r: String)
    ensures
        r@ == if has_extension {
            unsupported_message(quoted@)
        } else {
            no_extension_message(quoted@)
        },
{
    if has_extension {
        String::from_str(
            "Unsupported file type. Only .webm and .mkv files are supported. Got: ",
        ).concat(quoted)
    } else {
        String::from_str("File has no extension. Only .webm and .mkv files are supported: ").concat(
            quoted,
        )
    }
}

/// The type of the media files with the extension `lower`, letter for
/// letter: `webm` or `mkv`.
pub open spec fn file_type_in_lowercase(lower: Seq<char>) -> Option<MediaFileType> {
    if lower == "webm"@ {
        Some(MediaFileType::WebM)
    } else if lower == "mkv"@ {
        Some(MediaFileType::Mkv)
    } else {
        None
    }
}

/// Computes `file_type_in_lowercase`.
pub fn file_type_of_lowercase(ext: &str) -> (r: Option<MediaFileType>)
    ensures
        r == file_type_in_lowercase(ext@),
{
    if same_text(ext, "webm") {
        Some(MediaFileType::WebM)
    } else if same_text(ext, "mkv") {
        Some(MediaFileType::Mkv)
    } else {
        None
    }
}

/// The type of a media file by its extension, without regard to case.
pub open spec fn file_type_of(path: Seq<char>) -> Result<MediaFileType, Seq<char>> {
    match path_extension(path) {
        Some(ext) => match file_type_in_lowercase(lowercase_of(ext)) {
            Some(file_type) => Ok(file_type),
            None => Err(unsupported_message(path_debug(path))),
        },
        None => Err(no_extension_message(path_debug(path))),
    }
}

/// What came of a media file, as the checks say in their order: the
/// output is there; the job is queued; the subtitles that a WebM job needs
/// are missing; else a job is to be enqueued.
pub open spec fn media_file_result(
    job: Job,
    output_exists: bool,
    already_queued: bool,
    subtitle_present: bool,
) -> Result<JobProcessResult, JobError> {
    if output_exists {
        Ok(JobProcessResult::OutputExists)
    } else if already_queued {
        Ok(JobProcessResult::AlreadyQueued)
    } else if job.file_type == MediaFileType::WebM {
        if job.subtitle_path is None {
            Err(JobError::MissingSubtitlePath)
        } else if !subtitle_present {
            Ok(JobProcessResult::MissingSubtitle)
        } else {
            Ok(JobProcessResult::Created)
        }
    } else {
        Ok(JobProcessResult::Created)
    }
}

impl<'a> JobProcessor<'a> {
    /// A processor for one queue and one media root.
    pub fn new(queue: &'a JobQueue, config: &'a JobProcessorConfig, media_root: &'a str) -> (r:
        Self)
        ensures
            r.queue == queue,
            r.config == config,
            r.media_root == media_root,
    {
        JobProcessor { queue, config, media_root }
    }

    /// The job for a media file under the media root, with the producer's
    /// settings and a fresh identifier.
    pub fn create_job(&self, relative_path: &str, file_type: MediaFileType) -> (job: Job)
        ensures
            job.describes(
                job.id@,
                relative_path@,
                file_type,
                self.config.quality_settings,
                self.config.post_processing,
                self.media_root@,
            ),
    {
        Job::new(
            String::from_str(relative_path),
            file_type,
            self.config.quality_settings.clone(),
            self.config.post_processing,
            self.media_root,
        )
    }

    /// What is to come of a media file, given its job, whether its output
    /// exists, the names listed in `pending`, and whether its subtitle
    /// file is there. Only `Created` asks for the job to be enqueued.
    pub fn process_media_file(
        &self,
        job: &Job,
        output_exists: bool,
        pending: &Vec<String>,
        subtitle_present: bool,
    ) -> (r: Result<JobProcessResult, JobError>)
        ensures
            r == media_file_result(
                *job,
                output_exists,
                exists|i: int|
                    0 <= i < pending@.len() && (#[trigger] pending@[i])@ == job.record_name(),
                subtitle_present,
            ),
    {
        if output_exists {
            return Ok(JobProcessResult::OutputExists);
        }
        if self.queue.job_exists(job, pending) {
            return Ok(JobProcessResult::AlreadyQueued);
        }
        if job.file_type == MediaFileType::WebM {
            match job.has_required_subtitle(subtitle_present) {
                Ok(present) => {
                    if !present {
                        return Ok(JobProcessResult::MissingSubtitle);
                    }
                },
                Err(e) => {
                    return Err(e);
                },
            }
        }
        Ok(JobProcessResult::Created)
    }

    /// What a scan says of a media file; `quoted` is the file's path in
    /// quotes.
    pub open spec fn result_line(
        quoted: Seq<char>,
        file_type: MediaFileType,
        result: JobProcessResult,
    ) -> Option<(LogLevel, Seq<char>)> {
        match result {
            JobProcessResult::Created => Some(
                (
                    LogLevel::Info,
                    "➕ Queueing job for: "@ + quoted + match file_type {
                        MediaFileType::WebM => Seq::empty(),
                        MediaFileType::Mkv => " (embedded subs assumed)"@,
                    },
                ),
            ),
            JobProcessResult::MissingSubtitle => Some(
                (LogLevel::Warn, "⚠️ SKIPPING: Missing subtitle file for '"@ + quoted + "'"@),
            ),
            _ => None,
        }
    }

    /// The message for what came of a media file, given the file's path in
    /// quotes: a note for a job created, a warning for subtitles missing,
    /// nothing else.
    pub fn result_message(quoted: &str, file_type: MediaFileType, result: JobProcessResult) -> (r:
        Option<LogLine>)
        ensures
            match Self::result_line(quoted@, file_type, result) {
                Some((level, message)) => r is Some && r->Some_0.level == level
                    && r->Some_0.message@ == message,
                None => r is None,
            },
    {
        match result {
            JobProcessResult::Created => {
                let head = String::from_str("➕ Queueing job for: ").concat(quoted);
                let message = match file_type {
                    MediaFileType::WebM => {
                        assert(head@ + Seq::<char>::empty() =~= head@);
                        head
                    },
                    MediaFileType::Mkv => head.concat(" (embedded subs assumed)"),
                };
                Some(LogLine { level: LogLevel::Info, message })
            },
            JobProcessResult::MissingSubtitle => Some(
                LogLine {
                    level: LogLevel::Warn,
                    message: String::from_str("⚠️ SKIPPING: Missing subtitle file for '").concat(
                        quoted,
                    ).concat("'"),
                },
            ),
            _ => None,
        }
    }

    /// The message with which a scan reports what came of a media file.
    pub fn log_result(
        &self,
        relative_path: &str,
        file_type: &MediaFileType,
        result: &JobProcessResult,
    ) -> (r: Option<LogLine>)
        ensures
            match Self::result_line(path_debug(relative_path@), *file_type, *result) {
                Some((level, message)) => r is Some && r->Some_0.level == level
                    && r->Some_0.message@ == message,
                None => r is None,
            },
    {
        Self::result_message(debug_text(relative_path).as_str(), *file_type, *result)
    }

    /// The type of a media file by its extension, or what is wrong with
    /// it.
    pub fn determine_file_type(file_path: &str) -> (r: Result<MediaFileType, String>)
        ensures
            match file_type_of(file_path@) {
                Ok(t) => r == Ok::<MediaFileType, String>(t),
                Err(message) => r is Err && r->Err_0@ == message,
            },
    {
        match extension(file_path) {
            Some(ext) => match file_type_of_lowercase(lowercase(ext.as_str()).as_str()) {
                Some(file_type) => Ok(file_type),
                None => Err(file_type_error(true, debug_text(file_path).as_str())),
            },
            None => Err(file_type_error(false, debug_text(file_path).as_str())),
        }
    }
}

/// Makes a job for a single media file.
#[derive(Debug, PartialEq, Eq)]
pub struct AddCommand {
    pub file_path: String,
    pub work_root: String,
    pub preset: Option<String>,
}

/// What an add command works with: the type of the file, the directory
/// that holds it, which is the media root of its job, and the file's path
/// under that directory.
#[derive(Debug, PartialEq, Eq)]
pub struct AddPlan {
    pub file_type: MediaFileType,
    pub media_root: String,
    pub relative_path: String,
}

impl AddCommand {
    /// A command for one file.
    pub fn new(file_path: String, work_root: String, preset: Option<String>) -> (r: Self)
        ensures
            r.file_path == file_path,
            r.work_root == work_root,
            r.preset == preset,
    {
        AddCommand { file_path, work_root, preset }
    }

    /// What the command works with, or why it does not run: the file must
    /// exist and be a file, of a supported type, in some directory.
    pub fn prepare(&self, probe: PathProbe) -> (r: Result<AddPlan, CommandError>)
        ensures
            !probe.exists ==> r is Err && r->Err_0 is FileMissing && r->Err_0->FileMissing_path@
                == self.file_path@,
            probe.exists && !probe.is_file ==> r is Err && r->Err_0 is NotAFile
                && r->Err_0->NotAFile_path@ == self.file_path@,
            probe.exists && probe.is_file ==> match file_type_of(self.file_path@) {
                Err(message) => r is Err && r->Err_0 is UnsupportedFileType
                    && r->Err_0->UnsupportedFileType_message@ == message,
                Ok(file_type) => match path_parent(self.file_path@) {
                    None => r is Err && r->Err_0 is NoParent && r->Err_0->NoParent_path@
                        == self.file_path@,
                    Some(root) => match path_strip_prefix(self.file_path@, root) {
                        None => r is Err && r->Err_0 is NoRelativePath
                            && r->Err_0->NoRelativePath_path@ == self.file_path@,
                        Some(relative) => r is Ok && r->Ok_0.file_type == file_type
                            && r->Ok_0.media_root@ == root && r->Ok_0.relative_path@ == relative,
                    },
                },
            },
    {
        if !probe.exists {
            return Err(CommandError::FileMissing { path: self.file_path.clone() });
        }
        if !probe.is_file {
            return Err(CommandError::NotAFile { path: self.file_path.clone() });
        }
        let file_type = match JobProcessor::determine_file_type(self.file_path.as_str()) {
            Ok(t) => t,
            Err(message) => {
                return Err(CommandError::UnsupportedFileType { message });
            },
        };
        let media_root = match parent(self.file_path.as_str()) {
            Some(p) => p,
            None => {
                return Err(CommandError::NoParent { path: self.file_path.clone() });
            },
        };
        let relative_path = match strip_prefix(self.file_path.as_str(), media_root.as_str()) {
            Some(p) => p,
            None => {
                return Err(CommandError::NoRelativePath { path: self.file_path.clone() });
            },
        };
        Ok(AddPlan { file_type, media_root, relative_path })
    }

    /// The queue that the job goes to, for the media root of the plan.
    pub fn queue(&self, plan: &AddPlan) -> (q: JobQueue)
        ensures
            q.rooted_at(plan.media_root@, self.work_root@),
    {
        JobQueue::new(plan.media_root.clone(), self.work_root.clone())
    }

    /// What the command comes to: an error where the file's subtitles are
    /// missing, success for every other result.
    pub fn conclude(&self, result: JobProcessResult) -> (r: Result<(), CommandError>)
        ensures
            result == JobProcessResult::MissingSubtitle ==> r is Err && r->Err_0 is MissingSubtitle
                && r->Err_0->MissingSubtitle_path@ == self.file_path@,
            result != JobProcessResult::MissingSubtitle ==> r is Ok,
    {
        match result {
            JobProcessResult::MissingSubtitle => Err(
                CommandError::MissingSubtitle { path: self.file_path.clone() },
            ),
            _ => Ok(()),
        }
    }
}

/// Scans a media directory and makes jobs for what it finds.
#[derive(Debug, PartialEq, Eq)]
pub struct ScanCommand {
    pub media_root: String,
    pub work_root: String,
    pub preset: Option<String>,
}

impl ScanCommand {
    /// A command for one media directory.
    pub fn new(media_root: String, work_root: String, preset: Option<String>) -> (r: Self)
        ensures
            r.media_root == media_root,
            r.work_root == work_root,
            r.preset == preset,
    {
        ScanCommand { media_root, work_root, preset }
    }

    /// The queue that the scan fills.
    pub fn queue(&self) -> (q: JobQueue)
        ensures
            q.rooted_at(self.media_root@, self.work_root@),
    {
        JobQueue::new(self.media_root.clone(), self.work_root.clone())
    }

    /// The settings of the jobs that the scan makes: those of the
    /// command's preset, or of the environment where it names none.
    pub fn job_settings(&self, env: &QualityOverrides) -> (r: Result<JobProcessorConfig, JobError>)
        ensures
            match self.preset {
                Some(name) => match QualityPreset::named(name@) {
                    Some(p) => r is Ok && r->Ok_0.quality_settings.triple()
                        == QualitySettings::with_overrides(p.settings(), *env),
                    None => r is Err && r->Err_0 is UnknownPreset && r->Err_0->name@ == name@,
                },
                None => r is Ok && r->Ok_0.quality_settings.triple()
                    == QualitySettings::with_overrides(QualityPreset::Fast.settings(), *env),
            },
            r is Ok ==> r->Ok_0.post_processing.disable_source_files,
    {
        match &self.preset {
            Some(name) => JobProcessorConfig::from_preset(Some(name.as_str()), env),
            None => JobProcessorConfig::from_preset(None, env),
        }
    }
}

/// Removes the queue's directories and the worker's log.
#[derive(Debug, PartialEq, Eq)]
pub struct CleanCommand {
    pub media_root: String,
}

impl CleanCommand {
    /// A command for one media directory.
    pub fn new(media_root: String) -> (r: Self)
        ensures
            r.media_root == media_root,
    {
        CleanCommand { media_root }
    }

    /// The queue that the command removes: the one that stands in the
    /// media directory itself.
    pub fn queue(&self) -> (q: JobQueue)
        ensures
            q.rooted_at(self.media_root@, self.media_root@),
    {
        JobQueue::new(self.media_root.clone(), self.media_root.clone())
    }

    /// Where a worker's log stands, to be removed with the queue.
    pub fn worker_log_path(&self) -> (r: String)
        ensures
            r@ == path_join(self.media_root@, "_worker.log"@),
    {
        join(self.media_root.as_str(), "_worker.log")
    }
}

/// Works through the jobs of a queue.
#[derive(Debug, PartialEq, Eq)]
pub struct WorkCommand {
    pub media_root: String,
    pub work_root: String,
    pub background_mode: bool,
    pub priority_mode: JobPriority,
}

impl WorkCommand {
    /// A command for one media directory and one queue.
    pub fn new(
        media_root: String,
        work_root: String,
        background_mode: bool,
        priority_mode: JobPriority,
    ) -> (r: Self)
        ensures
            r.media_root == media_root,
            r.work_root == work_root,
            r.background_mode == background_mode,
            r.priority_mode == priority_mode,
    {
        WorkCommand { media_root, work_root, background_mode, priority_mode }
    }

    /// The queue that the worker takes its jobs from.
    pub fn queue(&self) -> (q: JobQueue)
        ensures
            q.rooted_at(self.media_root@, self.work_root@),
    {
        JobQueue::new(self.media_root.clone(), self.work_root.clone())
    }

    /// Starts the worker's loop, or says why the command does not run: the
    /// media directory must be there. The loop begins at its top, with the
    /// command's priority and the idle sleep of `config`.
    pub fn start(&self, probe: PathProbe, config: &Config) -> (r: Result<
        (WorkerLoop, WorkerAction),
        CommandError,
    >)
        ensures
            probe.exists && probe.is_dir ==> r == Ok::<(WorkerLoop, WorkerAction), CommandError>(
                (
                    WorkerLoop {
                        priority: self.priority_mode,
                        sleep_interval: config.sleep_interval,
                        phase: WorkerPhase::Polling,
                    },
                    WorkerAction::CheckCancelled,
                ),
            ),
            !probe.exists ==> r is Err && r->Err_0 is MediaRootMissing
                && r->Err_0->MediaRootMissing_path@ == self.media_root@,
            probe.exists && !probe.is_dir ==> r is Err && r->Err_0 is NotADirectory
                && r->Err_0->NotADirectory_path@ == self.media_root@,
    {
        match check_media_root(self.media_root.as_str(), probe) {
            Ok(_) => Ok(WorkerLoop::start(self.priority_mode, config.sleep_interval)),
            Err(e) => Err(e),
        }
    }

    /// What the worker calls itself.
    pub fn mode_name(&self) -> (r: &'static str)
        ensures
            r@ == if self.background_mode {
                "Low Priority Worker"@
            } else {
                "Power Worker (Foreground)"@
            },
    {
        if self.background_mode {
            "Low Priority Worker"
        } else {
            "Power Worker (Foreground)"
        }
    }

    /// The media root against which a job's paths are taken: none for a
    /// job that names its input by an absolute path, else the worker's.
    pub fn job_media_root(&self, job: &Job) -> (r: Option<&str>)
        ensures
            opt_str_view(r) == base_of(
                crate::paths::path_is_absolute(job.input_path@),
                Some(self.media_root@),
            ),
    {
        base_for(crate::paths::is_absolute(job.input_path.as_str()), Some(self.media_root.as_str()))
    }
}

} // verus!
