//! The job record: one unit of transcode work with fixed input and output
//! paths, the encoder settings it was created with, and the transient resume
//! progress that the executor fills in while it handles the job.

use vstd::prelude::*;
use crate::episode::{metadata_of, opt_episode_view, EpisodeMetadata};
use crate::paths::{
    extension, file_name, file_stem, is_absolute, join, opt_view, path_extension, path_file_name,
    path_file_stem, path_is_absolute, path_join, path_with_extension, with_extension,
};
use crate::script::{ExecOp, ExecOpView};
use crate::text::{lowercase, lowercase_of, same_text};

verus! {

/// Supported media file types.
#[derive(Debug, Clone, Copy, PartialEq, Eq, Structural)]
pub enum MediaFileType {
    /// WebM file with a subtitle file beside it.
    WebM,
    /// MKV file with embedded subtitles.
    Mkv,
}

/// Encoder settings, passed to the encoder as they are.
#[derive(Debug, PartialEq, Eq)]
pub struct QualitySettings {
    pub ffmpeg_preset: String,
    pub ffmpeg_crf: String,
    pub ffmpeg_audio_bitrate: String,
}

/// Predefined quality presets.
#[derive(Debug, Clone, Copy, PartialEq, Eq, Structural)]
pub enum QualityPreset {
    /// Fast encoding with good quality.
    Fast,
    /// Balanced encoding speed and quality.
    Balanced,
    /// High quality, slower encoding.
    Quality,
    /// Quickest encoding, for previews.
    UltraFast,
    /// Archive quality for long-term storage.
    Archive,
}

/// What to do with the source files after a successful conversion.
#[derive(Debug, Clone, Copy, PartialEq, Eq, Structural)]
pub struct PostProcessingSettings {
    pub disable_source_files: bool,
}

/// Values of the three settings as the process environment gives them, each
/// absent when its variable is not set.
#[derive(Debug, PartialEq, Eq)]
pub struct QualityOverrides {
    pub ffmpeg_preset: Option<String>,
    pub ffmpeg_crf: Option<String>,
    pub ffmpeg_audio_bitrate: Option<String>,
}

/// Resume state of one attempt, found again by probing the work folder each
/// time a worker takes the job.
#[derive(Debug, PartialEq, Eq)]
pub struct JobProgress {
    pub started: bool,
    pub partial_output_path: Option<String>,
    /// Length of the partial output, in microseconds.
    pub partial_duration_micros: Option<u64>,
}

/// A media file that needs to be transcoded.
#[derive(Debug, PartialEq, Eq)]
pub struct Job {
    pub id: String,
    pub input_path: String,
    pub output_path: String,
    pub subtitle_path: Option<String>,
    pub file_type: MediaFileType,
    pub quality_settings: QualitySettings,
    pub post_processing: PostProcessingSettings,
    pub progress: JobProgress,
}

/// Why a job or a setting could not be used.
#[derive(Debug, PartialEq, Eq)]
pub enum JobError {
    /// No preset has this name.
    UnknownPreset { name: String },
    /// A WebM job carries no subtitle path.
    MissingSubtitlePath,
}

/// A copy of an optional string.
pub fn clone_opt(s: &Option<String>) -> (r: Option<String>)
    ensures
        r == *s,
{
    match s {
        Some(t) => Some(t.clone()),
        None => None,
    }
}

impl Clone for QualitySettings {
    fn clone(&self) -> (r: Self)
        ensures
            r == *self,
    {
        QualitySettings {
            ffmpeg_preset: self.ffmpeg_preset.clone(),
            ffmpeg_crf: self.ffmpeg_crf.clone(),
            ffmpeg_audio_bitrate: self.ffmpeg_audio_bitrate.clone(),
        }
    }
}

impl Clone for JobProgress {
    fn clone(&self) -> (r: Self)
        ensures
            r == *self,
    {
        JobProgress {
            started: self.started,
            partial_output_path: clone_opt(&self.partial_output_path),
            partial_duration_micros: self.partial_duration_micros,
        }
    }
}

impl Clone for Job {
    fn clone(&self) -> (r: Self)
        ensures
            r == *self,
    {
        Job {
            id: self.id.clone(),
            input_path: self.input_path.clone(),
            output_path: self.output_path.clone(),
            subtitle_path: clone_opt(&self.subtitle_path),
            file_type: self.file_type,
            quality_settings: self.quality_settings.clone(),
            post_processing: self.post_processing,
            progress: self.progress.clone(),
        }
    }
}

/// A fresh identifier is 36 characters: lower-case hexadecimal digits in
/// groups of 8, 4, 4, 4 and 12, with a hyphen between groups.
pub open spec fn is_job_id(id: Seq<char>) -> bool {
    &&& id.len() == 36
    &&& forall|i: int|
        0 <= i < 36 ==> if i == 8 || i == 13 || i == 18 || i == 23 {
            id[i] == '-'
        } else {
            ('0' <= #[trigger] id[i] <= '9') || ('a' <= id[i] <= 'f')
        }
}

/// Trusted: `uuid::Uuid::new_v4`, written out by its `Display`. Every outcome
/// is a hyphenated lower-case identifier; which one is left open. The call
/// gives up only where the system's random source does.
#[verifier::external_body]
fn fresh_id() -> (r: String)
    ensures
        is_job_id(r@),
{
    uuid::Uuid::new_v4().to_string()
}

/// The root that a path is taken against: none for an absolute path, else
/// the root that is given, if any.
pub open spec fn base_of(absolute: bool, root: Option<Seq<char>>) -> Option<Seq<char>> {
    if absolute {
        None
    } else {
        root
    }
}

/// `path` taken against `root`: itself when it is absolute or there is no
/// root, else joined to the root.
pub open spec fn resolved(path: Seq<char>, root: Option<Seq<char>>) -> Seq<char> {
    match base_of(path_is_absolute(path), root) {
        Some(r) => path_join(r, path),
        None => path,
    }
}

/// Computes `base_of`.
pub fn base_for<'a>(absolute: bool, root: Option<&'a str>) -> (r: Option<&'a str>)
    ensures
        opt_str_view(r) == base_of(absolute, opt_str_view(root)),
{
    if absolute {
        None
    } else {
        root
    }
}

/// The view of an optional string slice.
pub open spec fn opt_str_view(s: Option<&str>) -> Option<Seq<char>> {
    match s {
        Some(s) => Some(s@),
        None => None,
    }
}

/// Computes `resolved`.
pub fn resolve(path: &str, root: Option<&str>) -> (r: String)
    ensures
        r@ == resolved(path@, opt_str_view(root)),
{
    match base_for(is_absolute(path), root) {
        Some(root) => join(root, path),
        None => String::from_str(path),
    }
}

/// The file name of a job's output in a work folder: the identifier, an
/// underscore and the output's file name, or `output.mp4` where the output
/// has none.
pub open spec fn work_name_of(id: Seq<char>, output_name: Option<Seq<char>>) -> Seq<char> {
    id + "_"@ + match output_name {
        Some(name) => name,
        None => "output.mp4"@,
    }
}

/// Computes `work_name_of`.
pub fn work_name_for(id: &str, output_name: &Option<String>) -> (r: String)
    ensures
        r@ == work_name_of(id@, opt_view(*output_name)),
{
    let head = String::from_str(id).concat("_");
    match output_name {
        Some(name) => head.concat(name.as_str()),
        None => head.concat("output.mp4"),
    }
}

/// The record name made from a file stem: the stem, or `unknown` where
/// there is none, with `.job` after it.
pub open spec fn record_name_of_stem(stem: Option<Seq<char>>) -> Seq<char> {
    (match stem {
        Some(stem) => stem,
        None => "unknown"@,
    }) + ".job"@
}

/// Computes `record_name_of_stem`.
pub fn record_name_for_stem(stem: &Option<String>) -> (r: String)
    ensures
        r@ == record_name_of_stem(opt_view(*stem)),
{
    match stem {
        Some(stem) => stem.clone().concat(".job"),
        None => String::from_str("unknown").concat(".job"),
    }
}

impl JobProgress {
    /// Nothing started, nothing found.
    pub open spec fn is_fresh(self) -> bool {
        !self.started && self.partial_output_path is None && self.partial_duration_micros is None
    }

    /// The progress of a job that no attempt has touched.
    pub fn fresh() -> (r: Self)
        ensures
            r.is_fresh(),
    {
        JobProgress { started: false, partial_output_path: None, partial_duration_micros: None }
    }
}

impl Job {
    /// What `new` builds from its arguments once the identifier is known.
    pub open spec fn describes(
        self,
        id: Seq<char>,
        input_path: Seq<char>,
        file_type: MediaFileType,
        quality_settings: QualitySettings,
        post_processing: PostProcessingSettings,
        media_root: Seq<char>,
    ) -> bool {
        &&& self.id@ == id
        &&& self.input_path@ == resolved(input_path, Some(media_root))
        &&& self.output_path@ == path_with_extension(self.input_path@, "mp4"@)
        &&& opt_view(self.subtitle_path) == match file_type {
            MediaFileType::WebM => Some(path_with_extension(self.input_path@, "vtt"@)),
            MediaFileType::Mkv => None,
        }
        &&& self.file_type == file_type
        &&& self.quality_settings == quality_settings
        &&& self.post_processing == post_processing
        &&& self.progress.is_fresh()
    }

    /// A job for a media file under a given identifier. A relative input path
    /// is taken against `media_root`; the output is the input with the
    /// extension `mp4`, and a WebM job expects its subtitles beside the input
    /// with the extension `vtt`.
    pub fn with_id(
        id: String,
        input_path: String,
        file_type: MediaFileType,
        quality_settings: QualitySettings,
        post_processing: PostProcessingSettings,
        media_root: &str,
    ) -> (job: Self)
        ensures
            job.describes(
                id@,
                input_path@,
                file_type,
                quality_settings,
                post_processing,
                media_root@,
            ),
    {
        let absolute_input_path = resolve(input_path.as_str(), Some(media_root));
        proof {
            reveal_strlit("mp4");
            reveal_strlit("vtt");
        }
        let output_path = with_extension(absolute_input_path.as_str(), "mp4");
        let subtitle_path = match file_type {
            MediaFileType::WebM => Some(with_extension(absolute_input_path.as_str(), "vtt")),
            MediaFileType::Mkv => None,
        };
        Job {
            id,
            input_path: absolute_input_path,
            output_path,
            subtitle_path,
            file_type,
            quality_settings,
            post_processing,
            progress: JobProgress::fresh(),
        }
    }

    /// A new job for a media file, under a fresh random identifier.
    pub fn new(
        input_path: String,
        file_type: MediaFileType,
        quality_settings: QualitySettings,
        post_processing: PostProcessingSettings,
        media_root: &str,
    ) -> (job: Self)
        ensures
            is_job_id(job.id@),
            job.describes(
                job.id@,
                input_path@,
                file_type,
                quality_settings,
                post_processing,
                media_root@,
            ),
    {
        Job::with_id(
            fresh_id(),
            input_path,
            file_type,
            quality_settings,
            post_processing,
            media_root,
        )
    }

    /// Name of the job's record in a queue directory: the identifier with
    /// `.job` after it.
    pub open spec fn record_name(self) -> Seq<char> {
        self.id@ + ".job"@
    }

    /// The name of the job's record in a queue directory.
    pub fn job_filename(&self) -> (r: String)
        ensures
            r@ == self.record_name(),
    {
        self.id.clone().concat(".job")
    }

    /// The operation that tells whether the job's output exists already:
    /// a look at the output path, taken against `media_root` when it is
    /// relative.
    pub fn output_exists(&self, media_root: Option<&str>) -> (op: ExecOp)
        ensures
            op@ == (ExecOpView::Exists {
                path: resolved(self.output_path@, opt_str_view(media_root)),
            }),
    {
        ExecOp::Exists { path: self.full_output_path(media_root) }
    }

    /// Whether the subtitle file that the job needs is there, given whether a
    /// file exists at `full_subtitle_path`. An MKV job needs none; a WebM job
    /// without a subtitle path is an error.
    pub fn has_required_subtitle(&self, subtitle_present: bool) -> (r: Result<bool, JobError>)
        ensures
            r == match self.file_type {
                MediaFileType::Mkv => Ok::<bool, JobError>(true),
                MediaFileType::WebM => if self.subtitle_path is Some {
                    Ok(subtitle_present)
                } else {
                    Err(JobError::MissingSubtitlePath)
                },
            },
    {
        match self.file_type {
            MediaFileType::WebM => {
                if self.subtitle_path.is_some() {
                    Ok(subtitle_present)
                } else {
                    Err(JobError::MissingSubtitlePath)
                }
            },
            MediaFileType::Mkv => Ok(true),
        }
    }

    /// The input path, taken against `media_root` when it is relative.
    pub fn full_input_path(&self, media_root: Option<&str>) -> (r: String)
        ensures
            r@ == resolved(self.input_path@, opt_str_view(media_root)),
    {
        resolve(self.input_path.as_str(), media_root)
    }

    /// The output path, taken against `media_root` when it is relative.
    pub fn full_output_path(&self, media_root: Option<&str>) -> (r: String)
        ensures
            r@ == resolved(self.output_path@, opt_str_view(media_root)),
    {
        resolve(self.output_path.as_str(), media_root)
    }

    /// File name of the job's output inside a work folder: the identifier, an
    /// underscore and the output's file name (`output.mp4` where the output
    /// path has none).
    pub open spec fn work_file_name(self) -> Seq<char> {
        work_name_of(self.id@, path_file_name(self.output_path@))
    }

    /// Where the job's output is written while it is being transcoded.
    pub fn work_folder_output_path(&self, work_folder: &str) -> (r: String)
        ensures
            r@ == path_join(work_folder@, self.work_file_name()),
    {
        let work_name = work_name_for(self.id.as_str(), &file_name(self.output_path.as_str()));
        join(work_folder, work_name.as_str())
    }

    /// The subtitle path, if the job has one, taken against `media_root` when
    /// it is relative.
    pub fn full_subtitle_path(&self, media_root: Option<&str>) -> (r: Option<String>)
        ensures
            opt_view(r) == match self.subtitle_path {
                Some(path) => Some(resolved(path@, opt_str_view(media_root))),
                None => None,
            },
    {
        match &self.subtitle_path {
            Some(path) => Some(resolve(path.as_str(), media_root)),
            None => None,
        }
    }

    /// A record name made from the input's file stem (`unknown` where the
    /// input path has none), with `.job` after it.
    pub fn job_filename_from_source(&self) -> (r: String)
        ensures
            r@ == record_name_of_stem(path_file_stem(self.input_path@)),
    {
        record_name_for_stem(&file_stem(self.input_path.as_str()))
    }

    /// Series, season and episode of the job's input, where its path has the
    /// layout of an episode.
    pub fn extract_episode_metadata(&self) -> (r: Option<EpisodeMetadata>)
        ensures
            opt_episode_view(r) == metadata_of(self.input_path@),
    {
        EpisodeMetadata::of_path(self.input_path.as_str())
    }

    /// The extension of the job's input file.
    pub fn input_extension(&self) -> (r: Option<String>)
        ensures
            opt_view(r) == path_extension(self.input_path@),
    {
        extension(self.input_path.as_str())
    }
}

impl QualityOverrides {
    /// No variable set.
    pub fn none() -> (r: Self)
        ensures
            r.ffmpeg_preset is None,
            r.ffmpeg_crf is None,
            r.ffmpeg_audio_bitrate is None,
    {
        QualityOverrides { ffmpeg_preset: None, ffmpeg_crf: None, ffmpeg_audio_bitrate: None }
    }
}

/// The override where there is one, else the base value.
pub open spec fn overridden(value: Option<String>, base: Seq<char>) -> Seq<char> {
    match value {
        Some(v) => v@,
        None => base,
    }
}

fn pick(value: &Option<String>, base: String) -> (r: String)
    ensures
        r@ == overridden(*value, base@),
{
    match value {
        Some(v) => v.clone(),
        None => base,
    }
}

impl QualitySettings {
    /// The three settings as text.
    pub open spec fn triple(self) -> (Seq<char>, Seq<char>, Seq<char>) {
        (self.ffmpeg_preset@, self.ffmpeg_crf@, self.ffmpeg_audio_bitrate@)
    }

    /// `base` with each setting replaced where an override is present.
    pub open spec fn with_overrides(
        base: (Seq<char>, Seq<char>, Seq<char>),
        overrides: QualityOverrides,
    ) -> (Seq<char>, Seq<char>, Seq<char>) {
        (
            overridden(overrides.ffmpeg_preset, base.0),
            overridden(overrides.ffmpeg_crf, base.1),
            overridden(overrides.ffmpeg_audio_bitrate, base.2),
        )
    }

    /// Settings from the environment's values, with the defaults of the fast
    /// preset where a variable is not set.
    pub fn from_env(overrides: &QualityOverrides) -> (r: Self)
        ensures
            r.triple() == Self::with_overrides(QualityPreset::Fast.settings(), *overrides),
    {
        Self::from_preset(QualityPreset::Fast, overrides)
    }

    /// Settings of a preset, each replaced where the environment sets it.
    pub fn from_preset(preset: QualityPreset, overrides: &QualityOverrides) -> (r: Self)
        ensures
            r.triple() == Self::with_overrides(preset.settings(), *overrides),
    {
        let base = preset.to_quality_settings();
        QualitySettings {
            ffmpeg_preset: pick(&overrides.ffmpeg_preset, base.ffmpeg_preset),
            ffmpeg_crf: pick(&overrides.ffmpeg_crf, base.ffmpeg_crf),
            ffmpeg_audio_bitrate: pick(&overrides.ffmpeg_audio_bitrate, base.ffmpeg_audio_bitrate),
        }
    }

    /// Settings of the preset with the given name, each replaced where the
    /// environment sets it; an error where no preset has that name.
    pub fn from_preset_name(preset_name: &str, overrides: &QualityOverrides) -> (r: Result<
        Self,
        JobError,
    >)
        ensures
            match QualityPreset::named(preset_name@) {
                Some(preset) => r is Ok && r->Ok_0.triple() == Self::with_overrides(
                    preset.settings(),
                    *overrides,
                ),
                None => r is Err && r->Err_0 == (JobError::UnknownPreset {
                    name: r->Err_0->name,
                }) && r->Err_0->name@ == preset_name@,
            },
    {
        match QualityPreset::from_name(preset_name) {
            Ok(preset) => Ok(Self::from_preset(preset, overrides)),
            Err(e) => Err(e),
        }
    }
}

impl Default for QualitySettings {
    fn default() -> (r: Self)
        ensures
            r.triple() == QualityPreset::Fast.settings(),
    {
        QualityPreset::Fast.to_quality_settings()
    }
}

impl Default for PostProcessingSettings {
    fn default() -> (r: Self)
        ensures
            r.disable_source_files,
    {
        PostProcessingSettings { disable_source_files: true }
    }
}

impl QualityPreset {
    /// Encoder preset, constant rate factor and audio bitrate of each preset.
    pub open spec fn settings(self) -> (Seq<char>, Seq<char>, Seq<char>) {
        match self {
            QualityPreset::Fast => ("veryfast"@, "23"@, "128k"@),
            QualityPreset::Balanced => ("medium"@, "20"@, "192k"@),
            QualityPreset::Quality => ("slow"@, "18"@, "256k"@),
            QualityPreset::UltraFast => ("ultrafast"@, "28"@, "96k"@),
            QualityPreset::Archive => ("veryslow"@, "15"@, "320k"@),
        }
    }

    /// The name of each preset.
    pub open spec fn spec_name(self) -> Seq<char> {
        match self {
            QualityPreset::Fast => "fast"@,
            QualityPreset::Balanced => "balanced"@,
            QualityPreset::Quality => "quality"@,
            QualityPreset::UltraFast => "ultrafast"@,
            QualityPreset::Archive => "archive"@,
        }
    }

    /// The preset that `name` stands for: the one whose name equals `name`
    /// in lower case.
    pub open spec fn named(name: Seq<char>) -> Option<QualityPreset> {
        Self::named_in_lowercase(lowercase_of(name))
    }

    /// The preset whose name is `lower`, letter for letter.
    pub open spec fn named_in_lowercase(lower: Seq<char>) -> Option<QualityPreset> {
        if lower == QualityPreset::Fast.spec_name() {
            Some(QualityPreset::Fast)
        } else if lower == QualityPreset::Balanced.spec_name() {
            Some(QualityPreset::Balanced)
        } else if lower == QualityPreset::Quality.spec_name() {
            Some(QualityPreset::Quality)
        } else if lower == QualityPreset::UltraFast.spec_name() {
            Some(QualityPreset::UltraFast)
        } else if lower == QualityPreset::Archive.spec_name() {
            Some(QualityPreset::Archive)
        } else {
            None
        }
    }

    /// The settings of the preset.
    pub fn to_quality_settings(&self) -> (r: QualitySettings)
        ensures
            r.triple() == self.settings(),
    {
        match self {
            QualityPreset::Fast => QualitySettings {
                ffmpeg_preset: String::from_str("veryfast"),
                ffmpeg_crf: String::from_str("23"),
                ffmpeg_audio_bitrate: String::from_str("128k"),
            },
            QualityPreset::Balanced => QualitySettings {
                ffmpeg_preset: String::from_str("medium"),
                ffmpeg_crf: String::from_str("20"),
                ffmpeg_audio_bitrate: String::from_str("192k"),
            },
            QualityPreset::Quality => QualitySettings {
                ffmpeg_preset: String::from_str("slow"),
                ffmpeg_crf: String::from_str("18"),
                ffmpeg_audio_bitrate: String::from_str("256k"),
            },
            QualityPreset::UltraFast => QualitySettings {
                ffmpeg_preset: String::from_str("ultrafast"),
                ffmpeg_crf: String::from_str("28"),
                ffmpeg_audio_bitrate: String::from_str("96k"),
            },
            QualityPreset::Archive => QualitySettings {
                ffmpeg_preset: String::from_str("veryslow"),
                ffmpeg_crf: String::from_str("15"),
                ffmpeg_audio_bitrate: String::from_str("320k"),
            },
        }
    }

    /// The preset with the given name, compared without regard to case; an
    /// error that carries the name where there is none.
    pub fn from_name(name: &str) -> (r: Result<Self, JobError>)
        ensures
            match Self::named(name@) {
                Some(preset) => r == Ok::<Self, JobError>(preset),
                None => r is Err && r->Err_0 == (JobError::UnknownPreset {
                    name: r->Err_0->name,
                }) && r->Err_0->name@ == name@,
            },
    {
        match preset_of_lowercase(lowercase(name).as_str()) {
            Some(preset) => Ok(preset),
            None => Err(JobError::UnknownPreset { name: String::from_str(name) }),
        }
    }

    /// The names of all presets.
    pub fn all_names() -> (r: Vec<&'static str>)
        ensures
            r@.len() == 5,
            r@[0]@ == QualityPreset::Fast.spec_name(),
            r@[1]@ == QualityPreset::Balanced.spec_name(),
            r@[2]@ == QualityPreset::Quality.spec_name(),
            r@[3]@ == QualityPreset::UltraFast.spec_name(),
            r@[4]@ == QualityPreset::Archive.spec_name(),
    {
        vec!["fast", "balanced", "quality", "ultrafast", "archive"]
    }

    /// The name of the preset.
    pub fn name(&self) -> (r: &'static str)
        ensures
            r@ == self.spec_name(),
    {
        match self {
            QualityPreset::Fast => "fast",
            QualityPreset::Balanced => "balanced",
            QualityPreset::Quality => "quality",
            QualityPreset::UltraFast => "ultrafast",
            QualityPreset::Archive => "archive",
        }
    }
}

/// The preset whose name is `lower`, letter for letter: `fast`,
/// `balanced`, `quality`, `ultrafast` or `archive`.
pub fn preset_of_lowercase(lower: &str) -> (r: Option<QualityPreset>)
    ensures
        r == QualityPreset::named_in_lowercase(lower@),
{
    if same_text(lower, "fast") {
        Some(QualityPreset::Fast)
    } else if same_text(lower, "balanced") {
        Some(QualityPreset::Balanced)
    } else if same_text(lower, "quality") {
        Some(QualityPreset::Quality)
    } else if same_text(lower, "ultrafast") {
        Some(QualityPreset::UltraFast)
    } else if same_text(lower, "archive") {
        Some(QualityPreset::Archive)
    } else {
        None
    }
}

impl JobError {
    /// The error in words.
    pub fn message(&self) -> (r: String)
        ensures
            r@ == match *self {
                JobError::UnknownPreset { name } => "Unknown quality preset '"@ + name@
                    + "'. Available presets: fast, balanced, quality, ultrafast, archive"@,
                JobError::MissingSubtitlePath => "WebM job should have subtitle path"@,
            },
    {
        match self {
            JobError::UnknownPreset { name } => String::from_str("Unknown quality preset '").concat(
                name.as_str(),
            ).concat("'. Available presets: fast, balanced, quality, ultrafast, archive"),
            JobError::MissingSubtitlePath => String::from_str("WebM job should have subtitle path"),
        }
    }
}

} // verus!
