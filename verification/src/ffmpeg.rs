//! The transcode executor: what the encoder is asked to do for a job, on a
//! fresh run and on a run that resumes from partial output.
//!
//! An attempt begins with a probe of the work folder. A partial output of
//! positive length means that the attempt resumes: the encoder is run once
//! more, seeking to where the partial output ends, into a continuation
//! file, and the two are joined by a pass that copies the streams without
//! encoding anything again. Any other partial output is removed and the
//! attempt starts afresh. All encoding parameters come from the job.
//!
//! The executor runs nothing itself: each piece of work is a script of
//! operations for the driver.

use vstd::prelude::*;
use crate::config::Config;
use crate::job::{opt_str_view, resolved, Job, JobProgress, MediaFileType, QualitySettings};
use crate::paths::{
    extension, free_of_separators, has_no_separator, opt_view, path_extension, path_join,
    path_with_extension, with_extension,
};
use crate::queue::names_view;
use crate::script::{
    steps_view, ExecErrorKind, ExecOp, ExecOpView, Expect, Script, Step, StepView,
};
use crate::text::{
    all_digits, decimal_text, decimal_value, format_padded, format_u64, lemma_decimal_text_reads_back,
    lemma_decimal_text_width, lemma_zero_padded_reads_back, power_of_ten, zero_padded,
};

verus! {

/// Builds the commands and scripts of the encoder.
#[derive(Debug, PartialEq, Eq)]
pub struct FFmpegProcessor {
    config: Config,
    background_mode: bool,
}

/// What the probe of a job's place in the work folder found.
#[derive(Debug, Clone, Copy, PartialEq, Eq, Structural)]
pub enum ProbeReport {
    /// No file is there.
    Absent,
    /// A file is there, and this is its length in microseconds.
    Duration { micros: u64 },
    /// A file is there, but the probe failed or what it printed is no
    /// length.
    Unusable,
}

/// What an attempt begins with.
#[derive(Debug, PartialEq, Eq)]
pub struct AttemptPlan {
    /// Whether the attempt resumes from partial output.
    pub resuming: bool,
    /// The removal of unusable partial output, to be tried before anything
    /// else.
    pub discard: Option<ExecOp>,
    /// The work of the attempt.
    pub script: Script,
}

/// A single argument.
fn arg(text: &str) -> (r: Vec<String>)
    ensures
        names_view(r) == seq![text@],
{
    let mut r: Vec<String> = Vec::new();
    r.push(String::from_str(text));
    r
}

/// Two arguments.
fn pair(first: &str, second: &str) -> (r: Vec<String>)
    ensures
        names_view(r) == seq![first@, second@],
{
    let mut r: Vec<String> = Vec::new();
    r.push(String::from_str(first));
    r.push(String::from_str(second));
    r
}

/// One list of arguments after another.
fn joined(mut head: Vec<String>, mut tail: Vec<String>) -> (r: Vec<String>)
    ensures
        names_view(r) == names_view(head) + names_view(tail),
{
    head.append(&mut tail);
    head
}

/// The text of a length in microseconds as the encoder reads it: seconds,
/// a point, and six digits of the fraction.
pub open spec fn seek_text(micros: u64) -> Seq<char> {
    decimal_text((micros / 1_000_000) as nat) + "."@ + zero_padded((micros % 1_000_000) as nat, 6)
}

/// The seek text says exactly the length it is made from: its whole part
/// reads back as the seconds, and its fraction, of six digits, as the
/// microseconds that are left.
pub proof fn lemma_seek_text_exact(micros: u64)
    ensures
        ({
            let whole = decimal_text((micros / 1_000_000) as nat);
            let fraction = zero_padded((micros % 1_000_000) as nat, 6);
            &&& seek_text(micros) == whole + "."@ + fraction
            &&& all_digits(whole) && all_digits(fraction)
            &&& fraction.len() == 6
            &&& decimal_value(whole) * 1_000_000 + decimal_value(fraction) == micros
        }),
{
    lemma_decimal_text_reads_back((micros / 1_000_000) as nat);
    lemma_zero_padded_reads_back((micros % 1_000_000) as nat, 6);
    assert(power_of_ten(6) == 1_000_000) by {
        reveal_with_fuel(power_of_ten, 7);
    }
    lemma_decimal_text_width((micros % 1_000_000) as nat, 6);
}

/// Computes `seek_text`.
pub fn format_seek(micros: u64) -> (r: String)
    ensures
        r@ == seek_text(micros),
{
    let seconds = format_u64(micros / 1_000_000);
    let fraction = format_padded(micros % 1_000_000, 6);
    seconds.concat(".").concat(fraction.as_str())
}

/// How the encoder is started: as it is, or at the lowest priority for a
/// worker in the background.
pub open spec fn base_command(background: bool) -> Seq<Seq<char>> {
    if background {
        seq!["nice"@, "-n"@, "19"@, "ffmpeg"@]
    } else {
        seq!["ffmpeg"@]
    }
}

/// The flags that go before any input.
pub open spec fn common_flags() -> Seq<Seq<char>> {
    seq!["-fflags"@, "+genpts"@, "-avoid_negative_ts"@, "make_zero"@]
}

/// The inputs of a WebM job and the streams taken from them: picture and
/// sound from the media file, subtitles from the file beside it.
pub open spec fn webm_inputs(input: Seq<char>, subtitle: Seq<char>) -> Seq<Seq<char>> {
    seq![
        "-i"@,
        input,
        "-i"@,
        subtitle,
        "-map"@,
        "0:v:0"@,
        "-map"@,
        "0:a:0"@,
        "-map"@,
        "1:s:0"@,
    ]
}

/// The input of an MKV job and the streams taken from it: picture, sound
/// and subtitles, all from the media file.
pub open spec fn mkv_inputs(input: Seq<char>) -> Seq<Seq<char>> {
    seq![
        "-fix_sub_duration"@,
        "-i"@,
        input,
        "-map"@,
        "0:v:0"@,
        "-map"@,
        "0:a:0"@,
        "-map"@,
        "0:s:0"@,
    ]
}

/// The input options of a job. A WebM job without a subtitle path has only
/// the common flags: no command is run for it.
pub open spec fn input_options(
    file_type: MediaFileType,
    input: Seq<char>,
    subtitle: Option<Seq<char>>,
) -> Seq<Seq<char>> {
    common_flags() + match file_type {
        MediaFileType::WebM => match subtitle {
            Some(vtt) => webm_inputs(input, vtt),
            None => Seq::empty(),
        },
        MediaFileType::Mkv => mkv_inputs(input),
    }
}

/// The encoding options: codecs fixed, preset, rate factor and audio
/// bitrate from the job's own settings.
pub open spec fn encoding_options(q: QualitySettings) -> Seq<Seq<char>> {
    seq![
        "-c:v"@,
        "libx264"@,
        "-preset"@,
        q.ffmpeg_preset@,
        "-crf"@,
        q.ffmpeg_crf@,
        "-c:a"@,
        "aac"@,
        "-b:a"@,
        q.ffmpeg_audio_bitrate@,
        "-c:s"@,
        "mov_text"@,
    ]
}

/// The input path of a job against a media root.
pub open spec fn job_input(job: Job, media_root: Option<&str>) -> Seq<char> {
    resolved(job.input_path@, opt_str_view(media_root))
}

/// The subtitle path of a job against a media root.
pub open spec fn job_subtitle(job: Job, media_root: Option<&str>) -> Option<Seq<char>> {
    match job.subtitle_path {
        Some(path) => Some(resolved(path@, opt_str_view(media_root))),
        None => None,
    }
}

/// The command of a full transcode into `output`.
pub open spec fn full_command(
    background: bool,
    job: Job,
    media_root: Option<&str>,
    output: Seq<char>,
) -> Seq<Seq<char>> {
    base_command(background) + input_options(
        job.file_type,
        job_input(job, media_root),
        job_subtitle(job, media_root),
    ) + encoding_options(job.quality_settings) + seq!["-y"@, output]
}

/// The command that encodes what is left of the input from `micros` on
/// into `continuation`.
pub open spec fn continuation_command(
    background: bool,
    job: Job,
    media_root: Option<&str>,
    micros: u64,
    continuation: Seq<char>,
) -> Seq<Seq<char>> {
    base_command(background) + seq!["-ss"@, seek_text(micros)] + input_options(
        job.file_type,
        job_input(job, media_root),
        job_subtitle(job, media_root),
    ) + encoding_options(job.quality_settings) + seq!["-y"@, continuation]
}

/// The command that joins the segments named in `list` into `output`,
/// copying the streams as they are.
pub open spec fn concat_command(background: bool, list: Seq<char>, output: Seq<char>) -> Seq<
    Seq<char>,
> {
    base_command(background) + seq![
        "-f"@,
        "concat"@,
        "-safe"@,
        "0"@,
        "-i"@,
        list,
        "-c"@,
        "copy"@,
        "-y"@,
        output,
    ]
}

/// The list of segments: the partial output, then the continuation.
pub open spec fn concat_list(partial: Seq<char>, continuation: Seq<char>) -> Seq<char> {
    "file '"@ + partial + "'\nfile '"@ + continuation + "'"@
}

/// The command that asks for the length of a media file, in seconds.
pub open spec fn probe_command_of(path: Seq<char>) -> Seq<Seq<char>> {
    seq![
        "ffprobe"@,
        "-v"@,
        "quiet"@,
        "-show_entries"@,
        "format=duration"@,
        "-of"@,
        "csv=p=0"@,
        path,
    ]
}

/// The step that stands for a job's subtitles: none for an MKV job; for a
/// WebM job the check that the subtitle file is there, or, where the job
/// has no subtitle path, the end of the script.
pub open spec fn subtitle_steps(job: Job, media_root: Option<&str>) -> Seq<StepView> {
    match job.file_type {
        MediaFileType::Mkv => Seq::empty(),
        MediaFileType::WebM => match job_subtitle(job, media_root) {
            Some(vtt) => seq![
                StepView::Must {
                    op: ExecOpView::Exists { path: vtt },
                    expect: Expect::Present,
                    error: ExecErrorKind::SubtitleMissing,
                    cleanup: Seq::empty(),
                },
            ],
            None => seq![
                StepView::Abort { error: ExecErrorKind::SubtitlePathMissing, detail: Seq::empty() },
            ],
        },
    }
}

/// The view of an optional operation.
pub open spec fn opt_exec_view(op: Option<ExecOp>) -> Option<ExecOpView> {
    match op {
        Some(op) => Some(op@),
        None => None,
    }
}

/// A step that must succeed and leaves nothing to tidy up.
pub open spec fn must(op: ExecOpView, expect: Expect, error: ExecErrorKind) -> StepView {
    StepView::Must { op, expect, error, cleanup: Seq::empty() }
}

/// The script of a fresh run: the input must be there, the directory of
/// the output is made, the subtitles must be there where the job needs
/// them, and the encoder is run once, writing the whole output.
pub open spec fn fresh_script(
    background: bool,
    job: Job,
    media_root: Option<&str>,
    output: Seq<char>,
) -> Seq<StepView> {
    seq![
        must(
            ExecOpView::Exists { path: job_input(job, media_root) },
            Expect::Present,
            ExecErrorKind::InputMissing,
        ),
        must(
            ExecOpView::EnsureParent { path: output },
            Expect::Done,
            ExecErrorKind::OutputDirFailed,
        ),
    ] + subtitle_steps(job, media_root) + seq![
        must(
            ExecOpView::Run { command: full_command(background, job, media_root, output) },
            Expect::Done,
            ExecErrorKind::EncoderFailed,
        ),
    ]
}

/// Where the continuation of an output is written.
pub open spec fn continuation_path(output: Seq<char>) -> Seq<char> {
    path_with_extension(output, "continuation.mp4"@)
}

/// Where the list of segments of an output is written.
pub open spec fn concat_list_path(output: Seq<char>) -> Seq<char> {
    path_with_extension(output, "concat.txt"@)
}

/// Where the joined segments of an output are written before they take
/// the output's place.
pub open spec fn joined_path(output: Seq<char>) -> Seq<char> {
    path_with_extension(output, "joined.mp4"@)
}

/// The steps that join a partial output and its continuation into
/// `output`: the list of the two segments is written; the segments are
/// joined by a pass that copies the streams, into a file of its own; the
/// list is removed; and the joined file takes the output's place. Where
/// the pass or the renaming fails, what it has left behind is removed.
/// Nothing is written to the partial output before the joined file
/// replaces it.
pub open spec fn concat_steps(
    background: bool,
    partial: Seq<char>,
    continuation: Seq<char>,
    output: Seq<char>,
) -> Seq<StepView> {
    let list = concat_list_path(output);
    let joined = joined_path(output);
    seq![
        must(
            ExecOpView::WriteFile { path: list, content: concat_list(partial, continuation) },
            Expect::Done,
            ExecErrorKind::ConcatListFailed,
        ),
        StepView::Must {
            op: ExecOpView::Run { command: concat_command(background, list, joined) },
            expect: Expect::Done,
            error: ExecErrorKind::EncoderFailed,
            cleanup: seq![
                ExecOpView::RemoveFile { path: list },
                ExecOpView::RemoveFile { path: joined },
            ],
        },
        StepView::Try { op: ExecOpView::RemoveFile { path: list } },
        StepView::Must {
            op: ExecOpView::Rename { from: joined, to: output },
            expect: Expect::Done,
            error: ExecErrorKind::MoveFailed,
            cleanup: seq![ExecOpView::RemoveFile { path: joined }],
        },
    ]
}

/// The script of a run that resumes from `partial`, which is `micros`
/// long: the encoder is run on the input from exactly `micros` on, into
/// the continuation file; partial output and continuation are joined into
/// the output; and the continuation is removed. The encoder is never run
/// on the partial output, and where a step fails the partial output is as
/// it was.
pub open spec fn resume_script(
    background: bool,
    job: Job,
    media_root: Option<&str>,
    output: Seq<char>,
    partial: Seq<char>,
    micros: u64,
) -> Seq<StepView> {
    let continuation = continuation_path(output);
    subtitle_steps(job, media_root) + seq![
        must(
            ExecOpView::Run {
                command: continuation_command(background, job, media_root, micros, continuation),
            },
            Expect::Done,
            ExecErrorKind::EncoderFailed,
        ),
    ] + concat_steps(background, partial, continuation, output) + seq![
        StepView::Try { op: ExecOpView::RemoveFile { path: continuation } },
    ]
}

/// The script that moves a finished output from `work` to `destination`:
/// the output must be in the work folder, nothing may stand at the
/// destination, the directory of the destination is made, and the file is
/// renamed.
pub open spec fn move_script(work: Seq<char>, destination: Seq<char>) -> Seq<StepView> {
    seq![
        must(
            ExecOpView::Exists { path: work },
            Expect::Present,
            ExecErrorKind::WorkOutputMissing,
        ),
        must(
            ExecOpView::Exists { path: destination },
            Expect::Absent,
            ExecErrorKind::DestinationExists,
        ),
        must(
            ExecOpView::EnsureParent { path: destination },
            Expect::Done,
            ExecErrorKind::OutputDirFailed,
        ),
        must(
            ExecOpView::Rename { from: work, to: destination },
            Expect::Done,
            ExecErrorKind::MoveFailed,
        ),
    ]
}

/// The extension of a source file that is put out of the way: its own, if
/// it has one, with `.disabled` after it.
pub open spec fn disabled_extension_of(extension: Option<Seq<char>>) -> Seq<char> {
    (match extension {
        Some(ext) => ext,
        None => Seq::empty(),
    }) + ".disabled"@
}

/// Computes `disabled_extension_of`.
pub fn disabled_extension_for(extension: &Option<String>) -> (r: String)
    ensures
        r@ == disabled_extension_of(opt_view(*extension)),
{
    match extension {
        Some(ext) => ext.clone().concat(".disabled"),
        None => String::new().concat(".disabled"),
    }
}

/// The name under which a source file is put out of the way: its own, with
/// `.disabled` after its extension. Where the extension holds a character
/// that separates path components on some platform, `.disabled` is put
/// after the whole path instead.
pub open spec fn disabled_path(path: Seq<char>) -> Seq<char> {
    let extension = disabled_extension_of(path_extension(path));
    if free_of_separators(extension) {
        path_with_extension(path, extension)
    } else {
        path + ".disabled"@
    }
}

/// The script that puts the source files of a job out of the way: the
/// input is renamed, then the subtitle file, if the job has one. A file
/// that is not there, as after an earlier finalization that got this far,
/// is passed over without error; a renaming that fails is an error.
pub open spec fn disable_script(job: Job, media_root: Option<&str>) -> Seq<StepView> {
    seq![
        must(
            ExecOpView::RenameIfPresent {
                from: job_input(job, media_root),
                to: disabled_path(job_input(job, media_root)),
            },
            Expect::Done,
            ExecErrorKind::DisableFailed,
        ),
    ] + match job_subtitle(job, media_root) {
        Some(vtt) => seq![
            must(
                ExecOpView::RenameIfPresent {
                    from: vtt,
                    to: path_with_extension(vtt, "vtt.disabled"@),
                },
                Expect::Done,
                ExecErrorKind::DisableFailed,
            ),
        ],
        None => Seq::empty(),
    }
}

fn must_step(op: ExecOp, expect: Expect, error: ExecErrorKind) -> (r: Step)
    ensures
        r@ == must(op@, expect, error),
{
    let r = Step::Must { op, expect, error, cleanup: Vec::new() };
    assert(r@->Must_cleanup =~= Seq::empty());
    r
}

fn one_step(step: Step) -> (r: Vec<Step>)
    ensures
        steps_view(r) == seq![step@],
{
    let mut r: Vec<Step> = Vec::new();
    r.push(step);
    r
}

fn steps_joined(mut head: Vec<Step>, mut tail: Vec<Step>) -> (r: Vec<Step>)
    ensures
        steps_view(r) == steps_view(head) + steps_view(tail),
{
    head.append(&mut tail);
    head
}

fn push_step(steps: &mut Vec<Step>, step: Step)
    ensures
        steps_view(*final(steps)) == steps_view(*old(steps)).push(step@),
{
    steps.push(step);
}

impl FFmpegProcessor {
    /// Whether the encoder is run at the lowest priority.
    pub closed spec fn background(self) -> bool {
        self.background_mode
    }

    /// The settings of the worker.
    pub closed spec fn spec_config(self) -> Config {
        self.config
    }

    /// A processor for a worker in the foreground or in the background.
    pub fn new(config: Config, background_mode: bool) -> (r: Self)
        ensures
            r.background() == background_mode,
            r.spec_config() == config,
    {
        FFmpegProcessor { config, background_mode }
    }

    /// Whether the encoder is run at the lowest priority.
    pub fn is_background(&self) -> (r: bool)
        ensures
            r == self.background(),
    {
        self.background_mode
    }

    /// The settings of the worker.
    pub fn config(&self) -> (r: &Config)
        ensures
            *r == self.spec_config(),
    {
        &self.config
    }

    /// How the encoder is started.
    pub fn build_base_command(&self) -> (r: Vec<String>)
        ensures
            names_view(r) == base_command(self.background()),
    {
        if self.background_mode {
            joined(pair("nice", "-n"), pair("19", "ffmpeg"))
        } else {
            arg("ffmpeg")
        }
    }

    /// Puts the input options of a job behind a command.
    pub fn add_input_options(&self, cmd: &mut Vec<String>, job: &Job, media_root: Option<&str>)
        ensures
            names_view(*final(cmd)) == names_view(*old(cmd)) + input_options(
                job.file_type,
                job_input(*job, media_root),
                job_subtitle(*job, media_root),
            ),
    {
        let ghost before = names_view(*cmd);
        let input_path = job.full_input_path(media_root);
        let mut options = joined(pair("-fflags", "+genpts"), pair("-avoid_negative_ts", "make_zero"));
        match job.file_type {
            MediaFileType::WebM => {
                match job.full_subtitle_path(media_root) {
                    Some(vtt_path) => {
                        let inputs = joined(
                            pair("-i", input_path.as_str()),
                            pair("-i", vtt_path.as_str()),
                        );
                        let maps = joined(
                            joined(pair("-map", "0:v:0"), pair("-map", "0:a:0")),
                            pair("-map", "1:s:0"),
                        );
                        let webm = joined(inputs, maps);
                        options = joined(options, webm);
                    },
                    None => {},
                }
            },
            MediaFileType::Mkv => {
                let inputs = joined(arg("-fix_sub_duration"), pair("-i", input_path.as_str()));
                let maps = joined(
                    joined(pair("-map", "0:v:0"), pair("-map", "0:a:0")),
                    pair("-map", "0:s:0"),
                );
                let mkv = joined(inputs, maps);
                options = joined(options, mkv);
            },
        }
        let ghost added = names_view(options);
        cmd.append(&mut options);
        assert(names_view(*cmd) =~= before + added);
    }

    /// Puts the encoding options of a job behind a command.
    pub fn add_encoding_options(&self, cmd: &mut Vec<String>, job: &Job)
        ensures
            names_view(*final(cmd)) == names_view(*old(cmd)) + encoding_options(
                job.quality_settings,
            ),
    {
        let ghost before = names_view(*cmd);
        let q = &job.quality_settings;
        let video = joined(pair("-c:v", "libx264"), pair("-preset", q.ffmpeg_preset.as_str()));
        let rate = joined(pair("-crf", q.ffmpeg_crf.as_str()), pair("-c:a", "aac"));
        let audio = joined(pair("-b:a", q.ffmpeg_audio_bitrate.as_str()), pair("-c:s", "mov_text"));
        let mut options = joined(joined(video, rate), audio);
        let ghost added = names_view(options);
        cmd.append(&mut options);
        assert(names_view(*cmd) =~= before + added);
    }

    /// The command that asks for the length of a media file, in seconds.
    pub fn probe_command(&self, file_path: &str) -> (r: Vec<String>)
        ensures
            names_view(r) == probe_command_of(file_path@),
    {
        joined(
            joined(pair("ffprobe", "-v"), pair("quiet", "-show_entries")),
            joined(pair("format=duration", "-of"), pair("csv=p=0", file_path)),
        )
    }

    fn subtitle_steps(&self, job: &Job, media_root: Option<&str>) -> (r: Vec<Step>)
        ensures
            steps_view(r) == subtitle_steps(*job, media_root),
    {
        match job.file_type {
            MediaFileType::Mkv => Vec::new(),
            MediaFileType::WebM => match job.full_subtitle_path(media_root) {
                Some(vtt) => one_step(
                    must_step(
                        ExecOp::Exists { path: vtt },
                        Expect::Present,
                        ExecErrorKind::SubtitleMissing,
                    ),
                ),
                None => one_step(
                    Step::Abort { error: ExecErrorKind::SubtitlePathMissing, detail: String::new() },
                ),
            },
        }
    }

    /// The script of a fresh run of a job into `output_path`.
    pub fn transcode_full(&self, job: &Job, media_root: Option<&str>, output_path: &str) -> (r:
        Script)
        ensures
            r == Script::spec_new(r.steps),
            steps_view(r.steps) == fresh_script(self.background(), *job, media_root, output_path@),
    {
        let input_path = job.full_input_path(media_root);
        let mut cmd = self.build_base_command();
        self.add_input_options(&mut cmd, job, media_root);
        self.add_encoding_options(&mut cmd, job);
        let cmd = joined(cmd, pair("-y", output_path));
        let mut steps = one_step(
            must_step(
                ExecOp::Exists { path: input_path },
                Expect::Present,
                ExecErrorKind::InputMissing,
            ),
        );
        push_step(
            &mut steps,
            must_step(
                ExecOp::EnsureParent { path: String::from_str(output_path) },
                Expect::Done,
                ExecErrorKind::OutputDirFailed,
            ),
        );
        let mut steps = steps_joined(steps, self.subtitle_steps(job, media_root));
        push_step(
            &mut steps,
            must_step(ExecOp::Run { command: cmd }, Expect::Done, ExecErrorKind::EncoderFailed),
        );
        assert(steps_view(steps) =~= fresh_script(
            self.background(),
            *job,
            media_root,
            output_path@,
        ));
        Script::new(steps)
    }

    /// The script of a run of a job that resumes from the partial output
    /// at `partial_path`, which is `resume_from_micros` long.
    pub fn resume_transcoding(
        &self,
        job: &Job,
        media_root: Option<&str>,
        output_path: &str,
        partial_path: &str,
        resume_from_micros: u64,
    ) -> (r: Script)
        ensures
            r == Script::spec_new(r.steps),
            steps_view(r.steps) == resume_script(
                self.background(),
                *job,
                media_root,
                output_path@,
                partial_path@,
                resume_from_micros,
            ),
    {
        proof {
            reveal_strlit("continuation.mp4");
        }
        let continuation = with_extension(output_path, "continuation.mp4");
        let mut cmd = joined(
            self.build_base_command(),
            pair("-ss", format_seek(resume_from_micros).as_str()),
        );
        self.add_input_options(&mut cmd, job, media_root);
        self.add_encoding_options(&mut cmd, job);
        let cmd = joined(cmd, pair("-y", continuation.as_str()));
        let mut steps = self.subtitle_steps(job, media_root);
        push_step(
            &mut steps,
            must_step(ExecOp::Run { command: cmd }, Expect::Done, ExecErrorKind::EncoderFailed),
        );
        let concat = self.concatenate_segments(partial_path, continuation.as_str(), output_path);
        let mut steps = steps_joined(steps, concat);
        push_step(&mut steps, Step::Try { op: ExecOp::RemoveFile { path: continuation } });
        assert(steps_view(steps) =~= resume_script(
            self.background(),
            *job,
            media_root,
            output_path@,
            partial_path@,
            resume_from_micros,
        ));
        Script::new(steps)
    }

    /// The steps that join a partial output and its continuation into an
    /// output.
    pub fn concatenate_segments(
        &self,
        partial_path: &str,
        continuation_path: &str,
        output_path: &str,
    ) -> (r: Vec<Step>)
        ensures
            steps_view(r) == concat_steps(
                self.background(),
                partial_path@,
                continuation_path@,
                output_path@,
            ),
    {
        proof {
            reveal_strlit("concat.txt");
            reveal_strlit("joined.mp4");
        }
        let list = with_extension(output_path, "concat.txt");
        let joined_file = with_extension(output_path, "joined.mp4");
        let content = String::from_str("file '").concat(partial_path).concat("'\nfile '").concat(
            continuation_path,
        ).concat("'");
        let options = joined(
            joined(pair("-f", "concat"), pair("-safe", "0")),
            joined(
                joined(pair("-i", list.as_str()), pair("-c", "copy")),
                pair("-y", joined_file.as_str()),
            ),
        );
        let cmd = joined(self.build_base_command(), options);
        assert(names_view(cmd) =~= concat_command(self.background(), list@, joined_file@));
        let mut cleanup: Vec<ExecOp> = Vec::new();
        cleanup.push(ExecOp::RemoveFile { path: list.clone() });
        cleanup.push(ExecOp::RemoveFile { path: joined_file.clone() });
        let run = Step::Must {
            op: ExecOp::Run { command: cmd },
            expect: Expect::Done,
            error: ExecErrorKind::EncoderFailed,
            cleanup,
        };
        assert(run@->Must_cleanup =~= seq![
            ExecOpView::RemoveFile { path: list@ },
            ExecOpView::RemoveFile { path: joined_file@ },
        ]);
        let mut undo: Vec<ExecOp> = Vec::new();
        undo.push(ExecOp::RemoveFile { path: joined_file.clone() });
        let replace = Step::Must {
            op: ExecOp::Rename { from: joined_file, to: String::from_str(output_path) },
            expect: Expect::Done,
            error: ExecErrorKind::MoveFailed,
            cleanup: undo,
        };
        assert(replace@->Must_cleanup =~= seq![ExecOpView::RemoveFile { path: joined_path(output_path@) }]);
        let mut steps = one_step(
            must_step(
                ExecOp::WriteFile { path: list.clone(), content },
                Expect::Done,
                ExecErrorKind::ConcatListFailed,
            ),
        );
        push_step(&mut steps, run);
        push_step(&mut steps, Step::Try { op: ExecOp::RemoveFile { path: list } });
        push_step(&mut steps, replace);
        assert(steps_view(steps) =~= concat_steps(
            self.background(),
            partial_path@,
            continuation_path@,
            output_path@,
        ));
        steps
    }

    /// Where the output of an attempt is written: into the work folder
    /// where there is one, else to its final place.
    pub open spec fn attempt_output(
        job: Job,
        media_root: Option<&str>,
        work_folder: Option<&str>,
    ) -> Seq<char> {
        match work_folder {
            Some(folder) => path_join(folder@, job.work_file_name()),
            None => resolved(job.output_path@, opt_str_view(media_root)),
        }
    }

    /// Whether an attempt on the job resumes: the job's progress names a
    /// partial output and its length, and the partial output is there.
    pub open spec fn resumes(job: Job, partial_present: bool) -> bool {
        partial_present && job.progress.partial_output_path is Some
            && job.progress.partial_duration_micros is Some
    }

    /// The script of an attempt on a job: of a run that resumes where the
    /// job's progress says so and the partial output is there, else of a
    /// fresh run.
    pub fn process_job(
        &self,
        job: &Job,
        media_root: Option<&str>,
        work_folder: Option<&str>,
        partial_present: bool,
    ) -> (r: Script)
        ensures
            r == Script::spec_new(r.steps),
            steps_view(r.steps) == if Self::resumes(*job, partial_present) {
                resume_script(
                    self.background(),
                    *job,
                    media_root,
                    Self::attempt_output(*job, media_root, work_folder),
                    job.progress.partial_output_path->Some_0@,
                    job.progress.partial_duration_micros->Some_0,
                )
            } else {
                fresh_script(
                    self.background(),
                    *job,
                    media_root,
                    Self::attempt_output(*job, media_root, work_folder),
                )
            },
    {
        let output_path = match work_folder {
            Some(folder) => job.work_folder_output_path(folder),
            None => job.full_output_path(media_root),
        };
        if partial_present {
            match (&job.progress.partial_output_path, job.progress.partial_duration_micros) {
                (Some(partial), Some(micros)) => {
                    return self.resume_transcoding(
                        job,
                        media_root,
                        output_path.as_str(),
                        partial.as_str(),
                        micros,
                    );
                },
                _ => {},
            }
        }
        self.transcode_full(job, media_root, output_path.as_str())
    }

    /// The script that moves the finished output of a job from the work
    /// folder to its final place.
    pub fn move_to_destination(&self, job: &Job, media_root: Option<&str>, work_folder: &str) -> (r:
        Script)
        ensures
            r == Script::spec_new(r.steps),
            steps_view(r.steps) == move_script(
                path_join(work_folder@, job.work_file_name()),
                resolved(job.output_path@, opt_str_view(media_root)),
            ),
    {
        let work = job.work_folder_output_path(work_folder);
        let destination = job.full_output_path(media_root);
        let mut steps = one_step(
            must_step(
                ExecOp::Exists { path: work.clone() },
                Expect::Present,
                ExecErrorKind::WorkOutputMissing,
            ),
        );
        push_step(
            &mut steps,
            must_step(
                ExecOp::Exists { path: destination.clone() },
                Expect::Absent,
                ExecErrorKind::DestinationExists,
            ),
        );
        push_step(
            &mut steps,
            must_step(
                ExecOp::EnsureParent { path: destination.clone() },
                Expect::Done,
                ExecErrorKind::OutputDirFailed,
            ),
        );
        push_step(
            &mut steps,
            must_step(
                ExecOp::Rename { from: work, to: destination },
                Expect::Done,
                ExecErrorKind::MoveFailed,
            ),
        );
        assert(steps_view(steps) =~= move_script(
            path_join(work_folder@, job.work_file_name()),
            resolved(job.output_path@, opt_str_view(media_root)),
        ));
        Script::new(steps)
    }

    /// The script that puts the source files of a job out of the way.
    pub fn disable_source_files(&self, job: &Job, media_root: Option<&str>) -> (r: Script)
        ensures
            r == Script::spec_new(r.steps),
            steps_view(r.steps) == disable_script(*job, media_root),
    {
        let input = job.full_input_path(media_root);
        let disabled_ext = disabled_extension_for(&extension(input.as_str()));
        let disabled = if has_no_separator(disabled_ext.as_str()) {
            with_extension(input.as_str(), disabled_ext.as_str())
        } else {
            input.clone().concat(".disabled")
        };
        let mut steps = one_step(
            must_step(
                ExecOp::RenameIfPresent { from: input, to: disabled },
                Expect::Done,
                ExecErrorKind::DisableFailed,
            ),
        );
        match job.full_subtitle_path(media_root) {
            Some(vtt) => {
                proof {
                    reveal_strlit("vtt.disabled");
                }
                let disabled_vtt = with_extension(vtt.as_str(), "vtt.disabled");
                push_step(
                    &mut steps,
                    must_step(
                        ExecOp::RenameIfPresent { from: vtt, to: disabled_vtt },
                        Expect::Done,
                        ExecErrorKind::DisableFailed,
                    ),
                );
            },
            None => {},
        }
        Script::new(steps)
    }

    /// The progress that a probe finds: resuming from the partial output at
    /// `partial` where the probe gives it a positive length, else nothing.
    pub open spec fn progress_found(probe: ProbeReport, partial: Seq<char>, found: JobProgress) -> bool {
        match probe {
            ProbeReport::Duration { micros } if micros > 0 => {
                &&& found.started
                &&& opt_view(found.partial_output_path) == Some(partial)
                &&& found.partial_duration_micros == Some(micros)
            },
            _ => found.is_fresh(),
        }
    }

    /// The removal that a probe asks for: none where no file was found or
    /// the file can be resumed from; else that of the unusable file at
    /// `partial`.
    pub open spec fn removal_asked(probe: ProbeReport, partial: Seq<char>) -> Option<ExecOpView> {
        match probe {
            ProbeReport::Absent => None,
            ProbeReport::Duration { micros } if micros > 0 => None,
            _ => Some(ExecOpView::RemoveFile { path: partial }),
        }
    }

    /// Takes what the probe of the work folder found for a job. It says
    /// whether the job has usable partial output, and hands out the
    /// removal of partial output that is not usable.
    ///
    /// The job's progress is set from the probe alone, whatever it held
    /// before: to the partial output and its length where the length is
    /// positive, else to nothing. Nothing else of the job changes. A file
    /// of length zero, or that the probe could make nothing of, is to be
    /// removed: the operation that removes it is the second part of the
    /// result, for the driver to perform before anything else.
    pub fn detect_partial_progress(&self, job: &mut Job, work_folder: &str, probe: ProbeReport) -> (r:
        (bool, Option<ExecOp>))
        ensures
            r.0 == (probe matches ProbeReport::Duration { micros } && micros > 0),
            opt_exec_view(r.1) == Self::removal_asked(
                probe,
                path_join(work_folder@, old(job).work_file_name()),
            ),
            Self::progress_found(
                probe,
                path_join(work_folder@, old(job).work_file_name()),
                final(job).progress,
            ),
            final(job).id == old(job).id,
            final(job).input_path == old(job).input_path,
            final(job).output_path == old(job).output_path,
            final(job).subtitle_path == old(job).subtitle_path,
            final(job).file_type == old(job).file_type,
            final(job).quality_settings == old(job).quality_settings,
            final(job).post_processing == old(job).post_processing,
    {
        match probe {
            ProbeReport::Absent => {
                job.progress = JobProgress::fresh();
                (false, None)
            },
            ProbeReport::Duration { micros } => {
                let partial_path = job.work_folder_output_path(work_folder);
                if micros > 0 {
                    job.progress = JobProgress {
                        started: true,
                        partial_output_path: Some(partial_path),
                        partial_duration_micros: Some(micros),
                    };
                    (true, None)
                } else {
                    job.progress = JobProgress::fresh();
                    (false, Some(ExecOp::RemoveFile { path: partial_path }))
                }
            },
            ProbeReport::Unusable => {
                let partial_path = job.work_folder_output_path(work_folder);
                job.progress = JobProgress::fresh();
                (false, Some(ExecOp::RemoveFile { path: partial_path }))
            },
        }
    }

    /// Begins an attempt on a job with what the probe of the work folder
    /// found.
    ///
    /// Partial output of positive length is resumed from: the script is
    /// that of a resumed run, seeking to exactly that length. Partial
    /// output of length zero, or that the probe could make nothing of, is
    /// to be removed, and the script is that of a fresh run, as it is
    /// where there is no partial output.
    pub fn begin_attempt(
        &self,
        job: &mut Job,
        media_root: Option<&str>,
        work_folder: &str,
        probe: ProbeReport,
    ) -> (plan: AttemptPlan)
        ensures
            Self::progress_found(
                probe,
                path_join(work_folder@, old(job).work_file_name()),
                final(job).progress,
            ),
            final(job).id == old(job).id,
            final(job).input_path == old(job).input_path,
            final(job).output_path == old(job).output_path,
            final(job).subtitle_path == old(job).subtitle_path,
            final(job).file_type == old(job).file_type,
            final(job).quality_settings == old(job).quality_settings,
            final(job).post_processing == old(job).post_processing,
            plan.script == Script::spec_new(plan.script.steps),
            plan.resuming == (probe matches ProbeReport::Duration { micros } && micros > 0),
            opt_exec_view(plan.discard) == Self::removal_asked(
                probe,
                path_join(work_folder@, old(job).work_file_name()),
            ),
            steps_view(plan.script.steps) == match probe {
                ProbeReport::Duration { micros } if micros > 0 => resume_script(
                    self.background(),
                    *final(job),
                    media_root,
                    path_join(work_folder@, old(job).work_file_name()),
                    path_join(work_folder@, old(job).work_file_name()),
                    micros,
                ),
                _ => fresh_script(
                    self.background(),
                    *final(job),
                    media_root,
                    path_join(work_folder@, old(job).work_file_name()),
                ),
            },
    {
        let (resuming, discard) = self.detect_partial_progress(job, work_folder, probe);
        let script = self.process_job(job, media_root, Some(work_folder), resuming);
        AttemptPlan { resuming, discard, script }
    }
}

} // verus!
