use plexify::commands::{
    check_media_root, file_type_error, AddCommand, CleanCommand, CommandError, JobProcessResult, JobProcessor,
    JobProcessorConfig, LogLevel, PathProbe, ScanCommand, WorkCommand,
};
use plexify::config::Config;
use plexify::ffmpeg::{format_seek, FFmpegProcessor, ProbeReport};
use plexify::job::{
    Job, JobError, MediaFileType, PostProcessingSettings, QualityOverrides, QualitySettings,
};
use plexify::queue::JobQueue;
use plexify::script::{ExecError, ExecErrorKind, ExecOp, ExecOutcome, Expect, Script, Step};
use plexify::worker::{Worker, WorkerAction, WorkerEvent, WorkerLoop, WorkerPhase, COOLDOWN_SECONDS};
use plexify::JobPriority;

fn strings(items: &[&str]) -> Vec<String> {
    items.iter().map(|s| s.to_string()).collect()
}

fn mkv_job() -> Job {
    Job::with_id(
        "id1".to_string(),
        "show/ep.mkv".to_string(),
        MediaFileType::Mkv,
        QualitySettings {
            ffmpeg_preset: "slow".to_string(),
            ffmpeg_crf: "18".to_string(),
            ffmpeg_audio_bitrate: "256k".to_string(),
        },
        PostProcessingSettings { disable_source_files: true },
        "/media",
    )
}

fn webm_job() -> Job {
    Job::with_id(
        "id2".to_string(),
        "clip.webm".to_string(),
        MediaFileType::WebM,
        QualitySettings::default(),
        PostProcessingSettings::default(),
        "/media",
    )
}

fn processor(background: bool) -> FFmpegProcessor {
    FFmpegProcessor::new(Config::default(), background)
}

/// Runs a script to its end, answering each operation by `answer`, and
/// gives back the operations in the order in which they were asked for.
fn run(mut script: Script, answer: &dyn Fn(&ExecOp) -> ExecOutcome) -> (Vec<ExecOp>, Result<(), ExecError>) {
    let mut asked = Vec::new();
    loop {
        let outcome = match script.request() {
            Some(op) => {
                asked.push(clone_op(op));
                answer(op)
            }
            None => break,
        };
        script = script.advance(outcome);
    }
    (asked, script.result().unwrap())
}

fn clone_op(op: &ExecOp) -> ExecOp {
    match op {
        ExecOp::Exists { path } => ExecOp::Exists { path: path.clone() },
        ExecOp::EnsureParent { path } => ExecOp::EnsureParent { path: path.clone() },
        ExecOp::Run { command } => ExecOp::Run { command: command.clone() },
        ExecOp::WriteFile { path, content } => {
            ExecOp::WriteFile { path: path.clone(), content: content.clone() }
        }
        ExecOp::RemoveFile { path } => ExecOp::RemoveFile { path: path.clone() },
        ExecOp::Rename { from, to } => ExecOp::Rename { from: from.clone(), to: to.clone() },
        ExecOp::RenameIfPresent { from, to } => {
            ExecOp::RenameIfPresent { from: from.clone(), to: to.clone() }
        }
    }
}

fn all_well(op: &ExecOp) -> ExecOutcome {
    match op {
        ExecOp::Exists { .. } => ExecOutcome::Present,
        _ => ExecOutcome::Done,
    }
}

#[test]
fn processors_know_their_mode() {
    assert!(!processor(false).is_background());
    assert!(processor(true).is_background());
    assert_eq!(processor(true).config(), &Config::default());
    assert_eq!(processor(false).build_base_command(), strings(&["ffmpeg"]));
    assert_eq!(processor(true).build_base_command(), strings(&["nice", "-n", "19", "ffmpeg"]));
}

#[test]
fn seek_text_has_six_fraction_digits() {
    assert_eq!(format_seek(0), "0.000000");
    assert_eq!(format_seek(1), "0.000001");
    assert_eq!(format_seek(12_500_000), "12.500000");
    assert_eq!(format_seek(3_600_000_123), "3600.000123");
}

#[test]
fn input_and_encoding_options_come_from_the_job() {
    let p = processor(false);
    let mut cmd = strings(&["ffmpeg"]);
    p.add_input_options(&mut cmd, &mkv_job(), None);
    assert_eq!(
        cmd,
        strings(&[
            "ffmpeg", "-fflags", "+genpts", "-avoid_negative_ts", "make_zero",
            "-fix_sub_duration", "-i", "/media/show/ep.mkv", "-map", "0:v:0", "-map", "0:a:0",
            "-map", "0:s:0",
        ])
    );
    let mut cmd = Vec::new();
    p.add_input_options(&mut cmd, &webm_job(), None);
    assert_eq!(
        cmd,
        strings(&[
            "-fflags", "+genpts", "-avoid_negative_ts", "make_zero", "-i", "/media/clip.webm",
            "-i", "/media/clip.vtt", "-map", "0:v:0", "-map", "0:a:0", "-map", "1:s:0",
        ])
    );
    let mut cmd = strings(&["x"]);
    p.add_encoding_options(&mut cmd, &mkv_job());
    assert_eq!(
        cmd,
        strings(&[
            "x", "-c:v", "libx264", "-preset", "slow", "-crf", "18", "-c:a", "aac", "-b:a",
            "256k", "-c:s", "mov_text",
        ])
    );
    assert_eq!(
        p.probe_command("/w/f.mp4"),
        strings(&[
            "ffprobe", "-v", "quiet", "-show_entries", "format=duration", "-of", "csv=p=0",
            "/w/f.mp4",
        ])
    );
}

#[test]
fn fresh_run_checks_then_encodes_once() {
    let p = processor(false);
    let job = mkv_job();
    let script = p.process_job(&job, None, Some("/work"), false);
    let (asked, result) = run(script, &all_well);
    assert_eq!(result, Ok(()));
    assert_eq!(
        asked,
        vec![
            ExecOp::Exists { path: "/media/show/ep.mkv".to_string() },
            ExecOp::EnsureParent { path: "/work/id1_ep.mp4".to_string() },
            ExecOp::Run {
                command: strings(&[
                    "ffmpeg", "-fflags", "+genpts", "-avoid_negative_ts", "make_zero",
                    "-fix_sub_duration", "-i", "/media/show/ep.mkv", "-map", "0:v:0", "-map",
                    "0:a:0", "-map", "0:s:0", "-c:v", "libx264", "-preset", "slow", "-crf", "18",
                    "-c:a", "aac", "-b:a", "256k", "-c:s", "mov_text", "-y", "/work/id1_ep.mp4",
                ]),
            },
        ]
    );
}

#[test]
fn fresh_run_without_work_folder_writes_to_the_final_place() {
    let p = processor(true);
    let script = p.process_job(&mkv_job(), None, None, false);
    let (asked, result) = run(script, &all_well);
    assert_eq!(result, Ok(()));
    assert_eq!(asked[1], ExecOp::EnsureParent { path: "/media/show/ep.mp4".to_string() });
    match &asked[2] {
        ExecOp::Run { command } => {
            assert_eq!(command[..4], strings(&["nice", "-n", "19", "ffmpeg"])[..]);
            assert_eq!(command.last().unwrap(), "/media/show/ep.mp4");
        }
        other => panic!("unexpected {:?}", other),
    }
}

#[test]
fn fresh_run_fails_on_missing_input_subtitles_or_encoder() {
    let p = processor(false);
    let (asked, result) = run(p.process_job(&mkv_job(), None, Some("/work"), false), &|_| {
        ExecOutcome::Absent
    });
    assert_eq!(asked.len(), 1);
    assert_eq!(
        result,
        Err(ExecError { kind: ExecErrorKind::InputMissing, detail: "/media/show/ep.mkv".to_string() })
    );

    let (asked, result) =
        run(p.process_job(&webm_job(), None, Some("/work"), false), &|op| match op {
            ExecOp::Exists { path } if path.ends_with(".vtt") => ExecOutcome::Absent,
            other => all_well(other),
        });
    assert_eq!(asked.len(), 3);
    assert_eq!(
        result,
        Err(ExecError { kind: ExecErrorKind::SubtitleMissing, detail: "/media/clip.vtt".to_string() })
    );

    let mut no_path = webm_job();
    no_path.subtitle_path = None;
    let (asked, result) = run(p.process_job(&no_path, None, Some("/work"), false), &all_well);
    assert_eq!(asked.len(), 2);
    assert_eq!(
        result,
        Err(ExecError { kind: ExecErrorKind::SubtitlePathMissing, detail: String::new() })
    );

    let (_, result) = run(p.process_job(&mkv_job(), None, Some("/work"), false), &|op| match op {
        ExecOp::Run { .. } => ExecOutcome::Failed { reason: "exit status 1".to_string() },
        other => all_well(other),
    });
    assert_eq!(
        result,
        Err(ExecError { kind: ExecErrorKind::EncoderFailed, detail: "exit status 1".to_string() })
    );

    let (_, result) = run(p.process_job(&mkv_job(), None, Some("/work"), false), &|op| match op {
        ExecOp::EnsureParent { .. } => ExecOutcome::Failed { reason: "denied".to_string() },
        other => all_well(other),
    });
    assert_eq!(
        result,
        Err(ExecError { kind: ExecErrorKind::OutputDirFailed, detail: "denied".to_string() })
    );
}

#[test]
fn positive_partial_output_is_resumed_from_its_exact_length() {
    let p = processor(false);
    let mut job = mkv_job();
    let plan = p.begin_attempt(&mut job, None, "/work", ProbeReport::Duration { micros: 12_500_000 });
    assert!(plan.resuming);
    assert_eq!(plan.discard, None);
    assert!(job.progress.started);
    assert_eq!(job.progress.partial_output_path, Some("/work/id1_ep.mp4".to_string()));
    assert_eq!(job.progress.partial_duration_micros, Some(12_500_000));
    assert_eq!(job.id, "id1");
    assert_eq!(job.input_path, "/media/show/ep.mkv");
    assert_eq!(job.output_path, "/media/show/ep.mp4");

    let (asked, result) = run(plan.script, &all_well);
    assert_eq!(result, Ok(()));
    assert_eq!(
        asked,
        vec![
            ExecOp::Run {
                command: strings(&[
                    "ffmpeg", "-ss", "12.500000", "-fflags", "+genpts", "-avoid_negative_ts",
                    "make_zero", "-fix_sub_duration", "-i", "/media/show/ep.mkv", "-map", "0:v:0",
                    "-map", "0:a:0", "-map", "0:s:0", "-c:v", "libx264", "-preset", "slow",
                    "-crf", "18", "-c:a", "aac", "-b:a", "256k", "-c:s", "mov_text", "-y",
                    "/work/id1_ep.continuation.mp4",
                ]),
            },
            ExecOp::WriteFile {
                path: "/work/id1_ep.concat.txt".to_string(),
                content: "file '/work/id1_ep.mp4'\nfile '/work/id1_ep.continuation.mp4'".to_string(),
            },
            ExecOp::Run {
                command: strings(&[
                    "ffmpeg", "-f", "concat", "-safe", "0", "-i", "/work/id1_ep.concat.txt", "-c",
                    "copy", "-y", "/work/id1_ep.joined.mp4",
                ]),
            },
            ExecOp::RemoveFile { path: "/work/id1_ep.concat.txt".to_string() },
            ExecOp::Rename {
                from: "/work/id1_ep.joined.mp4".to_string(),
                to: "/work/id1_ep.mp4".to_string(),
            },
            ExecOp::RemoveFile { path: "/work/id1_ep.continuation.mp4".to_string() },
        ]
    );
}

#[test]
fn failed_continuation_leaves_the_partial_output_alone() {
    let p = processor(false);
    let mut job = mkv_job();
    let plan = p.begin_attempt(&mut job, None, "/work", ProbeReport::Duration { micros: 1 });
    let (asked, result) = run(plan.script, &|op| match op {
        ExecOp::Run { .. } => ExecOutcome::Failed { reason: "boom".to_string() },
        other => all_well(other),
    });
    assert_eq!(asked.len(), 1);
    assert_eq!(
        result,
        Err(ExecError { kind: ExecErrorKind::EncoderFailed, detail: "boom".to_string() })
    );
}

#[test]
fn failed_joining_removes_only_the_list() {
    let p = processor(false);
    let mut job = mkv_job();
    let plan = p.begin_attempt(&mut job, None, "/work", ProbeReport::Duration { micros: 5 });
    let (asked, result) = run(plan.script, &|op| match op {
        ExecOp::Run { command } if command.contains(&"concat".to_string()) => {
            ExecOutcome::Failed { reason: "bad segment".to_string() }
        }
        other => all_well(other),
    });
    assert_eq!(asked.len(), 5);
    assert_eq!(asked[3], ExecOp::RemoveFile { path: "/work/id1_ep.concat.txt".to_string() });
    assert_eq!(asked[4], ExecOp::RemoveFile { path: "/work/id1_ep.joined.mp4".to_string() });
    assert_eq!(
        result,
        Err(ExecError { kind: ExecErrorKind::EncoderFailed, detail: "bad segment".to_string() })
    );
    // Nothing that was asked for writes to the partial output.
    for op in &asked {
        match op {
            ExecOp::Run { command } => assert_ne!(command.last().unwrap(), "/work/id1_ep.mp4"),
            ExecOp::WriteFile { path, .. } | ExecOp::RemoveFile { path } => {
                assert_ne!(path, "/work/id1_ep.mp4")
            }
            ExecOp::Rename { .. } | ExecOp::RenameIfPresent { .. } => panic!("no renaming"),
            ExecOp::Exists { .. } | ExecOp::EnsureParent { .. } => {}
        }
    }

    let plan = p.begin_attempt(&mut job, None, "/work", ProbeReport::Duration { micros: 5 });
    let (asked, result) = run(plan.script, &|op| match op {
        ExecOp::Rename { .. } => ExecOutcome::Failed { reason: "busy".to_string() },
        other => all_well(other),
    });
    assert_eq!(asked.len(), 6);
    assert_eq!(asked[5], ExecOp::RemoveFile { path: "/work/id1_ep.joined.mp4".to_string() });
    assert_eq!(
        result,
        Err(ExecError { kind: ExecErrorKind::MoveFailed, detail: "busy".to_string() })
    );

    let plan = p.begin_attempt(&mut job, None, "/work", ProbeReport::Duration { micros: 5 });
    let (asked, result) = run(plan.script, &|op| match op {
        ExecOp::WriteFile { .. } => ExecOutcome::Failed { reason: "full".to_string() },
        other => all_well(other),
    });
    assert_eq!(asked.len(), 2);
    assert_eq!(
        result,
        Err(ExecError { kind: ExecErrorKind::ConcatListFailed, detail: "full".to_string() })
    );
}

#[test]
fn unusable_partial_output_is_removed_and_the_run_is_fresh() {
    let p = processor(false);
    for probe in [ProbeReport::Duration { micros: 0 }, ProbeReport::Unusable] {
        let mut job = mkv_job();
        // Whatever an earlier attempt left in the progress is not trusted.
        job.progress.started = true;
        job.progress.partial_output_path = Some("/old".to_string());
        job.progress.partial_duration_micros = Some(77);
        let plan = p.begin_attempt(&mut job, None, "/work", probe);
        assert!(!plan.resuming);
        assert_eq!(
            plan.discard,
            Some(ExecOp::RemoveFile { path: "/work/id1_ep.mp4".to_string() })
        );
        assert!(!job.progress.started);
        assert_eq!(job.progress.partial_output_path, None);
        assert_eq!(job.progress.partial_duration_micros, None);
        let (asked, result) = run(plan.script, &all_well);
        assert_eq!(result, Ok(()));
        assert_eq!(asked.len(), 3);
        assert_eq!(asked[0], ExecOp::Exists { path: "/media/show/ep.mkv".to_string() });
    }
    let mut job = mkv_job();
    let plan = p.begin_attempt(&mut job, None, "/work", ProbeReport::Absent);
    assert!(!plan.resuming);
    assert_eq!(plan.discard, None);
    assert_eq!(run(plan.script, &all_well).0.len(), 3);
}

#[test]
fn detect_partial_progress_says_whether_to_resume() {
    let p = processor(false);
    let mut job = mkv_job();
    let removal = || Some(ExecOp::RemoveFile { path: "/work/id1_ep.mp4".to_string() });
    assert_eq!(p.detect_partial_progress(&mut job, "/work", ProbeReport::Absent), (false, None));
    assert!(!job.progress.started);
    // An unusable file is to be removed, and nothing is resumed.
    assert_eq!(
        p.detect_partial_progress(&mut job, "/work", ProbeReport::Unusable),
        (false, removal())
    );
    assert!(!job.progress.started);
    assert_eq!(job.progress.partial_output_path, None);
    assert_eq!(job.progress.partial_duration_micros, None);
    assert_eq!(
        p.detect_partial_progress(&mut job, "/work", ProbeReport::Duration { micros: 0 }),
        (false, removal())
    );
    assert!(!job.progress.started);
    assert_eq!(
        p.detect_partial_progress(&mut job, "/work", ProbeReport::Duration { micros: 9 }),
        (true, None)
    );
    assert!(job.progress.started);
    // A probe that finds the file gone resets the progress.
    assert_eq!(p.detect_partial_progress(&mut job, "/work", ProbeReport::Absent), (false, None));
    assert_eq!(job.progress.partial_duration_micros, None);
}

#[test]
fn process_job_resumes_only_with_path_length_and_file() {
    let p = processor(false);
    let mut job = mkv_job();
    job.progress.partial_output_path = Some("/work/part.mp4".to_string());
    job.progress.partial_duration_micros = Some(2_000_000);
    let resumed = run(p.process_job(&job, None, Some("/work"), true), &all_well).0;
    assert_eq!(resumed.len(), 6);
    match &resumed[1] {
        ExecOp::WriteFile { content, .. } => {
            assert_eq!(content, "file '/work/part.mp4'\nfile '/work/id1_ep.continuation.mp4'")
        }
        other => panic!("unexpected {:?}", other),
    }
    assert_eq!(run(p.process_job(&job, None, Some("/work"), false), &all_well).0.len(), 3);
    job.progress.partial_duration_micros = None;
    assert_eq!(run(p.process_job(&job, None, Some("/work"), true), &all_well).0.len(), 3);
}

#[test]
fn finished_output_moves_unless_something_is_in_the_way() {
    let p = processor(false);
    let job = mkv_job();
    let (asked, result) = run(p.move_to_destination(&job, None, "/work"), &|op| match op {
        ExecOp::Exists { path } if path == "/media/show/ep.mp4" => ExecOutcome::Absent,
        other => all_well(other),
    });
    assert_eq!(result, Ok(()));
    assert_eq!(
        asked,
        vec![
            ExecOp::Exists { path: "/work/id1_ep.mp4".to_string() },
            ExecOp::Exists { path: "/media/show/ep.mp4".to_string() },
            ExecOp::EnsureParent { path: "/media/show/ep.mp4".to_string() },
            ExecOp::Rename {
                from: "/work/id1_ep.mp4".to_string(),
                to: "/media/show/ep.mp4".to_string(),
            },
        ]
    );

    let (asked, result) = run(p.move_to_destination(&job, None, "/work"), &all_well);
    assert_eq!(asked.len(), 2);
    assert_eq!(
        result,
        Err(ExecError {
            kind: ExecErrorKind::DestinationExists,
            detail: "/media/show/ep.mp4".to_string(),
        })
    );

    let (asked, result) = run(p.move_to_destination(&job, None, "/work"), &|_| ExecOutcome::Absent);
    assert_eq!(asked.len(), 1);
    assert_eq!(
        result,
        Err(ExecError {
            kind: ExecErrorKind::WorkOutputMissing,
            detail: "/work/id1_ep.mp4".to_string(),
        })
    );

    let (_, result) = run(p.move_to_destination(&job, None, "/work"), &|op| match op {
        ExecOp::Exists { path } if path == "/media/show/ep.mp4" => ExecOutcome::Absent,
        ExecOp::Rename { .. } => ExecOutcome::Failed { reason: "cross-device".to_string() },
        other => all_well(other),
    });
    assert_eq!(
        result,
        Err(ExecError { kind: ExecErrorKind::MoveFailed, detail: "cross-device".to_string() })
    );
}

#[test]
fn source_files_are_renamed_out_of_the_way() {
    let p = processor(false);
    let (asked, result) = run(p.disable_source_files(&webm_job(), None), &all_well);
    assert_eq!(result, Ok(()));
    assert_eq!(
        asked,
        vec![
            ExecOp::RenameIfPresent {
                from: "/media/clip.webm".to_string(),
                to: "/media/clip.webm.disabled".to_string(),
            },
            ExecOp::RenameIfPresent {
                from: "/media/clip.vtt".to_string(),
                to: "/media/clip.vtt.disabled".to_string(),
            },
        ]
    );
    let (asked, _) = run(p.disable_source_files(&mkv_job(), None), &all_well);
    assert_eq!(
        asked,
        vec![ExecOp::RenameIfPresent {
            from: "/media/show/ep.mkv".to_string(),
            to: "/media/show/ep.mkv.disabled".to_string(),
        }]
    );
    let (_, result) = run(p.disable_source_files(&mkv_job(), None), &|_| ExecOutcome::Failed {
        reason: "gone".to_string(),
    });
    assert_eq!(
        result,
        Err(ExecError { kind: ExecErrorKind::DisableFailed, detail: "gone".to_string() })
    );
}

#[test]
fn scripts_pass_tried_steps_and_stop_at_aborts() {
    let remove = |p: &str| ExecOp::RemoveFile { path: p.to_string() };
    let script = Script::new(vec![
        Step::Try { op: remove("a") },
        Step::Must {
            op: ExecOp::Exists { path: "b".to_string() },
            expect: Expect::Absent,
            error: ExecErrorKind::DestinationExists,
            cleanup: vec![remove("c"), remove("d")],
        },
        Step::Try { op: remove("e") },
    ]);
    assert_eq!(script.result(), None);
    let (asked, result) = run(script, &|_| ExecOutcome::Failed { reason: "no".to_string() });
    assert_eq!(
        asked,
        vec![remove("a"), ExecOp::Exists { path: "b".to_string() }, remove("c"), remove("d")]
    );
    assert_eq!(
        result,
        Err(ExecError { kind: ExecErrorKind::DestinationExists, detail: "no".to_string() })
    );

    let script = Script::new(vec![
        Step::Abort { error: ExecErrorKind::SubtitlePathMissing, detail: "why".to_string() },
        Step::Try { op: remove("never") },
    ]);
    assert_eq!(script.request(), None);
    let script = script.advance(ExecOutcome::Done);
    assert_eq!(
        script.result(),
        Some(Err(ExecError { kind: ExecErrorKind::SubtitlePathMissing, detail: "why".to_string() }))
    );
    assert_eq!(Script::new(Vec::new()).result(), Some(Ok(())));
    assert!(ExecOutcome::Present.is_as_expected(Expect::Present));
    assert!(!ExecOutcome::Done.is_as_expected(Expect::Present));
    assert_eq!(ExecOp::Run { command: strings(&["x"]) }.subject(), "");
    assert_eq!(
        ExecOp::Rename { from: "f".to_string(), to: "t".to_string() }.subject(),
        "f"
    );
}

fn walk(state: WorkerLoop, events: &[WorkerEvent]) -> (WorkerLoop, Vec<WorkerAction>) {
    let mut state = state;
    let mut actions = Vec::new();
    for event in events {
        let (next, action) = state.step(*event);
        state = next;
        actions.push(action);
    }
    (state, actions)
}

#[test]
fn worker_loop_completes_a_successful_job() {
    let (state, first) = WorkerLoop::start(JobPriority::Episode, 60);
    assert_eq!(first, WorkerAction::CheckCancelled);
    let (state, actions) = walk(
        state,
        &[
            WorkerEvent::Clear,
            WorkerEvent::Claimed { disable_sources: true },
            WorkerEvent::Done,
            WorkerEvent::Done,
            WorkerEvent::Failed,
            WorkerEvent::Done,
        ],
    );
    assert_eq!(
        actions,
        vec![
            WorkerAction::Claim { priority: Some(JobPriority::Episode) },
            WorkerAction::Transcode,
            WorkerAction::MoveOutput,
            WorkerAction::DisableSources,
            WorkerAction::Complete,
            WorkerAction::CheckCancelled,
        ]
    );
    assert_eq!(state.phase, WorkerPhase::Polling);
}

#[test]
fn worker_loop_returns_a_failed_job_and_cools_down() {
    let (state, _) = WorkerLoop::start(JobPriority::Unordered, 60);
    let (state, actions) = walk(
        state,
        &[
            WorkerEvent::Clear,
            WorkerEvent::Claimed { disable_sources: false },
            WorkerEvent::Failed,
            WorkerEvent::Done,
            WorkerEvent::Done,
        ],
    );
    assert_eq!(
        actions,
        vec![
            WorkerAction::Claim { priority: None },
            WorkerAction::Transcode,
            WorkerAction::ReturnToQueue,
            WorkerAction::Sleep { seconds: COOLDOWN_SECONDS },
            WorkerAction::CheckCancelled,
        ]
    );
    assert_eq!(COOLDOWN_SECONDS, 10);
    assert_eq!(state.phase, WorkerPhase::Polling);
}

#[test]
fn worker_loop_returns_a_job_whose_output_cannot_be_moved() {
    let (state, _) = WorkerLoop::start(JobPriority::Unordered, 60);
    let (_, actions) = walk(
        state,
        &[
            WorkerEvent::Clear,
            WorkerEvent::Claimed { disable_sources: false },
            WorkerEvent::Done,
            WorkerEvent::Failed,
            WorkerEvent::Done,
        ],
    );
    assert_eq!(
        actions[2..],
        [WorkerAction::MoveOutput, WorkerAction::ReturnToQueue, WorkerAction::CheckCancelled]
    );
    let (state, _) = WorkerLoop::start(JobPriority::Unordered, 60);
    let (_, actions) = walk(
        state,
        &[
            WorkerEvent::Clear,
            WorkerEvent::Claimed { disable_sources: false },
            WorkerEvent::Done,
            WorkerEvent::Done,
            WorkerEvent::Failed,
        ],
    );
    assert_eq!(
        actions[3..],
        [WorkerAction::Complete, WorkerAction::Sleep { seconds: COOLDOWN_SECONDS }]
    );
}

#[test]
fn worker_loop_sleeps_when_idle_and_stops_when_cancelled() {
    let (state, _) = WorkerLoop::start(JobPriority::Unordered, 42);
    let (state, actions) = walk(state, &[WorkerEvent::Clear, WorkerEvent::Empty, WorkerEvent::Done]);
    assert_eq!(
        actions,
        vec![
            WorkerAction::Claim { priority: None },
            WorkerAction::Sleep { seconds: 42 },
            WorkerAction::CheckCancelled,
        ]
    );
    let (state, actions) = walk(state, &[WorkerEvent::Cancelled, WorkerEvent::Clear]);
    assert_eq!(actions, vec![WorkerAction::Stop, WorkerAction::Stop]);
    assert_eq!(state.phase, WorkerPhase::Stopped);

    let (state, _) = WorkerLoop::start(JobPriority::Unordered, 42);
    let (_, actions) = walk(state, &[WorkerEvent::Clear, WorkerEvent::Empty, WorkerEvent::Cancelled]);
    assert_eq!(actions[2], WorkerAction::Stop);

    let (state, _) = WorkerLoop::start(JobPriority::Unordered, 42);
    let (_, actions) = walk(state, &[WorkerEvent::Clear, WorkerEvent::Failed]);
    assert_eq!(actions[1], WorkerAction::Sleep { seconds: COOLDOWN_SECONDS });
}

#[test]
fn workers_and_commands_keep_what_they_are_given() {
    let worker = Worker::new("w1".to_string(), "/media".to_string(), true);
    assert_eq!(worker.id, "w1");
    assert_eq!(worker.media_root, "/media");
    assert!(worker.background_mode);

    let work = WorkCommand::new("/media".to_string(), "/work".to_string(), false, JobPriority::Unordered);
    assert_eq!(work.media_root, "/media");
    assert!(!work.background_mode);
    assert_eq!(work.priority_mode, JobPriority::Unordered);
    assert_eq!(work.mode_name(), "Power Worker (Foreground)");
    assert_eq!(
        WorkCommand::new(String::new(), String::new(), true, JobPriority::Episode).mode_name(),
        "Low Priority Worker"
    );
    assert_eq!(work.job_media_root(&mkv_job()), None);
    let mut relative = mkv_job();
    relative.input_path = "show/ep.mkv".to_string();
    assert_eq!(work.job_media_root(&relative), Some("/media"));

    assert_eq!(work.queue(), JobQueue::new("/media".to_string(), "/work".to_string()));
    let dir = PathProbe { exists: true, is_dir: true, is_file: false };
    let config = Config::default();
    let (state, action) = work.start(dir, &config).unwrap();
    assert_eq!(action, WorkerAction::CheckCancelled);
    assert_eq!(
        state,
        WorkerLoop { priority: JobPriority::Unordered, sleep_interval: 60, phase: WorkerPhase::Polling }
    );
    assert_eq!(
        work.start(PathProbe { exists: false, is_dir: false, is_file: false }, &config),
        Err(CommandError::MediaRootMissing { path: "/media".to_string() })
    );
    assert_eq!(
        work.start(PathProbe { exists: true, is_dir: false, is_file: true }, &config),
        Err(CommandError::NotADirectory { path: "/media".to_string() })
    );

    let scan = ScanCommand::new("/m".to_string(), "/w".to_string(), Some("fast".to_string()));
    assert_eq!(scan.queue(), JobQueue::new("/m".to_string(), "/w".to_string()));
    assert_eq!(
        scan.job_settings(&QualityOverrides::none()).unwrap().quality_settings,
        QualitySettings::default()
    );
    let unknown = ScanCommand::new("/m".to_string(), "/w".to_string(), Some("best".to_string()));
    assert_eq!(
        unknown.job_settings(&QualityOverrides::none()),
        Err(JobError::UnknownPreset { name: "best".to_string() })
    );
    let add = AddCommand::new("/m/a.mkv".to_string(), "/w".to_string(), None);
    let plan = add.prepare(PathProbe { exists: true, is_dir: false, is_file: true }).unwrap();
    assert_eq!(add.queue(&plan), JobQueue::new("/m".to_string(), "/w".to_string()));
    assert_eq!(
        CleanCommand::new("/m".to_string()).queue(),
        JobQueue::new("/m".to_string(), "/m".to_string())
    );
    assert_eq!((scan.media_root.as_str(), scan.work_root.as_str()), ("/m", "/w"));
    assert_eq!(scan.preset, Some("fast".to_string()));
    let clean = CleanCommand::new("/m".to_string());
    assert_eq!(clean.worker_log_path(), "/m/_worker.log");
}

#[test]
fn media_root_must_be_an_existing_directory() {
    let dir = PathProbe { exists: true, is_dir: true, is_file: false };
    let file = PathProbe { exists: true, is_dir: false, is_file: true };
    let nothing = PathProbe { exists: false, is_dir: false, is_file: false };
    assert_eq!(check_media_root("/m", dir), Ok(()));
    assert_eq!(
        check_media_root("/m", file),
        Err(CommandError::NotADirectory { path: "/m".to_string() })
    );
    assert_eq!(
        check_media_root("/m", nothing),
        Err(CommandError::MediaRootMissing { path: "/m".to_string() })
    );
}

#[test]
fn add_command_prepares_type_root_and_relative_path() {
    let file = PathProbe { exists: true, is_dir: false, is_file: true };
    let add = AddCommand::new("/media/show/video.MKV".to_string(), "/work".to_string(), None);
    let plan = add.prepare(file).unwrap();
    assert_eq!(plan.file_type, MediaFileType::Mkv);
    assert_eq!(plan.media_root, "/media/show");
    assert_eq!(plan.relative_path, "video.MKV");

    assert_eq!(
        add.prepare(PathProbe { exists: false, is_dir: false, is_file: false }),
        Err(CommandError::FileMissing { path: "/media/show/video.MKV".to_string() })
    );
    assert_eq!(
        add.prepare(PathProbe { exists: true, is_dir: true, is_file: false }),
        Err(CommandError::NotAFile { path: "/media/show/video.MKV".to_string() })
    );
    let mp4 = AddCommand::new("/media/video.mp4".to_string(), "/work".to_string(), None);
    assert_eq!(
        mp4.prepare(file),
        Err(CommandError::UnsupportedFileType {
            message: "Unsupported file type. Only .webm and .mkv files are supported. Got: \"/media/video.mp4\"".to_string(),
        })
    );
    assert_eq!(
        JobProcessor::determine_file_type("video"),
        Err("File has no extension. Only .webm and .mkv files are supported: \"video\"".to_string())
    );
    assert_eq!(add.conclude(JobProcessResult::Created), Ok(()));
    assert_eq!(add.conclude(JobProcessResult::OutputExists), Ok(()));
    assert_eq!(add.conclude(JobProcessResult::AlreadyQueued), Ok(()));
    assert_eq!(
        add.conclude(JobProcessResult::MissingSubtitle),
        Err(CommandError::MissingSubtitle { path: "/media/show/video.MKV".to_string() })
    );
}

#[test]
fn media_files_become_jobs_unless_something_speaks_against_it() {
    let queue = JobQueue::new("/media".to_string(), "/work".to_string());
    let config = JobProcessorConfig::from_preset(None, &QualityOverrides::none()).unwrap();
    let processor = JobProcessor::new(&queue, &config, "/media");
    let nothing_pending: Vec<String> = Vec::new();

    let mkv = processor.create_job("video.mkv", MediaFileType::Mkv);
    assert_eq!(mkv.input_path, "/media/video.mkv");
    assert_eq!(mkv.quality_settings, config.quality_settings);
    assert_eq!(
        processor.process_media_file(&mkv, false, &nothing_pending, false),
        Ok(JobProcessResult::Created)
    );
    assert_eq!(
        processor.process_media_file(&mkv, true, &nothing_pending, false),
        Ok(JobProcessResult::OutputExists)
    );
    assert_eq!(
        processor.process_media_file(&mkv, false, &vec![mkv.job_filename()], false),
        Ok(JobProcessResult::AlreadyQueued)
    );

    let mut webm = processor.create_job("video.webm", MediaFileType::WebM);
    assert_eq!(
        processor.process_media_file(&webm, false, &nothing_pending, true),
        Ok(JobProcessResult::Created)
    );
    assert_eq!(
        processor.process_media_file(&webm, false, &nothing_pending, false),
        Ok(JobProcessResult::MissingSubtitle)
    );
    webm.subtitle_path = None;
    assert_eq!(
        processor.process_media_file(&webm, false, &nothing_pending, true),
        Err(JobError::MissingSubtitlePath)
    );

    let line = processor
        .log_result("video.mkv", &MediaFileType::Mkv, &JobProcessResult::Created)
        .unwrap();
    assert_eq!(line.level, LogLevel::Info);
    assert_eq!(line.message, "➕ Queueing job for: \"video.mkv\" (embedded subs assumed)");
    let line = processor
        .log_result("video.webm", &MediaFileType::WebM, &JobProcessResult::Created)
        .unwrap();
    assert_eq!(line.message, "➕ Queueing job for: \"video.webm\"");
    let line = processor
        .log_result("video.webm", &MediaFileType::WebM, &JobProcessResult::MissingSubtitle)
        .unwrap();
    assert_eq!(line.level, LogLevel::Warn);
    assert_eq!(line.message, "⚠️ SKIPPING: Missing subtitle file for '\"video.webm\"'");
    assert_eq!(
        processor.log_result("v", &MediaFileType::Mkv, &JobProcessResult::OutputExists),
        None
    );
    assert_eq!(
        processor.log_result("v", &MediaFileType::Mkv, &JobProcessResult::AlreadyQueued),
        None
    );
}

#[test]
fn paths_in_messages_are_quoted_with_escapes() {
    assert_eq!(
        JobProcessor::determine_file_type("a \"b\".mp4"),
        Err("Unsupported file type. Only .webm and .mkv files are supported. Got: \"a \\\"b\\\".mp4\"".to_string())
    );
    let line = JobProcessor::result_message("\"x\"", MediaFileType::WebM, JobProcessResult::Created).unwrap();
    assert_eq!(line.message, "\u{2795} Queueing job for: \"x\"");
    assert_eq!(
        JobProcessor::result_message("q", MediaFileType::Mkv, JobProcessResult::OutputExists),
        None
    );
    assert_eq!(file_type_error(true, "\"p\""), "Unsupported file type. Only .webm and .mkv files are supported. Got: \"p\"");
    assert_eq!(file_type_error(false, "\"p\""), "File has no extension. Only .webm and .mkv files are supported: \"p\"");
}
