use plexify::commands::{file_type_of_lowercase, JobProcessor, JobProcessorConfig};
use plexify::ffmpeg::disabled_extension_for;
use plexify::episode::{ContentType, EpisodeMetadata};
use plexify::ignore::convert_gitignore_to_glob;
use plexify::job::{
    base_for, preset_of_lowercase, record_name_for_stem, work_name_for, Job, JobError,
    MediaFileType, PostProcessingSettings, QualityOverrides, QualityPreset, QualitySettings,
};
use plexify::queue::has_job_extension;
use plexify::naming::{NamingError, NamingRuleMatch};
use plexify::script::ExecOp;

fn path(text: &str) -> String {
    text.to_string()
}

#[test]
fn test_webm_job_creation() {
    let quality = QualitySettings::default();
    let post_processing = PostProcessingSettings::default();
    let media_root = path("/test/media");
    let job = Job::new(
        path("video.webm"),
        MediaFileType::WebM,
        quality,
        post_processing,
        &media_root,
    );
    assert_eq!(job.input_path, path("/test/media/video.webm"));
    assert_eq!(job.file_type, MediaFileType::WebM);
    assert_eq!(job.output_path, path("/test/media/video.mp4"));
    assert_eq!(job.subtitle_path, Some(path("/test/media/video.vtt")));
}

#[test]
fn test_mkv_job_creation() {
    let quality = QualitySettings::default();
    let post_processing = PostProcessingSettings::default();
    let media_root = path("/test/media");
    let job = Job::new(
        path("video.mkv"),
        MediaFileType::Mkv,
        quality,
        post_processing,
        &media_root,
    );
    assert_eq!(job.input_path, path("/test/media/video.mkv"));
    assert_eq!(job.file_type, MediaFileType::Mkv);
    assert_eq!(job.output_path, path("/test/media/video.mp4"));
    assert_eq!(job.subtitle_path, None);
}

#[test]
fn test_absolute_paths() {
    let quality = QualitySettings::default();
    let post_processing = PostProcessingSettings::default();
    let media_root = path("/media/root");
    let job = Job::new(
        path("/absolute/path/video.webm"),
        MediaFileType::WebM,
        quality,
        post_processing,
        &media_root,
    );

    assert_eq!(job.full_input_path(None), path("/absolute/path/video.webm"));
    assert_eq!(job.full_output_path(None), path("/absolute/path/video.mp4"));
    assert_eq!(
        job.full_subtitle_path(None),
        Some(path("/absolute/path/video.vtt"))
    );

    let different_root = path("/different/root");
    assert_eq!(
        job.full_input_path(Some(&different_root)),
        path("/absolute/path/video.webm")
    );
    assert_eq!(
        job.full_output_path(Some(&different_root)),
        path("/absolute/path/video.mp4")
    );
}

#[test]
fn test_relative_paths_with_media_root() {
    let quality = QualitySettings::default();
    let post_processing = PostProcessingSettings::default();
    let media_root = path("/media/root");
    let job = Job::new(
        path("relative/video.mkv"),
        MediaFileType::Mkv,
        quality,
        post_processing,
        &media_root,
    );

    assert_eq!(job.input_path, path("/media/root/relative/video.mkv"));
    assert_eq!(job.output_path, path("/media/root/relative/video.mp4"));
    assert_eq!(job.subtitle_path, None);

    assert_eq!(
        job.full_input_path(None),
        path("/media/root/relative/video.mkv")
    );
    assert_eq!(
        job.full_output_path(None),
        path("/media/root/relative/video.mp4")
    );
}

#[test]
fn test_quality_presets() {
    let fast = QualityPreset::Fast.to_quality_settings();
    assert_eq!(fast.ffmpeg_preset, "veryfast");
    assert_eq!(fast.ffmpeg_crf, "23");
    assert_eq!(fast.ffmpeg_audio_bitrate, "128k");

    let quality = QualityPreset::Quality.to_quality_settings();
    assert_eq!(quality.ffmpeg_preset, "slow");
    assert_eq!(quality.ffmpeg_crf, "18");
    assert_eq!(quality.ffmpeg_audio_bitrate, "256k");

    let balanced = QualityPreset::Balanced.to_quality_settings();
    assert_eq!(balanced.ffmpeg_preset, "medium");
    assert_eq!(balanced.ffmpeg_crf, "20");
    assert_eq!(balanced.ffmpeg_audio_bitrate, "192k");
}

#[test]
fn test_preset_from_name() {
    assert_eq!(
        QualityPreset::from_name("fast").unwrap(),
        QualityPreset::Fast
    );
    assert_eq!(
        QualityPreset::from_name("QUALITY").unwrap(),
        QualityPreset::Quality
    );
    assert_eq!(
        QualityPreset::from_name("Balanced").unwrap(),
        QualityPreset::Balanced
    );

    assert!(QualityPreset::from_name("invalid").is_err());
}

#[test]
fn test_quality_settings_from_preset() {
    let settings = QualitySettings::from_preset(QualityPreset::Quality, &QualityOverrides::none());
    assert_eq!(settings.ffmpeg_preset, "slow");
    assert_eq!(settings.ffmpeg_crf, "18");
    assert_eq!(settings.ffmpeg_audio_bitrate, "256k");
}

#[test]
fn test_quality_settings_from_preset_name() {
    let settings =
        QualitySettings::from_preset_name("balanced", &QualityOverrides::none()).unwrap();
    assert_eq!(settings.ffmpeg_preset, "medium");
    assert_eq!(settings.ffmpeg_crf, "20");
    assert_eq!(settings.ffmpeg_audio_bitrate, "192k");

    assert!(QualitySettings::from_preset_name("invalid", &QualityOverrides::none()).is_err());
}

#[test]
fn test_work_folder_output_path() {
    let quality = QualitySettings::default();
    let post_processing = PostProcessingSettings::default();
    let media_root = path("/media/root");
    let job = Job::new(
        path("videos/movie.mkv"),
        MediaFileType::Mkv,
        quality,
        post_processing,
        &media_root,
    );

    let work_folder = path("/tmp/work");
    let work_output_path = job.work_folder_output_path(&work_folder);

    assert!(std::path::Path::new(&work_output_path).starts_with(&work_folder));
    let file_name = std::path::Path::new(&work_output_path)
        .file_name()
        .unwrap()
        .to_str()
        .unwrap()
        .to_string();
    assert!(file_name.contains(&job.id));
    assert!(file_name.ends_with("movie.mp4"));
}

#[test]
fn test_post_processing_defaults() {
    let settings = PostProcessingSettings::default();
    assert!(settings.disable_source_files);
}

#[test]
fn test_determine_file_type() {
    let webm_path = "video.webm";
    let mkv_path = "video.mkv";
    let mp4_path = "video.mp4";
    let no_ext_path = "video";

    assert_eq!(
        JobProcessor::determine_file_type(webm_path).unwrap(),
        MediaFileType::WebM
    );
    assert_eq!(
        JobProcessor::determine_file_type(mkv_path).unwrap(),
        MediaFileType::Mkv
    );
    assert!(JobProcessor::determine_file_type(mp4_path).is_err());
    assert!(JobProcessor::determine_file_type(no_ext_path).is_err());
}

#[test]
fn test_format_season() {
    let rule_match = NamingRuleMatch {
        original_path: path("test"),
        captures: vec!["6".to_string()],
        extension: ".mkv".to_string(),
    };

    assert_eq!(rule_match.format_season(0).unwrap(), "06");
}

#[test]
fn test_convert_gitignore_to_glob() {
    assert_eq!(convert_gitignore_to_glob("*.tmp"), "**/*.tmp");
    assert_eq!(convert_gitignore_to_glob("/Downloads"), "Downloads");
    assert_eq!(convert_gitignore_to_glob("tools"), "**/tools");
    assert_eq!(convert_gitignore_to_glob("path/to/file"), "**/path/to/file");
}

fn mkv_job(relative: &str) -> Job {
    Job::new(
        path(relative),
        MediaFileType::Mkv,
        QualitySettings::default(),
        PostProcessingSettings::default(),
        "/media",
    )
}

#[test]
fn test_episode_metadata_extraction_series() {
    let job = mkv_job("Series/Breaking Bad/Season 01/Breaking Bad - s01e03 - Gray Matter.mkv");

    let metadata = job.extract_episode_metadata().unwrap();
    assert_eq!(metadata.series_name, "Breaking Bad");
    assert_eq!(metadata.season_number, 1);
    assert_eq!(metadata.episode_number, 3);
    assert_eq!(metadata.content_type, ContentType::Series);
}

#[test]
fn test_episode_metadata_extraction_series_with_tvdb() {
    let job = mkv_job(
        "Series/Breaking Bad (2008) {tvdb-296861}/Season 01/Breaking Bad S01E01 Pilot.mkv",
    );

    let metadata = job.extract_episode_metadata().unwrap();
    assert_eq!(metadata.series_name, "Breaking Bad (2008)");
    assert_eq!(metadata.season_number, 1);
    assert_eq!(metadata.episode_number, 1);
    assert_eq!(metadata.content_type, ContentType::Series);
}

#[test]
fn test_episode_metadata_extraction_anime() {
    let job = mkv_job("Anime/Attack on Titan/Season 01/Attack on Titan S01E05 First Battle.mkv");

    let metadata = job.extract_episode_metadata().unwrap();
    assert_eq!(metadata.series_name, "Attack on Titan");
    assert_eq!(metadata.season_number, 1);
    assert_eq!(metadata.episode_number, 5);
    assert_eq!(metadata.content_type, ContentType::Series);
}

#[test]
fn test_episode_metadata_extraction_season_with_extra_info() {
    let job = mkv_job("Series/Critical Role (2015) {tvdb-296861}/Season 01 - Vox Machina/Critical Role S01E12 Arrival at Kraghammer.mkv");

    let metadata = job.extract_episode_metadata().unwrap();
    assert_eq!(metadata.series_name, "Critical Role (2015)");
    assert_eq!(metadata.season_number, 1);
    assert_eq!(metadata.episode_number, 12);
    assert_eq!(metadata.content_type, ContentType::Series);
}

#[test]
fn test_episode_metadata_extraction_movie_returns_none() {
    let job = mkv_job("Movies/The Dark Knight (2008)/The Dark Knight (2008).mkv");

    let metadata = job.extract_episode_metadata();
    assert!(metadata.is_none());
}

#[test]
fn test_episode_metadata_extraction_invalid_format_returns_none() {
    let job = mkv_job("Random/Path/file.mkv");

    let metadata = job.extract_episode_metadata();
    assert!(metadata.is_none());
}

#[test]
fn episode_metadata_needs_matching_seasons() {
    let job = mkv_job("Series/Show/Season 02/Show S01E05.mkv");
    assert!(job.extract_episode_metadata().is_none());
}

#[test]
fn episode_metadata_from_groups_reads_each_group() {
    let groups = vec![
        Some("whole".to_string()),
        Some("  Show Name \t".to_string()),
        Some("03".to_string()),
        Some("03".to_string()),
        Some("+7".to_string()),
    ];
    let metadata = EpisodeMetadata::from_groups(&groups).unwrap();
    assert_eq!(metadata.series_name, "Show Name");
    assert_eq!(metadata.season_number, 3);
    assert_eq!(metadata.episode_number, 7);

    let short = vec![Some("whole".to_string()), Some("Show".to_string())];
    assert!(EpisodeMetadata::from_groups(&short).is_none());

    let not_a_number = vec![
        Some("whole".to_string()),
        Some("Show".to_string()),
        Some("0x".to_string()),
        Some("01".to_string()),
        Some("01".to_string()),
    ];
    assert!(EpisodeMetadata::from_groups(&not_a_number).is_none());

    let absent = vec![
        Some("whole".to_string()),
        None,
        Some("01".to_string()),
        Some("01".to_string()),
        Some("01".to_string()),
    ];
    assert!(EpisodeMetadata::from_groups(&absent).is_none());
}

#[test]
fn episode_prefix_is_taken_literally() {
    let found = EpisodeMetadata::under("A.B/Show/Season 01/Show S01E02.mkv", "A.B").unwrap();
    assert_eq!(found.series_name, "Show");
    assert_eq!(found.episode_number, 2);
    // Unescaped, the point would stand for any character.
    assert!(EpisodeMetadata::under("AxB/Show/Season 01/Show S01E02.mkv", "A.B").is_none());
}

#[test]
fn fresh_jobs_get_distinct_hyphenated_ids() {
    let a = mkv_job("a.mkv");
    let b = mkv_job("b.mkv");
    assert_ne!(a.id, b.id);
    assert_eq!(a.id.len(), 36);
    for (i, c) in a.id.chars().enumerate() {
        if i == 8 || i == 13 || i == 18 || i == 23 {
            assert_eq!(c, '-');
        } else {
            assert!(c.is_ascii_digit() || ('a'..='f').contains(&c));
        }
    }
    assert_eq!(a.job_filename(), format!("{}.job", a.id));
}

#[test]
fn job_with_id_keeps_identity_and_fresh_progress() {
    let job = Job::with_id(
        path("job-1"),
        path("clip.webm"),
        MediaFileType::WebM,
        QualitySettings::default(),
        PostProcessingSettings { disable_source_files: false },
        "/m",
    );
    assert_eq!(job.id, "job-1");
    assert_eq!(job.job_filename(), "job-1.job");
    assert_eq!(job.work_folder_output_path("/w"), "/w/job-1_clip.mp4");
    assert_eq!(job.job_filename_from_source(), "clip.job");
    assert!(!job.progress.started);
    assert_eq!(job.progress.partial_output_path, None);
    assert_eq!(job.progress.partial_duration_micros, None);
    assert_eq!(job.input_extension(), Some(path("webm")));
    assert_eq!(job.clone(), job);
}

#[test]
fn paths_without_names_fall_back() {
    let mut job = mkv_job("a.mkv");
    job.id = path("id");
    job.output_path = path("/");
    job.input_path = path("/");
    assert_eq!(job.work_folder_output_path("/w"), "/w/id_output.mp4");
    assert_eq!(job.job_filename_from_source(), "unknown.job");
    assert_eq!(job.input_extension(), None);
}

#[test]
fn relative_paths_resolve_against_the_given_root() {
    let mut job = mkv_job("a.mkv");
    job.input_path = path("rel/a.mkv");
    job.output_path = path("rel/a.mp4");
    job.subtitle_path = Some(path("rel/a.vtt"));
    assert_eq!(job.full_input_path(Some("/root")), "/root/rel/a.mkv");
    assert_eq!(job.full_output_path(Some("/root")), "/root/rel/a.mp4");
    assert_eq!(job.full_subtitle_path(Some("/root")), Some(path("/root/rel/a.vtt")));
    assert_eq!(job.full_input_path(None), "rel/a.mkv");
    job.subtitle_path = None;
    assert_eq!(job.full_subtitle_path(Some("/root")), None);
}

#[test]
fn output_is_looked_for_at_its_full_path() {
    let mut job = mkv_job("a.mkv");
    assert_eq!(job.output_exists(None), ExecOp::Exists { path: path("/media/a.mp4") });
    job.output_path = path("rel/a.mp4");
    assert_eq!(
        job.output_exists(Some("/root")),
        ExecOp::Exists { path: path("/root/rel/a.mp4") }
    );
}

#[test]
fn required_subtitle_by_file_type() {
    let mut webm = Job::with_id(
        path("w"),
        path("a.webm"),
        MediaFileType::WebM,
        QualitySettings::default(),
        PostProcessingSettings::default(),
        "/m",
    );
    assert_eq!(webm.has_required_subtitle(true), Ok(true));
    assert_eq!(webm.has_required_subtitle(false), Ok(false));
    webm.subtitle_path = None;
    assert_eq!(webm.has_required_subtitle(true), Err(JobError::MissingSubtitlePath));
    let mkv = mkv_job("a.mkv");
    assert_eq!(mkv.has_required_subtitle(false), Ok(true));
}

#[test]
fn presets_have_names_and_settings() {
    assert_eq!(
        QualityPreset::all_names(),
        vec!["fast", "balanced", "quality", "ultrafast", "archive"]
    );
    for name in QualityPreset::all_names() {
        assert_eq!(QualityPreset::from_name(name).unwrap().name(), name);
    }
    let ultra = QualityPreset::UltraFast.to_quality_settings();
    assert_eq!(
        (ultra.ffmpeg_preset.as_str(), ultra.ffmpeg_crf.as_str(), ultra.ffmpeg_audio_bitrate.as_str()),
        ("ultrafast", "28", "96k")
    );
    let archive = QualityPreset::Archive.to_quality_settings();
    assert_eq!(
        (archive.ffmpeg_preset.as_str(), archive.ffmpeg_crf.as_str(), archive.ffmpeg_audio_bitrate.as_str()),
        ("veryslow", "15", "320k")
    );
    let error = QualityPreset::from_name("Nope").unwrap_err();
    assert_eq!(error, JobError::UnknownPreset { name: path("Nope") });
    assert_eq!(
        error.message(),
        "Unknown quality preset 'Nope'. Available presets: fast, balanced, quality, ultrafast, archive"
    );
    assert_eq!(
        JobError::MissingSubtitlePath.message(),
        "WebM job should have subtitle path"
    );
}

#[test]
fn environment_overrides_replace_preset_values() {
    let overrides = QualityOverrides {
        ffmpeg_preset: Some(path("custom")),
        ffmpeg_crf: Some(path("25")),
        ffmpeg_audio_bitrate: None,
    };
    let settings = QualitySettings::from_preset(QualityPreset::Quality, &overrides);
    assert_eq!(settings.ffmpeg_preset, "custom");
    assert_eq!(settings.ffmpeg_crf, "25");
    assert_eq!(settings.ffmpeg_audio_bitrate, "256k");

    let from_env = QualitySettings::from_env(&QualityOverrides {
        ffmpeg_preset: Some(path("fast")),
        ffmpeg_crf: Some(path("20")),
        ffmpeg_audio_bitrate: Some(path("192k")),
    });
    assert_eq!(from_env.ffmpeg_preset, "fast");
    assert_eq!(from_env.ffmpeg_crf, "20");
    assert_eq!(from_env.ffmpeg_audio_bitrate, "192k");
    assert_eq!(QualitySettings::from_env(&QualityOverrides::none()), QualitySettings::default());
}

#[test]
fn job_processor_config_from_preset_or_environment() {
    let config = JobProcessorConfig::from_preset(Some("quality"), &QualityOverrides::none()).unwrap();
    assert_eq!(config.quality_settings.ffmpeg_preset, "slow");
    assert!(config.post_processing.disable_source_files);
    let config = JobProcessorConfig::from_preset(None, &QualityOverrides::none()).unwrap();
    assert_eq!(config.quality_settings.ffmpeg_preset, "veryfast");
    assert!(JobProcessorConfig::from_preset(Some("nope"), &QualityOverrides::none()).is_err());
}

#[test]
fn format_season_errors() {
    let rule_match = NamingRuleMatch {
        original_path: path("test"),
        captures: vec!["x".to_string(), "123".to_string()],
        extension: ".mkv".to_string(),
    };
    assert_eq!(
        rule_match.format_season(2),
        Err(NamingError::IndexOutOfBounds { index: 2 })
    );
    assert_eq!(
        rule_match.format_season(0),
        Err(NamingError::InvalidSeason { text: path("x") })
    );
    assert_eq!(rule_match.format_season(1).unwrap(), "123");
}

#[test]
fn glob_of_root_pattern_and_empty_pattern() {
    assert_eq!(convert_gitignore_to_glob("/"), "");
    assert_eq!(convert_gitignore_to_glob(""), "**/");
}

#[test]
fn presets_and_file_types_are_found_by_their_lower_case_names() {
    assert_eq!(preset_of_lowercase("fast"), Some(QualityPreset::Fast));
    assert_eq!(preset_of_lowercase("balanced"), Some(QualityPreset::Balanced));
    assert_eq!(preset_of_lowercase("quality"), Some(QualityPreset::Quality));
    assert_eq!(preset_of_lowercase("ultrafast"), Some(QualityPreset::UltraFast));
    assert_eq!(preset_of_lowercase("archive"), Some(QualityPreset::Archive));
    assert_eq!(preset_of_lowercase("Fast"), None);
    assert_eq!(preset_of_lowercase(""), None);
    assert_eq!(file_type_of_lowercase("webm"), Some(MediaFileType::WebM));
    assert_eq!(file_type_of_lowercase("mkv"), Some(MediaFileType::Mkv));
    assert_eq!(file_type_of_lowercase("MKV"), None);
    assert_eq!(file_type_of_lowercase("mp4"), None);
}

#[test]
fn what_follows_a_path_lookup_is_decided_on_plain_values() {
    assert_eq!(base_for(true, Some("/root")), None);
    assert_eq!(base_for(false, Some("/root")), Some("/root"));
    assert_eq!(base_for(false, None), None);
    assert_eq!(work_name_for("id", &Some("a.mp4".to_string())), "id_a.mp4");
    assert_eq!(work_name_for("id", &None), "id_output.mp4");
    assert_eq!(record_name_for_stem(&Some("clip".to_string())), "clip.job");
    assert_eq!(record_name_for_stem(&None), "unknown.job");
    assert!(has_job_extension(&Some("job".to_string())));
    assert!(!has_job_extension(&Some("JOB".to_string())));
    assert!(!has_job_extension(&Some("lock".to_string())));
    assert!(!has_job_extension(&None));
    assert_eq!(disabled_extension_for(&Some("mkv".to_string())), "mkv.disabled");
    assert_eq!(disabled_extension_for(&None), ".disabled");
}
