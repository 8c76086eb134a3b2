//! Settings of a worker process.

use vstd::prelude::*;
use crate::job::{overridden, QualityOverrides, QualityPreset, QualitySettings};
use crate::text::{parse_u64, parsed_unsigned};

verus! {

/// Encoder defaults and the length of the idle sleep, in seconds.
#[derive(Debug, PartialEq, Eq)]
pub struct Config {
    pub ffmpeg_preset: String,
    pub ffmpeg_crf: String,
    pub ffmpeg_audio_bitrate: String,
    pub sleep_interval: u64,
}

/// The variables of the process environment that a worker reads, each
/// absent when it is not set.
#[derive(Debug, PartialEq, Eq)]
pub struct ConfigEnv {
    pub quality: QualityOverrides,
    pub sleep_interval: Option<String>,
}

/// The idle sleep where the environment names none that can be read.
pub const DEFAULT_SLEEP_INTERVAL: u64 = 60;

/// The idle sleep that the environment asks for: the number it gives, or
/// the default where it gives none or what it gives is no number.
pub open spec fn sleep_interval_of(value: Option<String>) -> u64 {
    match value {
        Some(text) => match parsed_unsigned(text@, u64::MAX as nat) {
            Some(n) => n as u64,
            None => DEFAULT_SLEEP_INTERVAL,
        },
        None => DEFAULT_SLEEP_INTERVAL,
    }
}

impl Clone for Config {
    fn clone(&self) -> (r: Self)
        ensures
            r == *self,
    {
        Config {
            ffmpeg_preset: self.ffmpeg_preset.clone(),
            ffmpeg_crf: self.ffmpeg_crf.clone(),
            ffmpeg_audio_bitrate: self.ffmpeg_audio_bitrate.clone(),
            sleep_interval: self.sleep_interval,
        }
    }
}

impl Config {
    /// The configuration that the environment's values give, with the
    /// defaults where a variable is not set.
    pub fn from_env(env: &ConfigEnv) -> (r: Self)
        ensures
            r.ffmpeg_preset@ == overridden(env.quality.ffmpeg_preset, QualityPreset::Fast.settings().0),
            r.ffmpeg_crf@ == overridden(env.quality.ffmpeg_crf, QualityPreset::Fast.settings().1),
            r.ffmpeg_audio_bitrate@ == overridden(
                env.quality.ffmpeg_audio_bitrate,
                QualityPreset::Fast.settings().2,
            ),
            r.sleep_interval == sleep_interval_of(env.sleep_interval),
    {
        let quality = QualitySettings::from_env(&env.quality);
        let sleep_interval = match &env.sleep_interval {
            Some(text) => match parse_u64(text.as_str()) {
                Some(n) => n,
                None => DEFAULT_SLEEP_INTERVAL,
            },
            None => DEFAULT_SLEEP_INTERVAL,
        };
        Config {
            ffmpeg_preset: quality.ffmpeg_preset,
            ffmpeg_crf: quality.ffmpeg_crf,
            ffmpeg_audio_bitrate: quality.ffmpeg_audio_bitrate,
            sleep_interval,
        }
    }
}

impl Default for Config {
    fn default() -> (r: Self)
        ensures
            (r.ffmpeg_preset@, r.ffmpeg_crf@, r.ffmpeg_audio_bitrate@)
                == QualityPreset::Fast.settings(),
            r.sleep_interval == DEFAULT_SLEEP_INTERVAL,
    {
        let quality = QualityPreset::Fast.to_quality_settings();
        Config {
            ffmpeg_preset: quality.ffmpeg_preset,
            ffmpeg_crf: quality.ffmpeg_crf,
            ffmpeg_audio_bitrate: quality.ffmpeg_audio_bitrate,
            sleep_interval: DEFAULT_SLEEP_INTERVAL,
        }
    }
}

} // verus!
