//! The settings of a run.
//!
//! The settings file is YAML; decoding it is the caller's. What was decoded
//! is checked here before it is used.

use crate::download::DownloadOptions;
use crate::util::same_text;
use std::time::Duration;
use vstd::prelude::*;
use vstd::string::StringExecFns;

verus! {

/// The settings file that is written where none is found.
pub const DEFAULT_CONFIG: &'static str = r##"max_bitrate_level: "exhigh"
#max_bitrate_level:下载歌曲的最高质量，不填写内容默认为可下载的最高质量
#可填内容:
# higher => 较高
# exhigh=>极高
# lossless=>无损
# hires=>Hi-Res
# jyeffect => 高清环绕声
# sky => 沉浸环绕声
# dolby => 杜比全景声
# jymaster => 超清母带
download_songs: true
#download_songs:是否下载歌曲
#可填内容:
# true => 下载歌曲
# false => 不下载歌曲
download_lyrics: false
#download_lyrics:是否下载歌词
#可填内容:
# true => 下载歌词
# false => 不下载歌词
concurrency: 3
#concurrency:同时下载的任务数
#可填内容:正整数(不建议设置太大)
retry: 3
#retry:下载失败时的重试次数
#可填内容:正整数
retry_delay: 1000
#retry_delay:下载失败时的重试间隔时间
#可填内容:正整数(单位：毫秒)
timeout: 30000
#timeout:下载超时时间
#可填内容:正整数(单位：毫秒)
"##;

/// What is said of a quality level that is not known.
pub const INVALID_LEVEL: &'static str = "max_bitrate_level设置有误";

#[derive(Debug, PartialEq, Eq)]
pub struct Config {
    pub max_bitrate_level: String,
    pub download_songs: bool,
    pub download_lyrics: bool,
    pub concurrency: usize,
    pub retry: usize,
    pub retry_delay: Duration,
    pub timeout: Duration,
}

#[derive(Debug, PartialEq, Eq)]
pub enum ConfigError {
    /// The settings were decoded, but a value is not one of those allowed.
    InvalidConfig(String),
    /// The settings could not be decoded.
    Parse(String),
}

/// Whether a text names one of the eight quality levels.
pub open spec fn is_bitrate_level(level: Seq<char>) -> bool {
    ||| level == "higer"@
    ||| level == "exhigh"@
    ||| level == "lossless"@
    ||| level == "hires"@
    ||| level == "jyeffect"@
    ||| level == "sky"@
    ||| level == "dolby"@
    ||| level == "jymaster"@
}

/// The text that describes a configuration error.
pub open spec fn config_error_text(error: ConfigError) -> Seq<char> {
    match error {
        ConfigError::InvalidConfig(detail) => "配置格式错误: "@ + detail@,
        ConfigError::Parse(detail) => "配置解析错误: "@ + detail@,
    }
}

fn known_level(level: &str) -> (known: bool)
    ensures
        known == is_bitrate_level(level@),
{
    same_text(level, "higer") || same_text(level, "exhigh") || same_text(level, "lossless")
        || same_text(level, "hires") || same_text(level, "jyeffect") || same_text(level, "sky")
        || same_text(level, "dolby") || same_text(level, "jymaster")
}

impl Config {
    /// Finishes loading the settings from what decoding the file gave. A
    /// failure to decode is passed on as [`ConfigError::Parse`]. Decoded
    /// settings are accepted, unchanged, exactly when their quality level is
    /// one of the eight known levels, and are otherwise refused as
    /// [`ConfigError::InvalidConfig`].
    pub fn load(decoded: Result<Config, String>) -> (result: Result<Config, ConfigError>)
        ensures
            match decoded {
                Err(cause) => result matches Err(ConfigError::Parse(detail)) && detail == cause,
                Ok(config) => if is_bitrate_level(config.max_bitrate_level@) {
                    result matches Ok(loaded) && loaded == config
                } else {
                    result matches Err(ConfigError::InvalidConfig(detail)) && detail@
                        == INVALID_LEVEL@
                },
            },
    {
        match decoded {
            Err(cause) => Err(ConfigError::Parse(cause)),
            Ok(config) => {
                if known_level(config.max_bitrate_level.as_str()) {
                    Ok(config)
                } else {
                    Err(ConfigError::InvalidConfig(INVALID_LEVEL.to_owned()))
                }
            },
        }
    }

    /// The text of the default settings file.
    pub fn generate_default() -> (text: &'static str)
        ensures
            text@ == DEFAULT_CONFIG@,
    {
        DEFAULT_CONFIG
    }

    /// The options with which each file of the run is downloaded.
    pub fn download_options(&self) -> (options: DownloadOptions)
        ensures
            options.max_retries == self.retry,
            options.retry_delay == self.retry_delay,
            options.timeout == self.timeout,
    {
        DownloadOptions::new(self.retry, self.retry_delay, self.timeout)
    }
}

impl ConfigError {
    /// Describes the error in words.
    pub fn describe(&self) -> (text: String)
        ensures
            text@ == config_error_text(*self),
    {
        match self {
            ConfigError::InvalidConfig(detail) => String::from_str("配置格式错误: ").concat(
                detail.as_str(),
            ),
            ConfigError::Parse(detail) => String::from_str("配置解析错误: ").concat(
                detail.as_str(),
            ),
        }
    }
}

} // verus!
