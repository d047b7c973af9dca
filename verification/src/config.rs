//! The capture settings and the value each takes where none is given.

use crate::text::texts;
use vstd::prelude::*;

verus! {

/// Which sounds are recorded, and from which devices.
#[derive(Clone, Debug, PartialEq, Eq)]
pub struct AudioConfig {
    pub enabled: bool,
    pub inputs: Vec<String>,
    pub mic_device: String,
    pub system_device: String,
}

/// How the picture is encoded.
#[derive(Clone, Debug, PartialEq, Eq)]
pub struct VideoConfig {
    pub crf: i32,
    pub preset: String,
    pub framerate: u32,
    pub format: String,
}

/// The settings of a capture.
#[derive(Clone, Debug, PartialEq, Eq)]
pub struct Config {
    pub audio: AudioConfig,
    pub video: VideoConfig,
}

/// What an `AudioConfig` says.
pub struct AudioSettings {
    pub enabled: bool,
    pub inputs: Seq<Seq<char>>,
    pub mic_device: Seq<char>,
    pub system_device: Seq<char>,
}

/// What a `VideoConfig` says.
pub struct VideoSettings {
    pub crf: int,
    pub preset: Seq<char>,
    pub framerate: int,
    pub format: Seq<char>,
}

/// What a `Config` says.
pub struct Settings {
    pub audio: AudioSettings,
    pub video: VideoSettings,
}

impl View for AudioConfig {
    type V = AudioSettings;

    open spec fn view(&self) -> AudioSettings {
        AudioSettings {
            enabled: self.enabled,
            inputs: texts(self.inputs@),
            mic_device: self.mic_device@,
            system_device: self.system_device@,
        }
    }
}

impl View for VideoConfig {
    type V = VideoSettings;

    open spec fn view(&self) -> VideoSettings {
        VideoSettings {
            crf: self.crf as int,
            preset: self.preset@,
            framerate: self.framerate as int,
            format: self.format@,
        }
    }
}

impl View for Config {
    type V = Settings;

    open spec fn view(&self) -> Settings {
        Settings { audio: self.audio@, video: self.video@ }
    }
}

/// The audio settings where none are given: sound is recorded, from the
/// microphone alone, and both devices are the default ones.
pub open spec fn default_audio() -> AudioSettings {
    AudioSettings {
        enabled: true,
        inputs: seq!["mic"@],
        mic_device: "default"@,
        system_device: "default"@,
    }
}

/// The video settings where none are given.
pub open spec fn default_video() -> VideoSettings {
    VideoSettings { crf: 18, preset: "veryfast"@, framerate: 60, format: "mkv"@ }
}

/// The settings where none are given.
pub open spec fn default_settings() -> Settings {
    Settings { audio: default_audio(), video: default_video() }
}

/// Whether sound is recorded where the settings do not say.
pub fn default_true() -> (b: bool)
    ensures
        b,
{
    true
}

/// The inputs where the settings name none: the microphone.
pub fn default_audio_inputs() -> (inputs: Vec<String>)
    ensures
        texts(inputs@) == seq!["mic"@],
{
    let mut inputs: Vec<String> = Vec::new();
    inputs.push("mic".to_owned());
    assert(texts(inputs@) =~= seq!["mic"@]);
    inputs
}

/// The device where the settings name none.
pub fn default_string_default() -> (device: String)
    ensures
        device@ == "default"@,
{
    "default".to_owned()
}

/// The constant rate factor where the settings give none.
pub fn default_crf() -> (crf: i32)
    ensures
        crf == 18,
{
    18
}

/// The encoder preset where the settings name none.
pub fn default_preset() -> (preset: String)
    ensures
        preset@ == "veryfast"@,
{
    "veryfast".to_owned()
}

/// The frames per second where the settings give none.
pub fn default_framerate() -> (framerate: u32)
    ensures
        framerate == 60,
{
    60
}

/// The container format where the settings name none.
pub fn default_format() -> (format: String)
    ensures
        format@ == "mkv"@,
{
    "mkv".to_owned()
}

impl Default for AudioConfig {
    fn default() -> (audio: AudioConfig)
        ensures
            audio@ == default_audio(),
    {
        AudioConfig {
            enabled: default_true(),
            inputs: default_audio_inputs(),
            mic_device: default_string_default(),
            system_device: default_string_default(),
        }
    }
}

impl Default for VideoConfig {
    fn default() -> (video: VideoConfig)
        ensures
            video@ == default_video(),
    {
        VideoConfig {
            crf: default_crf(),
            preset: default_preset(),
            framerate: default_framerate(),
            format: default_format(),
        }
    }
}

impl Default for Config {
    fn default() -> (config: Config)
        ensures
            config@ == default_settings(),
    {
        Config { audio: AudioConfig::default(), video: VideoConfig::default() }
    }
}

} // verus!
