use record_region::config::{
    default_audio_inputs, default_crf, default_format, default_framerate, default_preset,
    default_string_default, default_true, AudioConfig, Config, VideoConfig,
};
use record_region::geometry::Rect;
use record_region::launcher::{build_capture_args, plan_audio, recording_file_name, AudioPlan};

fn words(list: &[&str]) -> Vec<String> {
    list.iter().map(|w| w.to_string()).collect()
}

fn config_with_inputs(enabled: bool, inputs: &[&str]) -> Config {
    let mut config = Config::default();
    config.audio.enabled = enabled;
    config.audio.inputs = words(inputs);
    config.audio.mic_device = "alsa_input.usb".to_string();
    config.audio.system_device = "alsa_output.pci".to_string();
    config
}

fn region() -> Rect {
    Rect { x: 10, y: 20, w: 300, h: 400 }
}

#[test]
fn defaults_of_each_setting() {
    assert!(default_true());
    assert_eq!(default_audio_inputs(), vec!["mic".to_string()]);
    assert_eq!(default_string_default(), "default");
    assert_eq!(default_crf(), 18);
    assert_eq!(default_preset(), "veryfast");
    assert_eq!(default_framerate(), 60);
    assert_eq!(default_format(), "mkv");
}

#[test]
fn default_config_holds_every_default() {
    let config = Config::default();
    assert_eq!(
        config,
        Config {
            audio: AudioConfig {
                enabled: true,
                inputs: vec!["mic".to_string()],
                mic_device: "default".to_string(),
                system_device: "default".to_string(),
            },
            video: VideoConfig {
                crf: 18,
                preset: "veryfast".to_string(),
                framerate: 60,
                format: "mkv".to_string(),
            },
        }
    );
    assert_eq!(AudioConfig::default(), config.audio);
    assert_eq!(VideoConfig::default(), config.video);
}

#[test]
fn audio_plan_follows_the_inputs() {
    assert_eq!(plan_audio(true, &words(&["mic", "system"])), AudioPlan::Both);
    assert_eq!(plan_audio(true, &words(&["system", "mic"])), AudioPlan::Both);
    assert_eq!(plan_audio(true, &words(&["mic"])), AudioPlan::MicOnly);
    assert_eq!(plan_audio(true, &words(&["mic", "mic"])), AudioPlan::MicOnly);
    assert_eq!(plan_audio(true, &words(&["system"])), AudioPlan::SystemOnly);
    assert_eq!(plan_audio(true, &words(&["line-in", "system"])), AudioPlan::SystemOnly);
    assert_eq!(plan_audio(true, &words(&[])), AudioPlan::Silent);
    assert_eq!(plan_audio(true, &words(&["Mic", "SYSTEM"])), AudioPlan::Silent);
}

#[test]
fn audio_plan_is_silent_when_disabled() {
    assert_eq!(plan_audio(false, &words(&["mic", "system"])), AudioPlan::Silent);
    assert_eq!(plan_audio(false, &words(&["mic"])), AudioPlan::Silent);
    assert_eq!(plan_audio(false, &words(&[])), AudioPlan::Silent);
}

#[test]
fn command_line_with_default_settings() {
    let args = build_capture_args(region(), &Config::default(), "/home/u/Videos/out.mkv");
    assert_eq!(
        args,
        words(&[
            "-f", "x11grab", "-video_size", "300x400", "-framerate", "60", "-i", ":0.0+10,20",
            "-f", "pulse", "-i", "default", "-c:a", "aac", "-b:a", "192k", "-c:v", "libx264",
            "-crf", "18", "-preset", "veryfast", "-pix_fmt", "yuv420p", "/home/u/Videos/out.mkv",
        ])
    );
}

#[test]
fn command_line_with_both_inputs() {
    let config = config_with_inputs(true, &["system", "mic"]);
    let args = build_capture_args(region(), &config, "out.mkv");
    assert_eq!(
        args,
        words(&[
            "-f", "x11grab", "-video_size", "300x400", "-framerate", "60", "-i", ":0.0+10,20",
            "-f", "pulse", "-i", "alsa_input.usb", "-f", "pulse", "-i", "alsa_output.pci.monitor",
            "-filter_complex", "[1:a][2:a]amerge=inputs=2[aout]", "-map", "0:v", "-map", "[aout]",
            "-c:a", "aac", "-b:a", "192k", "-c:v", "libx264", "-crf", "18", "-preset", "veryfast",
            "-pix_fmt", "yuv420p", "out.mkv",
        ])
    );
}

#[test]
fn command_line_with_system_sound_only() {
    let config = config_with_inputs(true, &["system"]);
    let args = build_capture_args(region(), &config, "out.mkv");
    assert_eq!(
        args,
        words(&[
            "-f", "x11grab", "-video_size", "300x400", "-framerate", "60", "-i", ":0.0+10,20",
            "-f", "pulse", "-i", "alsa_output.pci.monitor", "-c:a", "aac", "-b:a", "192k", "-c:v",
            "libx264", "-crf", "18", "-preset", "veryfast", "-pix_fmt", "yuv420p", "out.mkv",
        ])
    );
}

#[test]
fn command_line_with_microphone_only() {
    let config = config_with_inputs(true, &["mic"]);
    let args = build_capture_args(region(), &config, "out.mkv");
    assert_eq!(
        args,
        words(&[
            "-f", "x11grab", "-video_size", "300x400", "-framerate", "60", "-i", ":0.0+10,20",
            "-f", "pulse", "-i", "alsa_input.usb", "-c:a", "aac", "-b:a", "192k", "-c:v",
            "libx264", "-crf", "18", "-preset", "veryfast", "-pix_fmt", "yuv420p", "out.mkv",
        ])
    );
}

#[test]
fn command_line_without_sound() {
    let silent = words(&[
        "-f", "x11grab", "-video_size", "300x400", "-framerate", "60", "-i", ":0.0+10,20", "-c:v",
        "libx264", "-crf", "18", "-preset", "veryfast", "-pix_fmt", "yuv420p", "out.mkv",
    ]);
    let disabled = config_with_inputs(false, &["mic", "system"]);
    assert_eq!(build_capture_args(region(), &disabled, "out.mkv"), silent);
    let none = config_with_inputs(true, &[]);
    assert_eq!(build_capture_args(region(), &none, "out.mkv"), silent);
    let unknown = config_with_inputs(true, &["line-in"]);
    assert_eq!(build_capture_args(region(), &unknown, "out.mkv"), silent);
}

#[test]
fn command_line_carries_the_video_settings() {
    let mut config = config_with_inputs(false, &[]);
    config.video.crf = -3;
    config.video.preset = "slow".to_string();
    config.video.framerate = 4294967295;
    config.video.format = "mp4".to_string();
    let args = build_capture_args(Rect { x: -5, y: 7, w: 1920, h: 1080 }, &config, "o.mp4");
    assert_eq!(
        args,
        words(&[
            "-f", "x11grab", "-video_size", "1920x1080", "-framerate", "4294967295", "-i",
            ":0.0+-5,7", "-c:v", "libx264", "-crf", "-3", "-preset", "slow", "-pix_fmt",
            "yuv420p", "o.mp4",
        ])
    );
}

#[test]
fn recording_name_joins_stamp_and_format() {
    assert_eq!(
        recording_file_name("2024-05-06_07-08-09\n", "mkv"),
        "recording-2024-05-06_07-08-09.mkv"
    );
    assert_eq!(recording_file_name("  t  ", "mp4"), "recording-t.mp4");
    assert_eq!(recording_file_name("", ""), "recording-.");
}
