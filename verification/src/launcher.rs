//! The command line of the encoder, and the name of the file it writes.

use crate::config::{Config, Settings};
use crate::decimal::{integer_text, push_integer};
use crate::geometry::{Area, Rect};
use crate::text::{lists, texts, trim, trim_str};
use vstd::prelude::*;

verus! {

/// From which inputs the sound of a capture is taken.
#[derive(Clone, Copy, Debug, PartialEq, Eq, Structural)]
pub enum AudioPlan {
    /// The microphone and the system's output, merged into one stream.
    Both,
    /// The microphone alone.
    MicOnly,
    /// The system's output alone.
    SystemOnly,
    /// No sound.
    Silent,
}

/// The plan that the settings ask for. Sound that is switched off gives
/// silence whatever the inputs; otherwise the inputs named `mic` and
/// `system` decide, and any other name counts for nothing.
pub open spec fn audio_plan(enabled: bool, inputs: Seq<Seq<char>>) -> AudioPlan {
    if !enabled {
        AudioPlan::Silent
    } else if inputs.contains("mic"@) && inputs.contains("system"@) {
        AudioPlan::Both
    } else if inputs.contains("mic"@) {
        AudioPlan::MicOnly
    } else if inputs.contains("system"@) {
        AudioPlan::SystemOnly
    } else {
        AudioPlan::Silent
    }
}

/// The extent of a rectangle as the encoder reads it: `WxH`.
pub open spec fn size_text(region: Area) -> Seq<char> {
    integer_text(region.w) + "x"@ + integer_text(region.h)
}

/// The origin of a rectangle on the first screen of the local display, as
/// the encoder reads it: `:0.0+X,Y`.
pub open spec fn origin_text(region: Area) -> Seq<char> {
    ":0.0+"@ + integer_text(region.x) + ","@ + integer_text(region.y)
}

/// The name under which the device `device` offers what it plays.
pub open spec fn monitor_source(device: Seq<char>) -> Seq<char> {
    device + ".monitor"@
}

/// The arguments that make the encoder grab `region` from the screen at
/// `framerate` frames per second.
pub open spec fn video_source_args(region: Area, framerate: int) -> Seq<Seq<char>> {
    seq![
        "-f"@,
        "x11grab"@,
        "-video_size"@,
        size_text(region),
        "-framerate"@,
        integer_text(framerate),
        "-i"@,
        origin_text(region),
    ]
}

/// The arguments that make the encoder take one sound input from the
/// sound server.
pub open spec fn sound_input_args(source: Seq<char>) -> Seq<Seq<char>> {
    seq!["-f"@, "pulse"@, "-i"@, source]
}

/// The arguments that fix how sound is encoded.
pub open spec fn sound_codec_args() -> Seq<Seq<char>> {
    seq!["-c:a"@, "aac"@, "-b:a"@, "192k"@]
}

/// The arguments that merge the two sound inputs into one stream and map
/// it, with the picture, into the output.
pub open spec fn merge_args() -> Seq<Seq<char>> {
    seq!["-filter_complex"@, "[1:a][2:a]amerge=inputs=2[aout]"@, "-map"@, "0:v"@, "-map"@, "[aout]"@]
}

/// The arguments for the sound of a capture.
pub open spec fn audio_args(plan: AudioPlan, mic_device: Seq<char>, system_device: Seq<char>) -> Seq<
    Seq<char>,
> {
    match plan {
        AudioPlan::Both => sound_input_args(mic_device) + sound_input_args(
            monitor_source(system_device),
        ) + merge_args() + sound_codec_args(),
        AudioPlan::MicOnly => sound_input_args(mic_device) + sound_codec_args(),
        AudioPlan::SystemOnly => sound_input_args(monitor_source(system_device))
            + sound_codec_args(),
        AudioPlan::Silent => Seq::empty(),
    }
}

/// The arguments that fix how the picture is encoded and where the result
/// goes.
pub open spec fn output_args(crf: int, preset: Seq<char>, output: Seq<char>) -> Seq<Seq<char>> {
    seq![
        "-c:v"@,
        "libx264"@,
        "-crf"@,
        integer_text(crf),
        "-preset"@,
        preset,
        "-pix_fmt"@,
        "yuv420p"@,
        output,
    ]
}

/// The whole command line of the encoder for a capture of `region` under
/// `settings` into the file `output`: the picture's source, then the
/// sound, then the encoding and the output.
pub open spec fn capture_args(region: Area, settings: Settings, output: Seq<char>) -> Seq<
    Seq<char>,
> {
    video_source_args(region, settings.video.framerate) + audio_args(
        audio_plan(settings.audio.enabled, settings.audio.inputs),
        settings.audio.mic_device,
        settings.audio.system_device,
    ) + output_args(settings.video.crf, settings.video.preset, output)
}

/// The name of the file that a capture started at `stamp` writes in the
/// format `format`. White space round the stamp is left out.
pub open spec fn recording_name(stamp: Seq<char>, format: Seq<char>) -> Seq<char> {
    "recording-"@ + trim(stamp) + "."@ + format
}

/// Decides from which inputs the sound is taken.
pub fn plan_audio(enabled: bool, inputs: &Vec<String>) -> (plan: AudioPlan)
    ensures
        plan == audio_plan(enabled, texts(inputs@)),
{
    if !enabled {
        return AudioPlan::Silent;
    }
    let has_mic = lists(inputs, "mic");
    let has_system = lists(inputs, "system");
    if has_mic && has_system {
        AudioPlan::Both
    } else if has_mic {
        AudioPlan::MicOnly
    } else if has_system {
        AudioPlan::SystemOnly
    } else {
        AudioPlan::Silent
    }
}

/// Appends one argument to `args`.
fn push_arg(args: &mut Vec<String>, arg: String)
    ensures
        texts(final(args)@) == texts(old(args)@).push(arg@),
{
    args.push(arg);
    assert(texts(args@) =~= texts(old(args)@).push(arg@));
}

/// Appends one argument that is known beforehand to `args`.
fn push_word(args: &mut Vec<String>, word: &str)
    ensures
        texts(final(args)@) == texts(old(args)@).push(word@),
{
    push_arg(args, word.to_owned());
}

/// Appends a number as one argument to `args`.
fn push_number(args: &mut Vec<String>, n: i64)
    ensures
        texts(final(args)@) == texts(old(args)@).push(integer_text(n as int)),
{
    let mut text = String::new();
    push_integer(&mut text, n);
    assert(text@ =~= integer_text(n as int));
    push_arg(args, text);
}

/// Appends the arguments for the picture's source to `args`.
fn push_video_source(args: &mut Vec<String>, region: Rect, framerate: u32)
    ensures
        texts(final(args)@) == texts(old(args)@) + video_source_args(region@, framerate as int),
{
    push_word(args, "-f");
    push_word(args, "x11grab");
    push_word(args, "-video_size");
    let mut size = String::new();
    push_integer(&mut size, region.w as i64);
    size.append("x");
    push_integer(&mut size, region.h as i64);
    assert(size@ =~= size_text(region@));
    push_arg(args, size);
    push_word(args, "-framerate");
    push_number(args, framerate as i64);
    push_word(args, "-i");
    let mut origin: String = ":0.0+".to_owned();
    push_integer(&mut origin, region.x as i64);
    origin.append(",");
    push_integer(&mut origin, region.y as i64);
    assert(origin@ =~= origin_text(region@));
    push_arg(args, origin);
    assert(texts(args@) =~= texts(old(args)@) + video_source_args(region@, framerate as int));
}

/// Appends the arguments for one sound input to `args`.
fn push_sound_input(args: &mut Vec<String>, source: String)
    ensures
        texts(final(args)@) == texts(old(args)@) + sound_input_args(source@),
{
    push_word(args, "-f");
    push_word(args, "pulse");
    push_word(args, "-i");
    push_arg(args, source);
    assert(texts(args@) =~= texts(old(args)@) + sound_input_args(source@));
}

/// Appends the arguments that fix how sound is encoded to `args`.
fn push_sound_codec(args: &mut Vec<String>)
    ensures
        texts(final(args)@) == texts(old(args)@) + sound_codec_args(),
{
    push_word(args, "-c:a");
    push_word(args, "aac");
    push_word(args, "-b:a");
    push_word(args, "192k");
    assert(texts(args@) =~= texts(old(args)@) + sound_codec_args());
}

/// Appends the arguments that merge two sound inputs to `args`.
fn push_merge(args: &mut Vec<String>)
    ensures
        texts(final(args)@) == texts(old(args)@) + merge_args(),
{
    push_word(args, "-filter_complex");
    push_word(args, "[1:a][2:a]amerge=inputs=2[aout]");
    push_word(args, "-map");
    push_word(args, "0:v");
    push_word(args, "-map");
    push_word(args, "[aout]");
    assert(texts(args@) =~= texts(old(args)@) + merge_args());
}

/// The name under which `device` offers what it plays.
fn monitor_source_of(device: &String) -> (source: String)
    ensures
        source@ == monitor_source(device@),
{
    let mut source = device.clone();
    source.append(".monitor");
    source
}

/// Appends the arguments for the sound of a capture to `args`.
fn push_audio(args: &mut Vec<String>, plan: AudioPlan, mic_device: &String, system_device: &String)
    ensures
        texts(final(args)@) == texts(old(args)@) + audio_args(plan, mic_device@, system_device@),
{
    match plan {
        AudioPlan::Both => {
            push_sound_input(args, mic_device.clone());
            push_sound_input(args, monitor_source_of(system_device));
            push_merge(args);
            push_sound_codec(args);
        },
        AudioPlan::MicOnly => {
            push_sound_input(args, mic_device.clone());
            push_sound_codec(args);
        },
        AudioPlan::SystemOnly => {
            push_sound_input(args, monitor_source_of(system_device));
            push_sound_codec(args);
        },
        AudioPlan::Silent => {},
    }
    assert(texts(args@) =~= texts(old(args)@) + audio_args(plan, mic_device@, system_device@));
}

/// Appends the arguments for the encoding and the output to `args`.
fn push_output(args: &mut Vec<String>, crf: i32, preset: &String, output: &str)
    ensures
        texts(final(args)@) == texts(old(args)@) + output_args(crf as int, preset@, output@),
{
    push_word(args, "-c:v");
    push_word(args, "libx264");
    push_word(args, "-crf");
    push_number(args, crf as i64);
    push_word(args, "-preset");
    push_arg(args, preset.clone());
    push_word(args, "-pix_fmt");
    push_word(args, "yuv420p");
    push_word(args, output);
    assert(texts(args@) =~= texts(old(args)@) + output_args(crf as int, preset@, output@));
}

/// Builds the command line of the encoder for a capture of `region` under
/// `config` into the file `output`.
pub fn build_capture_args(region: Rect, config: &Config, output: &str) -> (args: Vec<String>)
    ensures
        texts(args@) == capture_args(region@, config@, output@),
{
    let mut args: Vec<String> = Vec::new();
    assert(texts(args@) =~= Seq::<Seq<char>>::empty());
    push_video_source(&mut args, region, config.video.framerate);
    let plan = plan_audio(config.audio.enabled, &config.audio.inputs);
    push_audio(&mut args, plan, &config.audio.mic_device, &config.audio.system_device);
    push_output(&mut args, config.video.crf, &config.video.preset, output);
    assert(texts(args@) =~= capture_args(region@, config@, output@));
    args
}

/// Names the file that a capture started at `stamp` writes in the format
/// `format`.
pub fn recording_file_name(stamp: &str, format: &str) -> (name: String)
    ensures
        name@ == recording_name(stamp@, format@),
{
    let mut name: String = "recording-".to_owned();
    name.append(trim_str(stamp));
    name.append(".");
    name.append(format);
    name
}

} // verus!
