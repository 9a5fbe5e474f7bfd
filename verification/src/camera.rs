use vstd::prelude::*;
use std::collections::BTreeMap;
use crate::config::LegConfig;
use crate::strings::str_eq;
use crate::text::{append_decimal, decimal, push_char};

verus! {

broadcast use vstd::std_specs::btree::group_btree_axioms;

/// The camera settings the streaming pipelines are built from.
#[derive(Clone, Debug)]
pub struct CameraConfig {
    pub device: Option<String>,
    pub pixel_format: String,
    pub width: u32,
    pub height: u32,
    pub fps: u32,
    pub sensor_id: Option<u32>,
}

/// `c` with an ASCII upper-case letter turned into lower case.
pub open spec fn ascii_lower_char(c: char) -> char {
    if 'A' <= c <= 'Z' { ((c as int) + 32) as char } else { c }
}

/// `s` with its ASCII upper-case letters turned into lower case.
pub open spec fn spec_ascii_lowercase(s: Seq<char>) -> Seq<char> {
    Seq::new(s.len(), |i: int| ascii_lower_char(s[i]))
}

/// `s` with its ASCII upper-case letters turned into lower case; every other
/// character is kept.
pub fn ascii_lowercase(s: &str) -> (lower: String)
    ensures
        lower@ == spec_ascii_lowercase(s@),
{
    let n = s.unicode_len();
    let mut out = String::new();
    let mut i: usize = 0;
    while i < n
        invariant
            n == s@.len(),
            i <= n,
            out@ == spec_ascii_lowercase(s@.subrange(0, i as int)),
        decreases n - i,
    {
        let c = s.get_char(i);
        let lower: char = if 'A' <= c && c <= 'Z' { ((c as u8) + 32) as char } else { c };
        push_char(&mut out, lower);
        proof {
            assert(spec_ascii_lowercase(s@.subrange(0, i + 1)) =~= spec_ascii_lowercase(s@.subrange(0, i as int)).push(ascii_lower_char(c)));
        }
        i = i + 1;
    }
    proof {
        assert(s@.subrange(0, n as int) =~= s@);
    }
    out
}

/// The ffmpeg input format for a configured pixel format: MJPEG under
/// either spelling, else the format in lower case.
pub open spec fn spec_input_format(pixel_format: Seq<char>) -> Seq<char> {
    let lower = spec_ascii_lowercase(pixel_format);
    if lower == "mjpg"@ || lower == "mjpeg"@ { "mjpeg"@ } else { lower }
}

/// The device a camera stream reads from.
pub open spec fn spec_camera_device(camera: CameraConfig) -> Seq<char> {
    match camera.device {
        Some(d) => d@,
        None => "/dev/video0"@,
    }
}

/// The frame rate the stream is reduced to: the camera rate, at most ten.
pub open spec fn spec_stream_fps(fps: u32) -> nat {
    if fps > 10 { 10 } else { fps as nat }
}

/// The ffmpeg arguments that stream a V4L2 camera as multipart JPEG on
/// standard output.
pub open spec fn spec_ffmpeg_camera_args(camera: CameraConfig) -> Seq<Seq<char>> {
    seq![
        "-hide_banner"@,
        "-loglevel"@,
        "error"@,
        "-f"@,
        "video4linux2"@,
        "-input_format"@,
        spec_input_format(camera.pixel_format@),
        "-video_size"@,
        decimal(camera.width as nat) + "x"@ + decimal(camera.height as nat),
        "-framerate"@,
        decimal(camera.fps as nat),
        "-i"@,
        spec_camera_device(camera),
        "-vf"@,
        "fps="@ + decimal(spec_stream_fps(camera.fps)),
        "-q:v"@,
        "7"@,
        "-f"@,
        "mpjpeg"@,
        "pipe:1"@,
    ]
}

/// `args` holds exactly the strings `expected`.
pub open spec fn args_are(args: Seq<String>, expected: Seq<Seq<char>>) -> bool {
    &&& args.len() == expected.len()
    &&& forall|i: int| 0 <= i < args.len() ==> #[trigger] args[i]@ == expected[i]
}

/// A string holding exactly `text`.
fn owned(text: &str) -> (s: String)
    ensures
        s@ == text@,
{
    let mut s = String::new();
    s.append(text);
    proof { assert(s@ =~= text@); }
    s
}

/// The decimal representation of `n`.
fn decimal_text(n: u32) -> (s: String)
    ensures
        s@ == decimal(n as nat),
{
    let mut s = String::new();
    append_decimal(&mut s, n as u64);
    proof { assert(s@ =~= decimal(n as nat)); }
    s
}

/// The ffmpeg arguments that stream the camera as multipart JPEG.
pub fn ffmpeg_camera_args(camera: &CameraConfig) -> (args: Vec<String>)
    ensures
        args_are(args@, spec_ffmpeg_camera_args(*camera)),
{
    let mut args: Vec<String> = Vec::new();
    args.push(owned("-hide_banner"));
    args.push(owned("-loglevel"));
    args.push(owned("error"));
    args.push(owned("-f"));
    args.push(owned("video4linux2"));
    let pixel_format = ascii_lowercase(camera.pixel_format.as_str());
    args.push(owned("-input_format"));
    if str_eq(pixel_format.as_str(), "mjpg") || str_eq(pixel_format.as_str(), "mjpeg") {
        args.push(owned("mjpeg"));
    } else {
        args.push(pixel_format);
    }
    args.push(owned("-video_size"));
    let mut size = decimal_text(camera.width);
    size.append("x");
    let height = decimal_text(camera.height);
    size.append(height.as_str());
    args.push(size);
    args.push(owned("-framerate"));
    args.push(decimal_text(camera.fps));
    args.push(owned("-i"));
    match &camera.device {
        Some(d) => args.push(owned(d.as_str())),
        None => args.push(owned("/dev/video0")),
    }
    args.push(owned("-vf"));
    let mut filter = owned("fps=");
    let stream_fps: u32 = if camera.fps > 10 { 10 } else { camera.fps };
    let rate = decimal_text(stream_fps);
    filter.append(rate.as_str());
    args.push(filter);
    args.push(owned("-q:v"));
    args.push(owned("7"));
    args.push(owned("-f"));
    args.push(owned("mpjpeg"));
    args.push(owned("pipe:1"));
    proof {
        let expected = spec_ffmpeg_camera_args(*camera);
        assert forall|i: int| 0 <= i < args@.len() implies #[trigger] args@[i]@ == expected[i] by {
        }
    }
    args
}

/// The gst-launch arguments that stream a Jetson CSI camera through the
/// Argus pipeline as multipart JPEG on standard output.
pub open spec fn spec_gst_argus_args(camera: CameraConfig) -> Seq<Seq<char>> {
    let sensor_id: nat = match camera.sensor_id {
        Some(id) => id as nat,
        None => 0,
    };
    seq![
        "-q"@,
        "nvarguscamerasrc"@,
        "sensor-id="@ + decimal(sensor_id),
        "gainrange=1 16"@,
        "ispdigitalgainrange=1 1"@,
        "!"@,
        "video/x-raw(memory:NVMM),width=(int)"@ + decimal(camera.width as nat) + ",height=(int)"@
            + decimal(camera.height as nat) + ",framerate=(fraction)"@ + decimal(camera.fps as nat)
            + "/1,format=(string)NV12"@,
        "!"@,
        "nvvidconv"@,
        "!"@,
        "video/x-raw,format=(string)I420"@,
        "!"@,
        "jpegenc"@,
        "!"@,
        "multipartmux"@,
        "boundary=jetson"@,
        "!"@,
        "fdsink"@,
        "fd=1"@,
    ]
}

/// The gst-launch arguments of the Jetson camera stream.
pub fn gst_argus_args(camera: &CameraConfig) -> (args: Vec<String>)
    ensures
        args_are(args@, spec_gst_argus_args(*camera)),
{
    let sensor_id: u32 = match camera.sensor_id {
        Some(id) => id,
        None => 0,
    };
    let mut args: Vec<String> = Vec::new();
    args.push(owned("-q"));
    args.push(owned("nvarguscamerasrc"));
    let mut sensor = owned("sensor-id=");
    let id_text = decimal_text(sensor_id);
    sensor.append(id_text.as_str());
    args.push(sensor);
    args.push(owned("gainrange=1 16"));
    args.push(owned("ispdigitalgainrange=1 1"));
    args.push(owned("!"));
    let mut caps = owned("video/x-raw(memory:NVMM),width=(int)");
    let w = decimal_text(camera.width);
    caps.append(w.as_str());
    caps.append(",height=(int)");
    let h = decimal_text(camera.height);
    caps.append(h.as_str());
    caps.append(",framerate=(fraction)");
    let f = decimal_text(camera.fps);
    caps.append(f.as_str());
    caps.append("/1,format=(string)NV12");
    args.push(caps);
    args.push(owned("!"));
    args.push(owned("nvvidconv"));
    args.push(owned("!"));
    args.push(owned("video/x-raw,format=(string)I420"));
    args.push(owned("!"));
    args.push(owned("jpegenc"));
    args.push(owned("!"));
    args.push(owned("multipartmux"));
    args.push(owned("boundary=jetson"));
    args.push(owned("!"));
    args.push(owned("fdsink"));
    args.push(owned("fd=1"));
    proof {
        let expected = spec_gst_argus_args(*camera);
        assert forall|i: int| 0 <= i < args@.len() implies #[trigger] args@[i]@ == expected[i] by {
        }
    }
    args
}

/// The telemetry label of each leg servo, `<leg> / <joint>`; where legs share
/// a servo the later leg's label wins.
pub open spec fn spec_servo_labels(legs: Seq<LegConfig>) -> Map<u8, Seq<char>>
    decreases legs.len(),
{
    if legs.len() == 0 {
        Map::empty()
    } else {
        let leg = legs.last();
        spec_servo_labels(legs.drop_last())
            .insert(leg.coxa_servo_id, leg.name@ + " / coxa"@)
            .insert(leg.femur_servo_id, leg.name@ + " / femur"@)
            .insert(leg.tibia_servo_id, leg.name@ + " / tibia"@)
    }
}

/// The labels of a map of strings, taken as character sequences.
pub open spec fn labels_view(labels: Map<u8, String>) -> Map<u8, Seq<char>> {
    Map::new(|id: u8| labels.contains_key(id), |id: u8| labels[id]@)
}

/// `name` followed by `suffix`.
fn joined(name: &String, suffix: &str) -> (s: String)
    ensures
        s@ == name@ + suffix@,
{
    let mut s = String::new();
    s.append(name.as_str());
    s.append(suffix);
    proof { assert(s@ =~= name@ + suffix@); }
    s
}

/// The telemetry label of each leg servo.
pub fn servo_labels(legs: &[LegConfig]) -> (labels: BTreeMap<u8, String>)
    ensures
        labels_view(labels@) == spec_servo_labels(legs@),
{
    let mut labels: BTreeMap<u8, String> = BTreeMap::new();
    let mut i: usize = 0;
    proof {
        assert(labels_view(labels@) =~= spec_servo_labels(legs@.subrange(0, 0)));
    }
    while i < legs.len()
        invariant
            i <= legs@.len(),
            labels_view(labels@) == spec_servo_labels(legs@.subrange(0, i as int)),
        decreases legs@.len() - i,
    {
        let leg = &legs[i];
        labels.insert(leg.coxa_servo_id, joined(&leg.name, " / coxa"));
        labels.insert(leg.femur_servo_id, joined(&leg.name, " / femur"));
        labels.insert(leg.tibia_servo_id, joined(&leg.name, " / tibia"));
        proof {
            assert(legs@.subrange(0, i + 1).drop_last() =~= legs@.subrange(0, i as int));
            assert(legs@.subrange(0, i + 1).last() == legs@[i as int]);
            assert(labels_view(labels@) =~= spec_servo_labels(legs@.subrange(0, i + 1)));
        }
        i = i + 1;
    }
    proof {
        assert(legs@.subrange(0, legs@.len() as int) =~= legs@);
    }
    labels
}

} // verus!
