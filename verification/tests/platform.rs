use arachno_pilot::camera::{ascii_lowercase, ffmpeg_camera_args, gst_argus_args, servo_labels, CameraConfig};
use arachno_pilot::clock::{epoch_millis, now_ms};
use arachno_pilot::config::{all_servo_ids, find_servo, servo_id_for_joint, sign_for_joint, JointKind, LegConfig};
use arachno_pilot::strings::{str_contains, str_eq, str_starts_with};
use arachno_pilot::text::decimal_string;

fn camera() -> CameraConfig {
    CameraConfig {
        device: None,
        pixel_format: "MJPG".to_owned(),
        width: 640,
        height: 480,
        fps: 30,
        sensor_id: None,
    }
}

fn leg(name: &str, base: u8) -> LegConfig {
    LegConfig {
        name: name.to_owned(),
        coxa_servo_id: base + 1,
        femur_servo_id: base + 2,
        tibia_servo_id: base + 3,
        coxa_forward_sign: 1,
        femur_lift_sign: -1,
        tibia_lift_sign: 1,
        coxa_zero_reference_ticks: 2048,
        femur_zero_reference_ticks: 2048,
        tibia_zero_reference_ticks: 2048,
        tripod_a: true,
    }
}

#[test]
fn ffmpeg_streams_mjpeg_at_no_more_than_ten_frames() {
    assert_eq!(
        ffmpeg_camera_args(&camera()),
        vec![
            "-hide_banner", "-loglevel", "error", "-f", "video4linux2", "-input_format", "mjpeg", "-video_size",
            "640x480", "-framerate", "30", "-i", "/dev/video0", "-vf", "fps=10", "-q:v", "7", "-f", "mpjpeg",
            "pipe:1",
        ]
    );
    let yuyv = CameraConfig { device: Some("/dev/video2".to_owned()), pixel_format: "YUYV".to_owned(), fps: 5, ..camera() };
    let args = ffmpeg_camera_args(&yuyv);
    assert_eq!(args[6], "yuyv");
    assert_eq!(args[10], "5");
    assert_eq!(args[12], "/dev/video2");
    assert_eq!(args[14], "fps=5");
}

#[test]
fn argus_pipeline_names_the_sensor_and_format() {
    let args = gst_argus_args(&CameraConfig { sensor_id: Some(1), ..camera() });
    assert_eq!(args.len(), 19);
    assert_eq!(args[2], "sensor-id=1");
    assert_eq!(
        args[6],
        "video/x-raw(memory:NVMM),width=(int)640,height=(int)480,framerate=(fraction)30/1,format=(string)NV12"
    );
    assert_eq!(args[18], "fd=1");
    assert_eq!(gst_argus_args(&camera())[2], "sensor-id=0");
}

#[test]
fn ascii_lowercase_leaves_other_characters() {
    assert_eq!(ascii_lowercase("MJPG"), "mjpg");
    assert_eq!(ascii_lowercase("Ärger-X1"), "Ärger-x1");
}

#[test]
fn servo_labels_name_leg_and_joint() {
    let labels = servo_labels(&[leg("front_left", 10), leg("front_right", 20)]);
    assert_eq!(labels.len(), 6);
    assert_eq!(labels[&11], "front_left / coxa");
    assert_eq!(labels[&23], "front_right / tibia");
}

#[test]
fn leg_servo_ids_and_signs() {
    let legs = [leg("front_left", 10), leg("front_right", 20)];
    assert_eq!(all_servo_ids(&legs), vec![11, 12, 13, 21, 22, 23]);
    assert_eq!(servo_id_for_joint(&legs[1], JointKind::Femur), 22);
    assert_eq!(sign_for_joint(&legs[0], JointKind::Femur), -1);
}

#[test]
fn servo_lookup_finds_leg_and_joint() {
    let legs = [leg("front_left", 10), leg("front_right", 20)];
    assert_eq!(find_servo(&legs, 23), Some((1, JointKind::Tibia)));
    assert_eq!(find_servo(&legs, 11), Some((0, JointKind::Coxa)));
    assert_eq!(find_servo(&legs, 30), None);
}

#[test]
fn epoch_milliseconds() {
    assert_eq!(epoch_millis(Some((1, 500_000_000))), 1500);
    assert_eq!(epoch_millis(Some((1_700_000_000, 999_999_999))), 1_700_000_000_999);
    assert_eq!(epoch_millis(None), 0);
    assert!(now_ms() > 1_600_000_000_000);
}

#[test]
fn string_helpers() {
    assert!(str_contains("front_left", "left"));
    assert!(str_contains("abc", ""));
    assert!(!str_contains("ab", "abc"));
    assert!(str_starts_with("front_left", "front_"));
    assert!(!str_starts_with("left_front", "front_"));
    assert!(str_eq("a", "a"));
    assert!(!str_eq("a", "ab"));
    assert_eq!(decimal_string(0), "0");
    assert_eq!(decimal_string(18_446_744_073_709_551_615), "18446744073709551615");
}
