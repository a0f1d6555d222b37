use buzzer_control_webserver::camera::{camera_response, camera_signals_handler, CameraAction};
use buzzer_control_webserver::camera_handler;
use buzzer_control_webserver::status_response::status_response;
use buzzer_control_webserver::system_calls::{update_image_args, update_image_report};
use buzzer_control_webserver::use_libcamera::{
    capture_file_name, take_image_args, take_image_outcome, CAMERA_MODES,
};

#[test]
fn camera_requests() {
    assert_eq!(camera_signals_handler(false, Some("good")), CameraAction::Busy);
    assert_eq!(camera_signals_handler(true, Some("good")), CameraAction::TakeImage { quality: 95 });
    assert_eq!(camera_signals_handler(true, Some("shitty")), CameraAction::TakeImage { quality: 5 });
    assert_eq!(camera_signals_handler(true, Some("nice")), CameraAction::UnknownSignal);
    assert_eq!(camera_signals_handler(true, None), CameraAction::UnknownSignal);
}

#[test]
fn camera_answers() {
    let r = camera_response(CameraAction::Busy, None);
    assert_eq!(r.lib_camera_status, "camera_busy");
    assert_eq!(r.latest_image, "");
    let r = camera_response(CameraAction::UnknownSignal, None);
    assert_eq!(r.lib_camera_status, "camera_unknown_signal");
    assert_eq!(r.latest_image, "");
    let r = camera_response(
        CameraAction::TakeImage { quality: 95 },
        Some(("camera_ok".to_string(), "2024_01_01-120000.jpg".to_string())),
    );
    assert_eq!(r.lib_camera_status, "camera_ok");
    assert_eq!(r.latest_image, "2024_01_01-120000.jpg");
}

#[test]
fn camera_requests_with_in_use_flag() {
    let r = camera_handler::camera_signals_handler(true, Some("good"));
    assert_eq!(r.capture_quality, None);
    assert_eq!(r.response, "camera_busy");
    let r = camera_handler::camera_signals_handler(false, Some("good"));
    assert_eq!(r.capture_quality, Some(95));
    assert_eq!(r.response, "camera_ready");
    let r = camera_handler::camera_signals_handler(false, Some("shitty"));
    assert_eq!(r.capture_quality, Some(5));
    assert_eq!(r.response, "camera_ready");
    let r = camera_handler::camera_signals_handler(false, Some("blurry"));
    assert_eq!(r.capture_quality, None);
    assert_eq!(r.response, "camera_ready");
    let r = camera_handler::camera_signals_handler(false, None);
    assert_eq!(r.capture_quality, None);
    assert_eq!(r.response, "camera_unknown_error");
}

#[test]
fn status_reports() {
    let r = status_response(false, Some("2024_01_01-120000.jpg".to_string()));
    assert_eq!(r.buzzer_status, "buzzer_free");
    assert_eq!(r.latest_image, "2024_01_01-120000.jpg");
    assert_eq!(r.camera_status, "camera_ok");
    assert_eq!(r.server_status, "online");
    let r = status_response(true, None);
    assert_eq!(r.buzzer_status, "buzzer_busy");
    assert_eq!(r.latest_image, "img/example.jpg");
    assert_eq!(r.camera_status, "camera_busy");
    assert_eq!(r.server_status, "online");
}

#[test]
fn capture_file_names_carry_the_utc_time() {
    assert_eq!(capture_file_name(0).unwrap(), "1970_01_01-000000.jpg");
    assert_eq!(capture_file_name(1_725_029_869).unwrap(), "2024_08_30-145749.jpg");
    assert_eq!(capture_file_name(i64::MAX), None);
}

#[test]
fn take_image_command_line() {
    assert_eq!(CAMERA_MODES[1], (1296, 972));
    assert_eq!(
        take_image_args(95, "pic.jpg"),
        vec!["-n", "-t 20", "--width=1296", "--height=972", "-q95", "-opic.jpg"]
    );
    assert_eq!(
        take_image_args(5, "a.jpg"),
        vec!["-n", "-t 20", "--width=1296", "--height=972", "-q5", "-oa.jpg"]
    );
}

#[test]
fn take_image_outcomes() {
    assert_eq!(
        take_image_outcome(true, "x.jpg".to_string()),
        ("camera_ok".to_string(), "x.jpg".to_string())
    );
    assert_eq!(
        take_image_outcome(false, "x.jpg".to_string()),
        ("camera_error".to_string(), "example.jpg".to_string())
    );
}

#[test]
fn update_image_command_line_and_report() {
    assert_eq!(
        update_image_args(),
        vec!["-n", "-t 50", "--width=2592", "--height=1944", "-oexample.jpg"]
    );
    assert_eq!(update_image_report(b"done\n"), "done\n");
    assert_eq!(update_image_report("größe".as_bytes()), "größe");
    assert_eq!(
        update_image_report(&[0x61, 0xff, 0x62]),
        "invalid UTF-8 sequence: invalid utf-8 sequence of 1 bytes from index 1"
    );
}
