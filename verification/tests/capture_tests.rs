use flashcap::capture::capture_args_interactive;
use flashcap::capture::capture_args_timer;
use flashcap::capture::classify_capture_outcome;
use flashcap::capture::screenshot_destination;
use flashcap::capture::screenshot_filename;
use flashcap::capture::CaptureConfig;
use flashcap::capture::Timestamp;
use flashcap::errors::ScreenshotError;

fn sample_timestamp() -> Timestamp {
    Timestamp { year: 2024, month: 3, day: 7, hour: 9, minute: 5, second: 30 }
}

#[test]
fn filename_is_zero_padded_and_sortable() {
    assert_eq!(screenshot_filename(&sample_timestamp()), "flashcap-20240307-090530.png");
}

#[test]
fn filename_handles_wide_fields() {
    let ts = Timestamp { year: 999, month: 12, day: 31, hour: 23, minute: 59, second: 59 };
    assert_eq!(screenshot_filename(&ts), "flashcap-09991231-235959.png");
}

#[test]
fn destination_joins_directory_and_filename() {
    assert_eq!(
        screenshot_destination("/tmp/flashcap", &sample_timestamp()),
        "/tmp/flashcap/flashcap-20240307-090530.png"
    );
}

#[test]
fn interactive_args_with_shadow_excluded() {
    let config = CaptureConfig { exclude_shadow: true, timer_delay_seconds: 5 };
    let args = capture_args_interactive(&config, "/d/shot.png");
    assert_eq!(args, vec!["-i".to_string(), "-o".to_string(), "/d/shot.png".to_string()]);
}

#[test]
fn interactive_args_with_shadow_kept() {
    let config = CaptureConfig { exclude_shadow: false, timer_delay_seconds: 5 };
    let args = capture_args_interactive(&config, "/d/shot.png");
    assert_eq!(args, vec!["-i".to_string(), "/d/shot.png".to_string()]);
}

#[test]
fn timer_args_insert_delay_before_destination() {
    let config = CaptureConfig { exclude_shadow: true, timer_delay_seconds: 12 };
    let args = capture_args_timer(&config, "/d/shot.png");
    assert_eq!(
        args,
        vec![
            "-i".to_string(),
            "-o".to_string(),
            "-T".to_string(),
            "12".to_string(),
            "/d/shot.png".to_string(),
        ]
    );
}

#[test]
fn nonzero_exit_is_a_cancellation() {
    match classify_capture_outcome(true, false, false) {
        Err(ScreenshotError::CaptureCancelled) => {},
        _ => panic!("expected a cancellation"),
    }
    match classify_capture_outcome(true, false, true) {
        Err(ScreenshotError::CaptureCancelled) => {},
        _ => panic!("expected a cancellation"),
    }
}

#[test]
fn zero_exit_without_file_is_a_cancellation() {
    match classify_capture_outcome(true, true, false) {
        Err(ScreenshotError::CaptureCancelled) => {},
        _ => panic!("expected a cancellation"),
    }
}

#[test]
fn launch_failure_is_distinct_from_cancellation() {
    match classify_capture_outcome(false, false, false) {
        Err(ScreenshotError::ProcessLaunchFailed) => {},
        _ => panic!("expected a launch failure"),
    }
}

#[test]
fn zero_exit_with_file_succeeds() {
    assert!(classify_capture_outcome(true, true, true).is_ok());
}
