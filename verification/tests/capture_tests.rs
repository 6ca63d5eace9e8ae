use syncrgb::capture::{
    capture_error_step, frame_interval_ms, track_black_screen, CaptureAction, CaptureError,
};

#[test]
fn error_messages() {
    assert_eq!(CaptureError::Timeout.describe(), "프레임 타임아웃");
    assert_eq!(CaptureError::AccessLost.describe(), "Desktop Duplication 접근 손실");
    assert_eq!(CaptureError::Other("Map 실패".to_string()).describe(), "Map 실패");
}

#[test]
fn timeout_and_lost_access_keep_the_count() {
    assert_eq!(capture_error_step(&CaptureError::Timeout, 7), (CaptureAction::Wait, 7));
    assert_eq!(capture_error_step(&CaptureError::AccessLost, 7), (CaptureAction::Reinitialize, 7));
}

#[test]
fn thirtieth_error_reinitializes() {
    let err = CaptureError::Other("x".to_string());
    let mut count = 0;
    for n in 1..=29 {
        let (action, next) = capture_error_step(&err, count);
        assert_eq!(action, CaptureAction::Report { reinitialize: false });
        assert_eq!(next, n);
        count = next;
    }
    assert_eq!(
        capture_error_step(&err, count),
        (CaptureAction::Report { reinitialize: true }, 0)
    );
}

#[test]
fn frame_interval() {
    assert_eq!(frame_interval_ms(30), 33);
    assert_eq!(frame_interval_ms(60), 16);
    assert_eq!(frame_interval_ms(1), 1000);
    assert_eq!(frame_interval_ms(2000), 0);
}

#[test]
fn black_screen_after_threshold_frames() {
    let threshold = 30;
    let mut count = 0;
    for n in 1..=29 {
        let (next, black) = track_black_screen(true, count, threshold, true);
        assert_eq!(next, n);
        assert!(!black);
        count = next;
    }
    assert_eq!(track_black_screen(true, count, threshold, true), (30, true));
    assert_eq!(track_black_screen(true, 30, threshold, false), (0, false));
}

#[test]
fn black_count_saturates() {
    assert_eq!(track_black_screen(true, u32::MAX, 30, true), (u32::MAX, true));
}

#[test]
fn disabled_detector_is_never_black() {
    assert_eq!(track_black_screen(false, 100, 30, true), (0, false));
    assert_eq!(track_black_screen(false, 0, 0, true), (0, false));
}

#[test]
fn zero_threshold_is_always_black() {
    assert_eq!(track_black_screen(true, 5, 0, false), (0, true));
}
