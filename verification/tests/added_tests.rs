use syncrgb::audio::mix_format_is_float;
use syncrgb::capture::track_black_screen;
use syncrgb::config::{first_loaded, Config};
use syncrgb::pixel::record_starts;
use syncrgb::settings::{poll_tick, settings_file_changed};

#[test]
fn float_mix_formats() {
    assert!(mix_format_is_float(3, None));
    assert!(mix_format_is_float(0xfffe, Some(3)));
    assert!(!mix_format_is_float(0xfffe, Some(1)));
    assert!(!mix_format_is_float(0xfffe, None));
    assert!(!mix_format_is_float(1, None));
}

#[test]
fn packet_record_offsets() {
    assert_eq!(record_starts(0), Vec::<usize>::new());
    assert_eq!(record_starts(4), Vec::<usize>::new());
    assert_eq!(record_starts(5), vec![0]);
    assert_eq!(record_starts(14), vec![0, 5]);
    assert_eq!(record_starts(15), vec![0, 5, 10]);
}

#[test]
fn tray_polls_every_hundredth_tick() {
    assert_eq!(poll_tick(0), (1, false));
    assert_eq!(poll_tick(98), (99, false));
    assert_eq!(poll_tick(99), (100, true));
    assert_eq!(poll_tick(199), (200, true));
}

#[test]
fn settings_file_change_detection() {
    assert!(settings_file_changed(None, (5, 0)));
    assert!(!settings_file_changed(Some((5, 7)), (5, 7)));
    assert!(settings_file_changed(Some((5, 7)), (5, 8)));
    assert!(settings_file_changed(Some((4, 7)), (5, 7)));
}

#[test]
fn first_parsed_settings_win() {
    let mut a = Config::default();
    a.device.com_port = "COM3".to_string();
    let mut b = Config::default();
    b.device.com_port = "COM4".to_string();
    assert_eq!(first_loaded(&vec![None, Some(a.clone()), Some(b)]).device.com_port, "COM3");
    assert_eq!(first_loaded(&vec![None, None]).device.com_port, "auto");
    assert_eq!(first_loaded(&vec![]).device.lamps_amount, 65);
}

#[test]
fn black_flag_follows_last_captures() {
    // Threshold 3: black, black, not black, black, black, black.
    let frames = [true, true, false, true, true, true];
    let expected = [false, false, false, false, false, true];
    let mut count = 0;
    for (k, &black) in frames.iter().enumerate() {
        let (next, flag) = track_black_screen(true, count, 3, black);
        assert_eq!(flag, expected[k]);
        count = next;
    }
    // Switching the detector off clears the run.
    let (count, flag) = track_black_screen(false, count, 3, true);
    assert!(!flag);
    assert_eq!(track_black_screen(true, count, 3, true), (1, false));
}
