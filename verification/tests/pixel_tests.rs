use syncrgb::pixel::{
    convert_to_black, frame_is_black, frame_packet, push_led_record, sync_packet,
    SYNC_BLACK_THRESHOLD,
};

#[test]
fn dark_colours_become_black() {
    assert_eq!(convert_to_black(20, 20, 20, 20), (0, 0, 0));
    assert_eq!(convert_to_black(0, 5, 19, 20), (0, 0, 0));
    assert_eq!(convert_to_black(21, 0, 0, 20), (21, 0, 0));
}

#[test]
fn dominant_channel_is_boosted_and_weak_ones_cleared() {
    // 200 * 3 / 2 = 300, capped at 255.
    assert_eq!(convert_to_black(200, 50, 10, 20), (255, 0, 0));
    assert_eq!(convert_to_black(30, 250, 40, 20), (0, 255, 0));
    assert_eq!(convert_to_black(0, 0, 255, 20), (0, 0, 255));
}

#[test]
fn mixed_colours_are_unchanged() {
    // Only one weak channel.
    assert_eq!(convert_to_black(200, 51, 10, 20), (200, 51, 10));
    // No dominant channel.
    assert_eq!(convert_to_black(199, 10, 10, 20), (199, 10, 10));
    // Two dominant channels.
    assert_eq!(convert_to_black(255, 255, 0, 20), (255, 255, 0));
    assert_eq!(convert_to_black(128, 128, 128, 20), (128, 128, 128));
}

#[test]
fn channel_order_does_not_matter() {
    for &(r, g, b) in &[(200u8, 50u8, 10u8), (30, 250, 40), (19, 19, 21), (100, 0, 255)] {
        let (cr, cg, cb) = convert_to_black(r, g, b, 20);
        assert_eq!(convert_to_black(g, r, b, 20), (cg, cr, cb));
        assert_eq!(convert_to_black(g, b, r, 20), (cg, cb, cr));
    }
}

#[test]
fn record_is_number_colour_number() {
    let mut data = vec![9u8];
    push_led_record(&mut data, 3, 10, 20, 30);
    assert_eq!(data, vec![9, 3, 10, 20, 30, 3]);
}

#[test]
fn sync_packet_layout() {
    let colors = vec![(10, 10, 10), (100, 150, 200), (210, 0, 0)];
    let data = sync_packet(&colors);
    assert_eq!(
        data,
        vec![1, 0, 0, 0, 1, 2, 100, 150, 200, 2, 3, 255, 0, 0, 3]
    );
    assert_eq!(SYNC_BLACK_THRESHOLD, 20);
}

#[test]
fn led_numbers_wrap_after_255() {
    let colors = vec![(1u8, 2u8, 3u8); 300];
    let data = frame_packet(&colors);
    assert_eq!(data.len(), 1500);
    assert_eq!(data[5 * 254], 255);
    assert_eq!(data[5 * 255], 0);
    assert_eq!(data[5 * 255 + 4], 0);
    assert_eq!(data[5 * 256], 1);
    let sync = sync_packet(&colors);
    assert_eq!(sync[5 * 255], 0);
    assert_eq!(&sync[5 * 299..], &[44, 0, 0, 0, 44]);
}

#[test]
fn frame_packet_keeps_colours() {
    let colors = vec![(10, 10, 10), (0, 0, 0)];
    assert_eq!(frame_packet(&colors), vec![1, 10, 10, 10, 1, 2, 0, 0, 0, 2]);
    assert!(frame_packet(&vec![]).is_empty());
}

#[test]
fn black_frames() {
    assert!(frame_is_black(&vec![]));
    assert!(frame_is_black(&vec![(0, 0, 0), (5, 5, 4)]));
    assert!(!frame_is_black(&vec![(0, 0, 0), (5, 5, 5)]));
    assert!(!frame_is_black(&vec![(255, 255, 255)]));
}
