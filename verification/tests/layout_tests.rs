use syncrgb::layout::{compute_edge_leds, edge_frame, edge_leds_fit};

#[test]
fn default_strip_on_three_edges() {
    // 65 * 9 / 34 = 17 on each side, the rest on top.
    assert_eq!(compute_edge_leds(65, 3), (17, 31, 17, 0));
}

#[test]
fn default_strip_on_four_edges() {
    // 65 * 9 / 50 = 11, 65 * 16 / 50 = 20, bottom gets the rest.
    assert_eq!(compute_edge_leds(65, 4), (11, 20, 11, 23));
}

#[test]
fn every_led_is_placed() {
    for lamps in [0u32, 1, 2, 33, 34, 35, 49, 50, 51, 100, 254, 1000, 100_000] {
        for edges in [0u8, 3, 4, 5, 255] {
            let (l, t, r, b) = compute_edge_leds(lamps, edges);
            assert_eq!(l + t + r + b, lamps as usize);
            assert_eq!(l, r);
            if edges < 4 {
                assert_eq!(b, 0);
            }
        }
    }
}

#[test]
fn largest_strips_that_fit() {
    let max4 = u32::MAX / 16;
    let (l, t, r, b) = compute_edge_leds(max4, 4);
    assert_eq!(l + t + r + b, max4 as usize);
    let max3 = u32::MAX / 9;
    let (l, t, r, b) = compute_edge_leds(max3, 3);
    assert_eq!(l + t + r + b, max3 as usize);
}

#[test]
fn side_edges_frame_has_dark_top_and_bottom() {
    let left = vec![(1, 2, 3), (4, 5, 6)];
    let right = vec![(7, 8, 9)];
    let frame = edge_frame(&left, 2, &right, 1);
    assert_eq!(
        frame,
        vec![(1, 2, 3), (4, 5, 6), (0, 0, 0), (0, 0, 0), (7, 8, 9), (0, 0, 0)]
    );
    assert!(edge_frame(&vec![], 0, &vec![], 0).is_empty());
}

#[test]
fn strip_size_limits() {
    assert!(edge_leds_fit(u32::MAX / 16, 4));
    assert!(!edge_leds_fit(u32::MAX / 16 + 1, 4));
    assert!(edge_leds_fit(u32::MAX / 9, 3));
    assert!(!edge_leds_fit(u32::MAX / 9 + 1, 3));
    assert!(edge_leds_fit(65, 0));
}
