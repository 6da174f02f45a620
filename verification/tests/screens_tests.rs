use window_tuner::geometry::{FineRect, Rect};
use window_tuner::screens::{
    arrange_screens, find_screen_index, find_target_screen_index, sort_screens_by_frame_x,
};

/// A rectangle given in whole points.
fn rect(x: i64, y: i64, width: i64, height: i64) -> Rect {
    Rect { x: 6 * x, y: 6 * y, width: 6 * width, height: 6 * height }
}

/// A laptop screen with a larger screen to its right.
fn two_screens() -> Vec<(Rect, Rect)> {
    vec![
        (rect(0, 25, 1440, 875), rect(0, 0, 1440, 900)),
        (rect(1440, 0, 1920, 1080), rect(1440, 0, 1920, 1080)),
    ]
}

#[test]
fn window_on_one_screen() {
    let s = two_screens();
    assert_eq!(find_screen_index(&s, &rect(100, 100, 800, 600)), 0);
    assert_eq!(find_screen_index(&s, &rect(2000, 100, 800, 600)), 1);
}

#[test]
fn window_across_screens_goes_to_the_larger_overlap() {
    let s = two_screens();
    // 140 x 400 on the first screen, 260 x 400 on the second.
    assert_eq!(find_screen_index(&s, &rect(1300, 100, 400, 400)), 1);
    // 300 x 400 on the first screen, 100 x 400 on the second.
    assert_eq!(find_screen_index(&s, &rect(1140, 100, 400, 400)), 0);
}

#[test]
fn equal_overlaps_go_to_the_first_screen() {
    let s = two_screens();
    assert_eq!(find_screen_index(&s, &rect(1340, 100, 200, 400)), 0);
}

#[test]
fn without_overlap_the_centre_decides() {
    let s = two_screens();
    // Zero-size window whose centre lies on the second screen.
    assert_eq!(find_screen_index(&s, &rect(2000, 50, 0, 10)), 1);
    // On the shared edge: the first screen that holds the centre.
    assert_eq!(find_screen_index(&s, &rect(1440, 100, 0, 0)), 0);
}

#[test]
fn a_window_nowhere_goes_to_the_first_screen() {
    let s = two_screens();
    assert_eq!(find_screen_index(&s, &rect(-5000, -5000, 100, 100)), 0);
    assert_eq!(find_screen_index(&[], &rect(0, 0, 100, 100)), 0);
}

#[test]
fn extreme_rectangles_do_not_overflow() {
    let raw = |x: i64, y: i64, width: i64, height: i64| Rect { x, y, width, height };
    let s = vec![(raw(0, 0, 0, 0), raw(i64::MIN, i64::MIN, i64::MAX, i64::MAX))];
    assert_eq!(find_screen_index(&s, &raw(i64::MAX, i64::MAX, i64::MAX, i64::MAX)), 0);
    assert_eq!(find_screen_index(&s, &raw(-10, -10, i64::MAX, i64::MAX)), 0);
}

#[test]
fn screens_move_into_accessibility_space_and_left_to_right_order() {
    // Cocoa space: (frame, visible frame); the primary screen comes first.
    let raw = vec![
        (rect(0, 0, 1440, 900), rect(0, 0, 1440, 875)),
        (rect(-1920, 0, 1920, 1080), rect(-1920, 0, 1920, 1055)),
    ];
    let arranged = arrange_screens(&raw);
    assert_eq!(
        arranged,
        vec![
            (rect(-1920, -155, 1920, 1055), rect(-1920, -180, 1920, 1080)),
            (rect(0, 25, 1440, 875), rect(0, 0, 1440, 900)),
        ]
    );
}

#[test]
fn a_screen_above_the_primary_gets_a_negative_y() {
    let raw = vec![
        (rect(0, 0, 1440, 900), rect(0, 0, 1440, 875)),
        (rect(0, 900, 2560, 1440), rect(0, 900, 2560, 1415)),
    ];
    let arranged = arrange_screens(&raw);
    assert_eq!(arranged[0], (rect(0, 25, 1440, 875), rect(0, 0, 1440, 900)));
    assert_eq!(arranged[1], (rect(0, -1415, 2560, 1415), rect(0, -1440, 2560, 1440)));
}

#[test]
fn sorting_is_stable() {
    let a = (rect(1, 0, 0, 0), rect(500, 0, 0, 0));
    let b = (rect(2, 0, 0, 0), rect(-100, 0, 0, 0));
    let c = (rect(3, 0, 0, 0), rect(500, 0, 0, 0));
    let d = (rect(4, 0, 0, 0), rect(0, 0, 0, 0));
    let e = (rect(5, 0, 0, 0), rect(-100, 0, 0, 0));
    let sorted = sort_screens_by_frame_x(&vec![a, b, c, d, e]);
    assert_eq!(sorted, vec![b, e, d, a, c]);
    assert_eq!(sort_screens_by_frame_x(&vec![]), vec![]);
}

#[test]
fn targets_measured_finer_find_their_screen() {
    let s = two_screens();
    // Targets given in sixths of a point.
    let fine = |x: i64, y: i64, width: i64, height: i64| FineRect {
        x: 6 * x,
        y: 6 * y,
        width: 6 * width,
        height: 6 * height,
    };
    // The same rectangle in both measures lands on the same screen.
    assert_eq!(find_target_screen_index(&s, &fine(7800, 600, 2400, 2400)), 1);
    assert_eq!(find_screen_index(&s, &rect(1300, 100, 400, 400)), 1);
    // 1339.5 .. 1540.5 points: 100.5 x 400 on the first screen, 100.5 x 400 on the second.
    assert_eq!(find_target_screen_index(&s, &fine(8037, 600, 1206, 2400)), 0);
    // 1339.5 .. 1541 points: the second screen overlaps more by half a point.
    assert_eq!(find_target_screen_index(&s, &fine(8037, 600, 1209, 2400)), 1);
    // A zero-size target at 2000.5 points: its centre lies on the second screen.
    assert_eq!(find_target_screen_index(&s, &fine(12003, 300, 0, 0)), 1);
    assert_eq!(find_target_screen_index(&[], &fine(0, 0, 1, 1)), 0);
}
