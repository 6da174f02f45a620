use window_tuner::geometry::{FineRect, Rect};
use window_tuner::layout::Layout;
use window_tuner::window_manager::{
    already_at_target, bounds_steps, focused_window_info, resize_target, BoundsStep, WindowInfo,
};

/// A rectangle given in whole points.
fn rect(x: i64, y: i64, width: i64, height: i64) -> Rect {
    Rect { x: 6 * x, y: 6 * y, width: 6 * width, height: 6 * height }
}

/// A target given in whole points.
fn fine_points(x: i64, y: i64, width: i64, height: i64) -> FineRect {
    FineRect { x: 36 * x, y: 36 * y, width: 36 * width, height: 36 * height }
}

fn two_screens() -> Vec<(Rect, Rect)> {
    vec![
        (rect(0, 25, 1440, 875), rect(0, 0, 1440, 900)),
        (rect(1440, 0, 1920, 1080), rect(1440, 0, 1920, 1080)),
    ]
}

/// Applies the steps to a window, each as asked.
fn apply(mut w: FineRect, steps: &[BoundsStep]) -> FineRect {
    for step in steps {
        match *step {
            BoundsStep::SetSize { width, height } => {
                w.width = width;
                w.height = height;
            }
            BoundsStep::SetPosition { x, y } => {
                w.x = x;
                w.y = y;
            }
            BoundsStep::Pause { .. } => {}
        }
    }
    w
}

#[test]
fn window_info_reports_the_window_screen() {
    let s = two_screens();
    let info = focused_window_info(Some((12000, 600)), Some((4800, 3600)), &s);
    assert_eq!(
        info,
        WindowInfo {
            window_rect: rect(2000, 100, 800, 600),
            screen_visible_rect: rect(1440, 0, 1920, 1080),
            screen_frame: rect(1440, 0, 1920, 1080),
        }
    );
}

#[test]
fn failed_readings_count_as_zero() {
    let s = two_screens();
    let info = focused_window_info(None, None, &s);
    assert_eq!(info.window_rect, rect(0, 0, 0, 0));
    assert_eq!(info.screen_frame, rect(0, 0, 1440, 900));
    let info = focused_window_info(Some((9000, 60)), None, &s);
    assert_eq!(info.window_rect, rect(1500, 10, 0, 0));
    assert_eq!(info.screen_frame, rect(1440, 0, 1920, 1080));
}

#[test]
fn moving_within_a_screen() {
    let s = two_screens();
    let target = fine_points(0, 25, 720, 875);
    let steps = bounds_steps(Some((600, 600)), &target, &s);
    assert_eq!(
        steps,
        vec![
            BoundsStep::SetPosition { x: 36, y: 900 },
            BoundsStep::SetSize { width: 25920, height: 31500 },
            BoundsStep::SetPosition { x: 0, y: 900 },
            BoundsStep::SetSize { width: 25920, height: 31500 },
        ]
    );
    assert_eq!(apply(fine_points(100, 100, 800, 600), &steps), target);
}

#[test]
fn moving_across_screens() {
    let s = two_screens();
    let target = fine_points(2400, 0, 960, 1080);
    let steps = bounds_steps(Some((600, 600)), &target, &s);
    assert_eq!(
        steps,
        vec![
            BoundsStep::SetSize { width: 10800, height: 10800 },
            BoundsStep::SetPosition { x: 86436, y: 0 },
            BoundsStep::SetPosition { x: 86400, y: 0 },
            BoundsStep::Pause { millis: 50 },
            BoundsStep::SetSize { width: 34560, height: 38880 },
            BoundsStep::SetPosition { x: 86400, y: 0 },
        ]
    );
    assert_eq!(apply(fine_points(100, 100, 800, 600), &steps), target);
}

#[test]
fn an_unknown_position_counts_as_the_origin() {
    let s = two_screens();
    assert_eq!(bounds_steps(None, &fine_points(2400, 0, 960, 1080), &s).len(), 6);
    assert_eq!(bounds_steps(None, &fine_points(10, 10, 100, 100), &s).len(), 4);
}

#[test]
fn a_fractional_target_near_a_screen_edge() {
    let s = two_screens();
    // 1439.5 .. 1940.5 points: 0.5 x 400 on the first screen, 500.5 x 400 on the second.
    let target = FineRect { x: 51822, y: 3600, width: 18036, height: 14400 };
    assert_eq!(bounds_steps(Some((12000, 600)), &target, &s).len(), 4);
    assert_eq!(bounds_steps(Some((600, 600)), &target, &s).len(), 6);
}

#[test]
fn at_target_tolerance() {
    let target = fine_points(0, 25, 720, 875);
    // Full-height left/right layouts look at x and width only.
    assert!(already_at_target(Layout::Left, &rect(10, 500, 700, 300), &target));
    assert!(already_at_target(Layout::RightThird, &rect(-44, 0, 764, 0), &target));
    assert!(!already_at_target(Layout::Left, &rect(45, 25, 720, 875), &target));
    assert!(!already_at_target(Layout::Left, &rect(0, 25, 675, 875), &target));
    // The others look at all four fields.
    assert!(!already_at_target(Layout::Top, &rect(10, 500, 700, 300), &target));
    assert!(already_at_target(Layout::Top, &rect(44, 69, 764, 831), &target));
    assert!(!already_at_target(Layout::Maximize, &rect(0, 25, 720, 920), &target));
    assert!(!already_at_target(Layout::CenterThird, &rect(0, 70, 720, 875), &target));
    // The tolerance is measured exactly: 44.5 points away is near, 45 is not.
    let half = FineRect { x: 1602, y: 900, width: 25920, height: 31500 };
    assert!(already_at_target(Layout::Top, &rect(0, 25, 720, 875), &half));
    let edge = FineRect { x: 1620, y: 900, width: 25920, height: 31500 };
    assert!(!already_at_target(Layout::Top, &rect(0, 25, 720, 875), &edge));
}

#[test]
fn a_layout_on_the_window_screen() {
    let s = two_screens();
    let w = rect(100, 100, 800, 600);
    assert_eq!(resize_target(Layout::Left, &w, &s), Some(fine_points(0, 25, 720, 875)));
    assert_eq!(
        resize_target(Layout::Center, &w, &s),
        Some(FineRect { x: 11520, y: 5850, width: 28800, height: 21600 })
    );
    let w2 = rect(2000, 100, 800, 600);
    assert_eq!(resize_target(Layout::Maximize, &w2, &s), Some(fine_points(1440, 0, 1920, 1080)));
}

#[test]
fn repeating_a_layout_moves_to_the_next_screen() {
    let s = two_screens();
    // At the right half of the first screen: the right half of the second.
    let w = rect(720, 25, 720, 875);
    assert_eq!(resize_target(Layout::Right, &w, &s), Some(fine_points(2400, 0, 960, 1080)));
    // Close enough counts as being there.
    let w = rect(740, 300, 700, 10);
    assert_eq!(resize_target(Layout::Right, &w, &s), Some(fine_points(2400, 0, 960, 1080)));
    // At the left half of the second screen: the left half of the first.
    let w = rect(1440, 0, 960, 1080);
    assert_eq!(resize_target(Layout::Left, &w, &s), Some(fine_points(0, 25, 720, 875)));
}

#[test]
fn repeating_at_the_last_screen_stays() {
    let s = two_screens();
    let w = rect(0, 25, 720, 875);
    assert_eq!(resize_target(Layout::Left, &w, &s), Some(fine_points(0, 25, 720, 875)));
    let w = rect(2400, 0, 960, 1080);
    assert_eq!(resize_target(Layout::Right, &w, &s), Some(fine_points(2400, 0, 960, 1080)));
    // Maximize has no direction: it stays even with a second screen.
    let w = rect(0, 25, 1440, 875);
    assert_eq!(resize_target(Layout::Maximize, &w, &s), Some(fine_points(0, 25, 1440, 875)));
}

#[test]
fn no_screens_no_target() {
    assert_eq!(resize_target(Layout::Left, &rect(0, 0, 10, 10), &[]), None);
}

#[test]
fn half_point_readings_are_kept() {
    let s = two_screens();
    // 100.5, 100.5, 500.5 x 300.5 points, in sixths of a point.
    let w = Rect { x: 603, y: 603, width: 3003, height: 1803 };
    let t = resize_target(Layout::Center, &w, &s).unwrap();
    // Centred at 469.75, 312.25 points, keeping its 500.5 x 300.5 size.
    assert_eq!(t, FineRect { x: 16911, y: 11241, width: 18018, height: 10818 });
}
