use window_tuner::geometry::{FineRect, Rect, COORD_LIMIT};
use window_tuner::layout::{calc_layout_rect, layout_screen_direction, Layout};

/// A rectangle given in whole points.
fn rect(x: i64, y: i64, width: i64, height: i64) -> Rect {
    Rect { x: 6 * x, y: 6 * y, width: 6 * width, height: 6 * height }
}

/// A target given in sixths of a point.
fn fine(x: i64, y: i64, width: i64, height: i64) -> FineRect {
    FineRect { x: 6 * x, y: 6 * y, width: 6 * width, height: 6 * height }
}

/// A rectangle measured six times finer.
fn as_fine(r: Rect) -> FineRect {
    FineRect { x: 6 * r.x, y: 6 * r.y, width: 6 * r.width, height: 6 * r.height }
}

/// The fields in points.
fn points(r: FineRect) -> (f64, f64, f64, f64) {
    (r.x as f64 / 36.0, r.y as f64 / 36.0, r.width as f64 / 36.0, r.height as f64 / 36.0)
}

fn visible() -> Rect {
    rect(0, 25, 1440, 875)
}

fn window() -> Rect {
    rect(100, 100, 800, 600)
}

const ALL: [Layout; 16] = [
    Layout::Left,
    Layout::Right,
    Layout::Top,
    Layout::Bottom,
    Layout::TopLeft,
    Layout::TopRight,
    Layout::BottomLeft,
    Layout::BottomRight,
    Layout::LeftThird,
    Layout::CenterThird,
    Layout::RightThird,
    Layout::LeftTwoThirds,
    Layout::CenterTwoThirds,
    Layout::RightTwoThirds,
    Layout::Maximize,
    Layout::Center,
];

fn mirrored(l: Layout) -> Layout {
    match l {
        Layout::Left => Layout::Right,
        Layout::Right => Layout::Left,
        Layout::TopLeft => Layout::TopRight,
        Layout::TopRight => Layout::TopLeft,
        Layout::BottomLeft => Layout::BottomRight,
        Layout::BottomRight => Layout::BottomLeft,
        Layout::LeftThird => Layout::RightThird,
        Layout::RightThird => Layout::LeftThird,
        Layout::LeftTwoThirds => Layout::RightTwoThirds,
        Layout::RightTwoThirds => Layout::LeftTwoThirds,
        other => other,
    }
}

#[test]
fn halves_on_a_laptop_screen() {
    let v = visible();
    let w = window();
    assert_eq!(points(calc_layout_rect(Layout::Left, &v, &w)), (0.0, 25.0, 720.0, 875.0));
    assert_eq!(points(calc_layout_rect(Layout::Right, &v, &w)), (720.0, 25.0, 720.0, 875.0));
    assert_eq!(points(calc_layout_rect(Layout::Top, &v, &w)), (0.0, 25.0, 1440.0, 437.5));
    assert_eq!(points(calc_layout_rect(Layout::Bottom, &v, &w)), (0.0, 462.5, 1440.0, 437.5));
}

#[test]
fn quarters_on_a_laptop_screen() {
    let v = visible();
    let w = window();
    assert_eq!(calc_layout_rect(Layout::TopLeft, &v, &w), fine(0, 150, 4320, 2625));
    assert_eq!(calc_layout_rect(Layout::TopRight, &v, &w), fine(4320, 150, 4320, 2625));
    assert_eq!(calc_layout_rect(Layout::BottomLeft, &v, &w), fine(0, 2775, 4320, 2625));
    assert_eq!(calc_layout_rect(Layout::BottomRight, &v, &w), fine(4320, 2775, 4320, 2625));
}

#[test]
fn thirds_on_a_laptop_screen() {
    let v = visible();
    let w = window();
    assert_eq!(calc_layout_rect(Layout::LeftThird, &v, &w), fine(0, 150, 2880, 5250));
    assert_eq!(calc_layout_rect(Layout::CenterThird, &v, &w), fine(2880, 150, 2880, 5250));
    assert_eq!(calc_layout_rect(Layout::RightThird, &v, &w), fine(5760, 150, 2880, 5250));
    assert_eq!(calc_layout_rect(Layout::LeftTwoThirds, &v, &w), fine(0, 150, 5760, 5250));
    assert_eq!(calc_layout_rect(Layout::CenterTwoThirds, &v, &w), fine(1440, 150, 5760, 5250));
    assert_eq!(calc_layout_rect(Layout::RightTwoThirds, &v, &w), fine(2880, 150, 5760, 5250));
}

#[test]
fn maximize_and_center() {
    let v = visible();
    let w = window();
    assert_eq!(calc_layout_rect(Layout::Maximize, &v, &w), as_fine(v));
    assert_eq!(points(calc_layout_rect(Layout::Center, &v, &w)), (320.0, 162.5, 800.0, 600.0));
}

#[test]
fn halves_of_an_odd_width_are_exact() {
    let v = rect(0, 0, 1001, 700);
    let w = window();
    let l = calc_layout_rect(Layout::Left, &v, &w);
    let r = calc_layout_rect(Layout::Right, &v, &w);
    assert_eq!(points(l), (0.0, 0.0, 500.5, 700.0));
    assert_eq!(points(r), (500.5, 0.0, 500.5, 700.0));
    assert_eq!(l.x + l.width, r.x);
    assert_eq!(r.x + r.width, 6 * (v.x + v.width));
}

#[test]
fn thirds_fill_the_width() {
    let v = rect(0, 0, 1000, 700);
    let w = window();
    let l3 = calc_layout_rect(Layout::LeftThird, &v, &w);
    let c3 = calc_layout_rect(Layout::CenterThird, &v, &w);
    let r3 = calc_layout_rect(Layout::RightThird, &v, &w);
    let l23 = calc_layout_rect(Layout::LeftTwoThirds, &v, &w);
    let c23 = calc_layout_rect(Layout::CenterTwoThirds, &v, &w);
    let r23 = calc_layout_rect(Layout::RightTwoThirds, &v, &w);
    assert_eq!(l3, fine(0, 0, 2000, 4200));
    assert_eq!(c3, fine(2000, 0, 2000, 4200));
    assert_eq!(r3, fine(4000, 0, 2000, 4200));
    assert_eq!(l23, fine(0, 0, 4000, 4200));
    assert_eq!(c23, fine(1000, 0, 4000, 4200));
    assert_eq!(r23, fine(2000, 0, 4000, 4200));
    assert_eq!(l3.x + l3.width, c3.x);
    assert_eq!(c3.x + c3.width, r3.x);
    assert_eq!(r3.x + r3.width, 36 * 1000);
    assert_eq!(l23.x + l23.width, r3.x);
    assert_eq!(c23.x, 36 * 1000 - (c23.x + c23.width));
}

#[test]
fn center_is_exact() {
    let v = rect(0, 0, 1000, 800);
    let w = rect(5, 5, 401, 301);
    let c = calc_layout_rect(Layout::Center, &v, &w);
    assert_eq!(points(c), (299.5, 249.5, 401.0, 301.0));
    // A window larger than the visible area sticks out equally on both sides.
    let big = rect(0, 0, 1201, 801);
    assert_eq!(points(calc_layout_rect(Layout::Center, &v, &big)), (-100.5, -0.5, 1201.0, 801.0));
}

#[test]
fn quarters_are_made_of_halves() {
    let v = rect(37, 11, 1003, 777);
    let w = window();
    let l = calc_layout_rect(Layout::Left, &v, &w);
    let r = calc_layout_rect(Layout::Right, &v, &w);
    let t = calc_layout_rect(Layout::Top, &v, &w);
    let b = calc_layout_rect(Layout::Bottom, &v, &w);
    assert_eq!(calc_layout_rect(Layout::TopLeft, &v, &w), FineRect { x: l.x, y: t.y, width: l.width, height: t.height });
    assert_eq!(calc_layout_rect(Layout::TopRight, &v, &w), FineRect { x: r.x, y: t.y, width: r.width, height: t.height });
    assert_eq!(calc_layout_rect(Layout::BottomLeft, &v, &w), FineRect { x: l.x, y: b.y, width: l.width, height: b.height });
    assert_eq!(calc_layout_rect(Layout::BottomRight, &v, &w), FineRect { x: r.x, y: b.y, width: r.width, height: b.height });
    assert_eq!(t.y + t.height, b.y);
    assert_eq!(b.y + b.height, 6 * (v.y + v.height));
}

#[test]
fn mirrored_layouts_are_reflections() {
    let v = rect(-1921, 13, 1001, 777);
    let w = rect(0, 0, 333, 222);
    for layout in ALL {
        let r = calc_layout_rect(layout, &v, &w);
        let s = calc_layout_rect(mirrored(layout), &v, &w);
        assert_eq!((s.y, s.width, s.height), (r.y, r.width, r.height), "{:?}", layout);
        assert_eq!(s.x - 6 * v.x, 6 * (v.x + v.width) - (r.x + r.width), "{:?}", layout);
    }
}

#[test]
fn every_layout_but_center_stays_inside_the_visible_area() {
    let v = rect(-300, 40, 999, 601);
    let w = rect(0, 0, 5000, 5000);
    let inside = as_fine(v);
    for layout in ALL {
        if layout == Layout::Center {
            continue;
        }
        let t = calc_layout_rect(layout, &v, &w);
        assert!(t.x >= inside.x && t.x + t.width <= inside.x + inside.width, "{:?}", layout);
        assert!(t.y >= inside.y && t.y + t.height <= inside.y + inside.height, "{:?}", layout);
        assert!(t.width >= 0 && t.height >= 0, "{:?}", layout);
    }
}

#[test]
fn directions_of_the_layouts() {
    for layout in [
        Layout::Right,
        Layout::TopRight,
        Layout::BottomRight,
        Layout::RightThird,
        Layout::RightTwoThirds,
    ] {
        assert_eq!(layout_screen_direction(layout), Some(1));
    }
    for layout in [
        Layout::Left,
        Layout::TopLeft,
        Layout::BottomLeft,
        Layout::LeftThird,
        Layout::LeftTwoThirds,
    ] {
        assert_eq!(layout_screen_direction(layout), Some(-1));
    }
    for layout in [
        Layout::Top,
        Layout::Bottom,
        Layout::CenterThird,
        Layout::CenterTwoThirds,
        Layout::Maximize,
        Layout::Center,
    ] {
        assert_eq!(layout_screen_direction(layout), None);
    }
}

#[test]
fn coordinate_limits() {
    let raw = |x: i64, y: i64, width: i64, height: i64| Rect { x, y, width, height };
    assert!(rect(0, 0, 10, 10).is_within_limits());
    assert!(raw(-COORD_LIMIT, COORD_LIMIT, 0, 0).is_within_limits());
    assert!(!raw(COORD_LIMIT + 1, 0, 0, 0).is_within_limits());
    assert!(!raw(0, 0, 0, -COORD_LIMIT - 1).is_within_limits());
}

#[test]
fn extreme_coordinates_do_not_overflow() {
    let l = COORD_LIMIT;
    let v = Rect { x: l, y: l, width: l, height: l };
    let w = Rect { x: -l, y: -l, width: -l, height: -l };
    let c = calc_layout_rect(Layout::Center, &v, &w);
    assert_eq!(c.x, 12 * COORD_LIMIT);
    let r = calc_layout_rect(Layout::RightThird, &v, &w);
    assert_eq!(r.x, 10 * COORD_LIMIT);
}

#[test]
fn fractional_inputs_are_kept_exactly() {
    // A window of 500.5 x 300.5 points in a visible area 1000.5 points wide
    // that starts at 0.5: centring keeps the window's size exactly.
    let v = Rect { x: 3, y: 0, width: 6003, height: 4800 };
    let w = Rect { x: 0, y: 0, width: 3003, height: 1803 };
    let c = calc_layout_rect(Layout::Center, &v, &w);
    assert_eq!(points(c), (250.5, 249.75, 500.5, 300.5));
    // Halves of 1000.5 points are 500.25 each.
    let l = calc_layout_rect(Layout::Left, &v, &w);
    assert_eq!(points(l), (0.5, 0.0, 500.25, 800.0));
    // A third of 1000.5 points.
    let t = calc_layout_rect(Layout::RightThird, &v, &w);
    assert_eq!(points(t), (667.5, 0.0, 333.5, 800.0));
}
