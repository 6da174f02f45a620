//! The decisions around moving the focused window: what is known of it, the
//! steps that move it, and where a layout request sends it.

use vstd::prelude::*;

use crate::geometry::{FineRect, Quad, Rect, FINE_UNITS_PER_POINT, UNITS_PER_POINT};
use crate::layout::{calc_layout_rect, layout_box, layout_screen_direction, screen_direction, Layout};
use crate::screens::{find_screen_index, find_target_screen_index, screen_index};

verus! {

/// The focused window and the screen that holds it.
#[derive(Clone, Copy, Debug, PartialEq, Eq, Structural)]
pub struct WindowInfo {
    pub window_rect: Rect,
    pub screen_visible_rect: Rect,
    pub screen_frame: Rect,
}

/// A window reading that failed counts as zero.
pub open spec fn pair_or_zero(p: Option<(i64, i64)>) -> (i64, i64) {
    match p {
        Some(v) => v,
        None => (0, 0),
    }
}

/// The window rectangle made of a position and a size reading.
pub open spec fn window_from_readings(position: Option<(i64, i64)>, size: Option<(i64, i64)>) -> Rect {
    Rect {
        x: pair_or_zero(position).0,
        y: pair_or_zero(position).1,
        width: pair_or_zero(size).0,
        height: pair_or_zero(size).1,
    }
}

/// What is known of the focused window, given its position and size as read
/// in sixths of a point (`None` where the reading failed, which counts as
/// zero) and the screens.
pub open spec fn window_info_of(
    position: Option<(i64, i64)>,
    size: Option<(i64, i64)>,
    screens: Seq<(Rect, Rect)>,
) -> WindowInfo {
    let w = window_from_readings(position, size);
    let i = screen_index(screens, w.quad(), 1);
    WindowInfo { window_rect: w, screen_visible_rect: screens[i].0, screen_frame: screens[i].1 }
}

/// The focused window's rectangle together with the visible area and frame of
/// the screen that holds it.
pub fn focused_window_info(
    position: Option<(i64, i64)>,
    size: Option<(i64, i64)>,
    screens: &[(Rect, Rect)],
) -> (info: WindowInfo)
    requires
        screens@.len() > 0,
    ensures
        info == window_info_of(position, size, screens@),
        (info.screen_visible_rect, info.screen_frame) == screens@[screen_index(
            screens@,
            info.window_rect.quad(),
            1,
        )],
        position matches Some(p) ==> info.window_rect.x == p.0 && info.window_rect.y == p.1,
        position is None ==> info.window_rect.x == 0 && info.window_rect.y == 0,
        size matches Some(s) ==> info.window_rect.width == s.0 && info.window_rect.height == s.1,
        size is None ==> info.window_rect.width == 0 && info.window_rect.height == 0,
{
    let (x, y) = match position {
        Some(p) => p,
        None => (0, 0),
    };
    let (width, height) = match size {
        Some(s) => s,
        None => (0, 0),
    };
    let window_rect = Rect { x, y, width, height };
    let idx = find_screen_index(screens, &window_rect);
    let (visible, frame) = screens[idx];
    proof {
        lemma_window_info_parts(position, size, screens@);
    }
    WindowInfo { window_rect, screen_visible_rect: visible, screen_frame: frame }
}

/// Law: the window is reported as read (a failed reading counts as zero), and
/// the visible area and frame reported are the two halves of one screen's
/// pair, the screen that holds the window: the visible area its first part,
/// the frame its second.
pub proof fn lemma_window_info_parts(
    position: Option<(i64, i64)>,
    size: Option<(i64, i64)>,
    screens: Seq<(Rect, Rect)>,
)
    requires
        screens.len() > 0,
    ensures
        ({
            let info = window_info_of(position, size, screens);
            let i = screen_index(screens, info.window_rect.quad(), 1);
            &&& 0 <= i < screens.len()
            &&& info.screen_visible_rect == screens[i].0
            &&& info.screen_frame == screens[i].1
            &&& position matches Some(p) ==> info.window_rect.x == p.0 && info.window_rect.y
                == p.1
            &&& position is None ==> info.window_rect.x == 0 && info.window_rect.y == 0
            &&& size matches Some(s) ==> info.window_rect.width == s.0
                && info.window_rect.height == s.1
            &&& size is None ==> info.window_rect.width == 0 && info.window_rect.height == 0
        }),
{
    let w = window_from_readings(position, size);
    crate::screens::lemma_screen_index_in_range(screens, w.quad(), 1);
}

/// One accessibility call made while moving a window; positions and sizes
/// are in thirty-sixths of a point.
#[derive(Clone, Copy, Debug, PartialEq, Eq, Structural)]
pub enum BoundsStep {
    SetSize { width: i64, height: i64 },
    SetPosition { x: i64, y: i64 },
    Pause { millis: u64 },
}

/// Side, in points, of the small square a window shrinks to before it
/// crosses screens.
pub const CROSS_SCREEN_SIZE: i64 = 300;

/// Milliseconds given to the system to register a move to another screen.
pub const CROSS_SCREEN_PAUSE_MILLIS: u64 = 50;

/// Side, in points, of the square probed at the window's current position
/// to find its screen.
pub const POSITION_PROBE_SIZE: i64 = 10;

/// The probe square at the window's current position.
pub open spec fn position_probe(current_position: Option<(i64, i64)>) -> Rect {
    Rect {
        x: pair_or_zero(current_position).0,
        y: pair_or_zero(current_position).1,
        width: (6 * POSITION_PROBE_SIZE) as i64,
        height: (6 * POSITION_PROBE_SIZE) as i64,
    }
}

/// The target lies on another screen than the window's current position.
pub open spec fn crosses_screens(
    current_position: Option<(i64, i64)>,
    rect: FineRect,
    screens: Seq<(Rect, Rect)>,
) -> bool {
    screen_index(screens, position_probe(current_position).quad(), 1) != screen_index(
        screens,
        rect.quad(),
        6,
    )
}

/// The calls that move the window to `rect`. Across screens: shrink, move
/// (nudged one point right, then exactly), pause, resize, move again. On one
/// screen: nudged move, resize, move, resize again.
pub open spec fn bounds_plan(
    current_position: Option<(i64, i64)>,
    rect: FineRect,
    screens: Seq<(Rect, Rect)>,
) -> Seq<BoundsStep> {
    let nudged = BoundsStep::SetPosition { x: (rect.x + 36) as i64, y: rect.y };
    let place = BoundsStep::SetPosition { x: rect.x, y: rect.y };
    let resize = BoundsStep::SetSize { width: rect.width, height: rect.height };
    if crosses_screens(current_position, rect, screens) {
        seq![
            BoundsStep::SetSize {
                width: (36 * CROSS_SCREEN_SIZE) as i64,
                height: (36 * CROSS_SCREEN_SIZE) as i64,
            },
            nudged,
            place,
            BoundsStep::Pause { millis: CROSS_SCREEN_PAUSE_MILLIS },
            resize,
            place,
        ]
    } else {
        seq![nudged, resize, place, resize]
    }
}

/// The calls that move the focused window to `rect` (in thirty-sixths of a
/// point), given its current position in sixths of a point as read (`None`
/// where the reading failed) and the screens.
pub fn bounds_steps(
    current_position: Option<(i64, i64)>,
    rect: &FineRect,
    screens: &[(Rect, Rect)],
) -> (steps: Vec<BoundsStep>)
    requires
        rect.x <= i64::MAX - 36,
    ensures
        steps@ == bounds_plan(current_position, *rect, screens@),
{
    let (cx, cy) = match current_position {
        Some(p) => p,
        None => (0, 0),
    };
    let probe = Rect {
        x: cx,
        y: cy,
        width: UNITS_PER_POINT * POSITION_PROBE_SIZE,
        height: UNITS_PER_POINT * POSITION_PROBE_SIZE,
    };
    let current_idx = find_screen_index(screens, &probe);
    let target_idx = find_target_screen_index(screens, rect);
    let nudged = BoundsStep::SetPosition { x: rect.x + FINE_UNITS_PER_POINT, y: rect.y };
    let place = BoundsStep::SetPosition { x: rect.x, y: rect.y };
    let resize = BoundsStep::SetSize { width: rect.width, height: rect.height };
    let shrink = BoundsStep::SetSize {
        width: FINE_UNITS_PER_POINT * CROSS_SCREEN_SIZE,
        height: FINE_UNITS_PER_POINT * CROSS_SCREEN_SIZE,
    };
    let steps = if current_idx != target_idx {
        vec![shrink, nudged, place, BoundsStep::Pause { millis: CROSS_SCREEN_PAUSE_MILLIS }, resize, place]
    } else {
        vec![nudged, resize, place, resize]
    };
    assert(steps@ =~= bounds_plan(current_position, *rect, screens@));
    steps
}

/// How far a window may be from a target (in points, per field) and still
/// count as being there.
pub const AT_TARGET_TOLERANCE: i64 = 45;

/// `a` and `b`, in thirty-sixths of a point, differ by less than the
/// tolerance.
pub open spec fn near(a: int, b: int) -> bool {
    -36 * AT_TARGET_TOLERANCE < a - b < 36 * AT_TARGET_TOLERANCE
}

/// The window `w` already sits at target `t` (six times finer) for `layout`: for the full-height left/right layouts only x and
/// width count, for the others all four fields.
pub open spec fn at_target(layout: Layout, w: Rect, t: Quad) -> bool {
    let ws = w.as_fine();
    match layout {
        Layout::Left | Layout::Right | Layout::LeftThird | Layout::RightThird => {
            near(ws.0, t.0) && near(ws.2, t.2)
        },
        _ => {
            &&& near(ws.0, t.0)
            &&& near(ws.1, t.1)
            &&& near(ws.2, t.2)
            &&& near(ws.3, t.3)
        },
    }
}

/// `a` (a `Rect` unit) and `b` (six times finer) differ by less than the
/// tolerance.
fn near_exec(a: i64, b: i64) -> (r: bool)
    ensures
        r == near(6 * a, b as int),
{
    let d: i128 = 6 * (a as i128) - b as i128;
    let tolerance: i128 = 36 * (AT_TARGET_TOLERANCE as i128);
    -tolerance < d && d < tolerance
}

/// Whether `window` already sits at `target` (six times finer) for `layout`.
pub fn already_at_target(layout: Layout, window: &Rect, target: &FineRect) -> (r: bool)
    ensures
        r == at_target(layout, *window, target.quad()),
        r <==> {
            &&& -1620 < 6 * window.x - target.x < 1620
            &&& -1620 < 6 * window.width - target.width < 1620
            &&& !(layout == Layout::Left || layout == Layout::Right || layout == Layout::LeftThird
                || layout == Layout::RightThird) ==> {
                &&& -1620 < 6 * window.y - target.y < 1620
                &&& -1620 < 6 * window.height - target.height < 1620
            }
        },
{
    match layout {
        Layout::Left | Layout::Right | Layout::LeftThird | Layout::RightThird => {
            near_exec(window.x, target.x) && near_exec(window.width, target.width)
        },
        _ => {
            near_exec(window.x, target.x) && near_exec(window.y, target.y) && near_exec(
                window.width,
                target.width,
            ) && near_exec(window.height, target.height)
        },
    }
}

/// Every visible area of `screens` fits the coordinate limits.
pub open spec fn visible_areas_fit(screens: Seq<(Rect, Rect)>) -> bool {
    forall|i: int| 0 <= i < screens.len() ==> (#[trigger] screens[i]).0.fits()
}

/// Where a request for `layout` sends window `w`: nowhere without screens;
/// otherwise the layout's target on the window's screen, unless the window
/// is already there and the layout has a direction with a screen on that
/// side, in which case the same layout on that neighbouring screen.
pub open spec fn resize_plan(layout: Layout, w: Rect, screens: Seq<(Rect, Rect)>) -> Option<Quad> {
    if screens.len() == 0 {
        None
    } else {
        let i = screen_index(screens, w.quad(), 1);
        let t = layout_box(layout, screens[i].0, w);
        match screen_direction(layout) {
            Some(d) => {
                let next = i + d;
                if at_target(layout, w, t) && 0 <= next < screens.len() {
                    Some(layout_box(layout, screens[next].0, w))
                } else {
                    Some(t)
                }
            },
            None => Some(t),
        }
    }
}

/// The rectangle, in thirty-sixths of a point, the focused window `window`
/// is to be moved to when `layout` is requested, or `None` when there is no
/// screen.
pub fn resize_target(layout: Layout, window: &Rect, screens: &[(Rect, Rect)]) -> (r: Option<FineRect>)
    requires
        window.fits(),
        visible_areas_fit(screens@),
    ensures
        r is None <==> resize_plan(layout, *window, screens@) is None,
        r matches Some(t) ==> t.quad() == resize_plan(layout, *window, screens@)->0,
{
    if screens.len() == 0 {
        return None;
    }
    let idx = find_screen_index(screens, window);
    proof {
        assert((screens@[idx as int]).0.fits());
    }
    let target = calc_layout_rect(layout, &screens[idx].0, window);
    if already_at_target(layout, window, &target) {
        if let Some(direction) = layout_screen_direction(layout) {
            // The direction is one screen to the right (1) or to the left (-1).
            let neighbour: Option<usize> = if direction > 0 {
                if idx + 1 < screens.len() {
                    Some(idx + 1)
                } else {
                    None
                }
            } else if idx >= 1 {
                Some(idx - 1)
            } else {
                None
            };
            if let Some(n) = neighbour {
                proof {
                    assert((screens@[n as int]).0.fits());
                }
                return Some(calc_layout_rect(layout, &screens[n].0, window));
            }
        }
    }
    Some(target)
}

/// The window `w` after the calls `steps`, when each call takes effect as asked.
pub open spec fn apply_steps(w: FineRect, steps: Seq<BoundsStep>) -> FineRect
    decreases steps.len(),
{
    if steps.len() == 0 {
        w
    } else {
        let next = match steps[0] {
            BoundsStep::SetSize { width, height } => FineRect { width, height, ..w },
            BoundsStep::SetPosition { x, y } => FineRect { x, y, ..w },
            BoundsStep::Pause { .. } => w,
        };
        apply_steps(next, steps.drop_first())
    }
}

/// Law: whatever the window's starting place, the calls made to move it to
/// `rect` leave it exactly at `rect` when each takes effect as asked.
pub proof fn lemma_bounds_plan_lands_on_target(
    start: FineRect,
    current_position: Option<(i64, i64)>,
    rect: FineRect,
    screens: Seq<(Rect, Rect)>,
)
    requires
        rect.x <= i64::MAX - 36,
    ensures
        apply_steps(start, bounds_plan(current_position, rect, screens)) == rect,
{
    let steps = bounds_plan(current_position, rect, screens);
    reveal_with_fuel(apply_steps, 7);
    if crosses_screens(current_position, rect, screens) {
        assert(steps.drop_first() =~= steps.subrange(1, 6));
        assert(steps.subrange(1, 6).drop_first() =~= steps.subrange(2, 6));
        assert(steps.subrange(2, 6).drop_first() =~= steps.subrange(3, 6));
        assert(steps.subrange(3, 6).drop_first() =~= steps.subrange(4, 6));
        assert(steps.subrange(4, 6).drop_first() =~= steps.subrange(5, 6));
        assert(steps.subrange(5, 6).drop_first() =~= Seq::<BoundsStep>::empty());
    } else {
        assert(steps.drop_first() =~= steps.subrange(1, 4));
        assert(steps.subrange(1, 4).drop_first() =~= steps.subrange(2, 4));
        assert(steps.subrange(2, 4).drop_first() =~= steps.subrange(3, 4));
        assert(steps.subrange(3, 4).drop_first() =~= Seq::<BoundsStep>::empty());
    }
}

/// Law: a window that already sits exactly at a layout's target on its screen
/// stays where it is when the layout is asked for again, unless the layout
/// has a direction and there is a screen on that side, in which case it goes
/// to the same layout on that screen.
pub proof fn lemma_repeat_layout(layout: Layout, w: Rect, screens: Seq<(Rect, Rect)>)
    requires
        screens.len() > 0,
        ({
            let i = screen_index(screens, w.quad(), 1);
            layout_box(layout, screens[i].0, w) == w.as_fine()
        }),
    ensures
        ({
            let i = screen_index(screens, w.quad(), 1);
            match screen_direction(layout) {
                Some(d) => if 0 <= i + d < screens.len() {
                    resize_plan(layout, w, screens) == Some(
                        layout_box(layout, screens[i + d].0, w),
                    )
                } else {
                    resize_plan(layout, w, screens) == Some(w.as_fine())
                },
                None => resize_plan(layout, w, screens) == Some(w.as_fine()),
            }
        }),
{
}

/// Law: a window (in sixths of a point) sits at a target (in thirty-sixths)
/// exactly when its x and width are each less than 45 points from the
/// target's and, unless the layout is one of the full-height left/right
/// halves and thirds, its y and height are too. Quarters, two-thirds, top,
/// bottom, maximize and center all look at the height.
pub proof fn lemma_at_target_fields(layout: Layout, w: Rect, t: Quad)
    ensures
        at_target(layout, w, t) <==> {
            &&& -1620 < 6 * w.x - t.0 < 1620
            &&& -1620 < 6 * w.width - t.2 < 1620
            &&& !(layout == Layout::Left || layout == Layout::Right || layout == Layout::LeftThird
                || layout == Layout::RightThird) ==> {
                &&& -1620 < 6 * w.y - t.1 < 1620
                &&& -1620 < 6 * w.height - t.3 < 1620
            }
        },
{
}

/// Law: a window whose height is 45 points or more from the target's, for a
/// layout that is not a full-height left/right half or third, is not there
/// yet: the request sends it to the layout's target on its own screen.
pub proof fn lemma_height_mismatch_stays_on_screen(
    layout: Layout,
    w: Rect,
    screens: Seq<(Rect, Rect)>,
)
    requires
        screens.len() > 0,
        !(layout == Layout::Left || layout == Layout::Right || layout == Layout::LeftThird
            || layout == Layout::RightThird),
        ({
            let i = screen_index(screens, w.quad(), 1);
            let t = layout_box(layout, screens[i].0, w);
            !(-1620 < 6 * w.height - t.3 < 1620)
        }),
    ensures
        ({
            let i = screen_index(screens, w.quad(), 1);
            resize_plan(layout, w, screens) == Some(layout_box(layout, screens[i].0, w))
        }),
{
    let i = screen_index(screens, w.quad(), 1);
    lemma_at_target_fields(layout, w, layout_box(layout, screens[i].0, w));
}

} // verus!
