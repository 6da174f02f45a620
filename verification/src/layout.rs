//! The window layouts and the rectangle each one asks for.

use vstd::prelude::*;

use crate::geometry::{FineRect, Quad, Rect};

verus! {

/// A placement of a window within a screen's visible area.
#[derive(Clone, Copy, Debug, PartialEq, Eq, Structural)]
pub enum Layout {
    Left,
    Right,
    Top,
    Bottom,
    TopLeft,
    TopRight,
    BottomLeft,
    BottomRight,
    LeftThird,
    CenterThird,
    RightThird,
    LeftTwoThirds,
    CenterTwoThirds,
    RightTwoThirds,
    Maximize,
    Center,
}

/// The target `(x, y, width, height)` of `layout` in the visible area `v`
/// for a window currently shaped like `cur`, in the six times finer units of
/// a `FineRect`: exactly six times the halves, thirds and sixths of `v` that
/// the layout asks for.
pub open spec fn layout_box(layout: Layout, v: Rect, cur: Rect) -> Quad {
    let (vx, vy, vw, vh) = (v.x as int, v.y as int, v.width as int, v.height as int);
    match layout {
        Layout::Left => (6 * vx, 6 * vy, 3 * vw, 6 * vh),
        Layout::Right => (6 * vx + 3 * vw, 6 * vy, 3 * vw, 6 * vh),
        Layout::Top => (6 * vx, 6 * vy, 6 * vw, 3 * vh),
        Layout::Bottom => (6 * vx, 6 * vy + 3 * vh, 6 * vw, 3 * vh),
        Layout::TopLeft => (6 * vx, 6 * vy, 3 * vw, 3 * vh),
        Layout::TopRight => (6 * vx + 3 * vw, 6 * vy, 3 * vw, 3 * vh),
        Layout::BottomLeft => (6 * vx, 6 * vy + 3 * vh, 3 * vw, 3 * vh),
        Layout::BottomRight => (6 * vx + 3 * vw, 6 * vy + 3 * vh, 3 * vw, 3 * vh),
        Layout::LeftThird => (6 * vx, 6 * vy, 2 * vw, 6 * vh),
        Layout::CenterThird => (6 * vx + 2 * vw, 6 * vy, 2 * vw, 6 * vh),
        Layout::RightThird => (6 * vx + 4 * vw, 6 * vy, 2 * vw, 6 * vh),
        Layout::LeftTwoThirds => (6 * vx, 6 * vy, 4 * vw, 6 * vh),
        Layout::CenterTwoThirds => (6 * vx + vw, 6 * vy, 4 * vw, 6 * vh),
        Layout::RightTwoThirds => (6 * vx + 2 * vw, 6 * vy, 4 * vw, 6 * vh),
        Layout::Maximize => (6 * vx, 6 * vy, 6 * vw, 6 * vh),
        Layout::Center => (
            6 * vx + 3 * (vw - cur.width),
            6 * vy + 3 * (vh - cur.height),
            6 * cur.width,
            6 * cur.height,
        ),
    }
}

/// The target rectangle, in thirty-sixths of a point, for `layout` in the visible
/// area `v`; `current_window` only matters for `Center`, which keeps the
/// window's size.
pub fn calc_layout_rect(layout: Layout, v: &Rect, current_window: &Rect) -> (r: FineRect)
    requires
        v.fits(),
        current_window.fits(),
    ensures
        r.quad() == layout_box(layout, *v, *current_window),
{
    let (vx, vy, vw, vh) = (6 * v.x, 6 * v.y, v.width, v.height);
    let (x, y, w, h) = match layout {
        Layout::Left => (vx, vy, 3 * vw, 6 * vh),
        Layout::Right => (vx + 3 * vw, vy, 3 * vw, 6 * vh),
        Layout::Top => (vx, vy, 6 * vw, 3 * vh),
        Layout::Bottom => (vx, vy + 3 * vh, 6 * vw, 3 * vh),
        Layout::TopLeft => (vx, vy, 3 * vw, 3 * vh),
        Layout::TopRight => (vx + 3 * vw, vy, 3 * vw, 3 * vh),
        Layout::BottomLeft => (vx, vy + 3 * vh, 3 * vw, 3 * vh),
        Layout::BottomRight => (vx + 3 * vw, vy + 3 * vh, 3 * vw, 3 * vh),
        Layout::LeftThird => (vx, vy, 2 * vw, 6 * vh),
        Layout::CenterThird => (vx + 2 * vw, vy, 2 * vw, 6 * vh),
        Layout::RightThird => (vx + 4 * vw, vy, 2 * vw, 6 * vh),
        Layout::LeftTwoThirds => (vx, vy, 4 * vw, 6 * vh),
        Layout::CenterTwoThirds => (vx + vw, vy, 4 * vw, 6 * vh),
        Layout::RightTwoThirds => (vx + 2 * vw, vy, 4 * vw, 6 * vh),
        Layout::Maximize => (vx, vy, 6 * vw, 6 * vh),
        Layout::Center => (
            vx + 3 * (vw - current_window.width),
            vy + 3 * (vh - current_window.height),
            6 * current_window.width,
            6 * current_window.height,
        ),
    };
    FineRect { x, y, width: w, height: h }
}

/// The screen step `layout` takes when it is asked for again while the window
/// already sits at its target: layouts on the right go to the next screen
/// (`1`), those on the left to the previous one (`-1`), the rest stay.
pub open spec fn screen_direction(layout: Layout) -> Option<i32> {
    match layout {
        Layout::Right | Layout::TopRight | Layout::BottomRight | Layout::RightThird
        | Layout::RightTwoThirds => Some(1i32),
        Layout::Left | Layout::TopLeft | Layout::BottomLeft | Layout::LeftThird
        | Layout::LeftTwoThirds => Some(-1i32),
        _ => None,
    }
}

/// The direction in which a repeated `layout` cycles through the screens.
pub fn layout_screen_direction(layout: Layout) -> (r: Option<i32>)
    ensures
        r == screen_direction(layout),
{
    match layout {
        Layout::Right | Layout::TopRight | Layout::BottomRight | Layout::RightThird
        | Layout::RightTwoThirds => Some(1),
        Layout::Left | Layout::TopLeft | Layout::BottomLeft | Layout::LeftThird
        | Layout::LeftTwoThirds => Some(-1),
        _ => None,
    }
}

/// The layout in the mirror position across the vertical centre line:
/// left and right swap, the others stay.
pub open spec fn mirrored(layout: Layout) -> Layout {
    match layout {
        Layout::Left => Layout::Right,
        Layout::Right => Layout::Left,
        Layout::TopLeft => Layout::TopRight,
        Layout::TopRight => Layout::TopLeft,
        Layout::BottomLeft => Layout::BottomRight,
        Layout::BottomRight => Layout::BottomLeft,
        Layout::LeftThird => Layout::RightThird,
        Layout::RightThird => Layout::LeftThird,
        Layout::LeftTwoThirds => Layout::RightTwoThirds,
        Layout::RightTwoThirds => Layout::LeftTwoThirds,
        _ => layout,
    }
}

/// Law: every layout but `Center` places the window inside the visible area
/// (for a visible area of non-negative size), with a non-negative size.
pub proof fn lemma_layout_within_visible(layout: Layout, v: Rect, cur: Rect)
    requires
        layout != Layout::Center,
        v.width >= 0,
        v.height >= 0,
    ensures
        ({
            let b = layout_box(layout, v, cur);
            &&& 6 * v.x <= b.0
            &&& b.0 + b.2 <= 6 * v.right()
            &&& 6 * v.y <= b.1
            &&& b.1 + b.3 <= 6 * v.bottom()
            &&& b.2 >= 0
            &&& b.3 >= 0
        }),
{
}

/// Law: the left and right halves are each exactly half the visible width,
/// meet in the middle and fill it; the top and bottom halves likewise in
/// height. Each quarter is the overlap of the two halves it lies in.
pub proof fn lemma_halves_and_quarters(v: Rect, cur: Rect)
    ensures
        ({
            let l = layout_box(Layout::Left, v, cur);
            let r = layout_box(Layout::Right, v, cur);
            let t = layout_box(Layout::Top, v, cur);
            let b = layout_box(Layout::Bottom, v, cur);
            &&& l.0 == 6 * v.x && l.0 + l.2 == r.0 && r.0 + r.2 == 6 * v.right()
            &&& 2 * l.2 == 6 * v.width && l.2 == r.2
            &&& l.1 == 6 * v.y && r.1 == 6 * v.y && l.3 == 6 * v.height && r.3 == 6 * v.height
            &&& t.1 == 6 * v.y && t.1 + t.3 == b.1 && b.1 + b.3 == 6 * v.bottom()
            &&& 2 * t.3 == 6 * v.height && t.3 == b.3
            &&& t.0 == 6 * v.x && b.0 == 6 * v.x && t.2 == 6 * v.width && b.2 == 6 * v.width
            &&& layout_box(Layout::TopLeft, v, cur) == (l.0, t.1, l.2, t.3)
            &&& layout_box(Layout::TopRight, v, cur) == (r.0, t.1, r.2, t.3)
            &&& layout_box(Layout::BottomLeft, v, cur) == (l.0, b.1, l.2, b.3)
            &&& layout_box(Layout::BottomRight, v, cur) == (r.0, b.1, r.2, b.3)
        }),
{
}

/// Law: the three thirds are each exactly a third of the visible width and
/// fill it side by side; the two-thirds layouts are twice as wide, the left
/// and right ones start where the left and centre thirds do, and the centre
/// one leaves a sixth on either side. All of them span the full height.
pub proof fn lemma_thirds(v: Rect, cur: Rect)
    ensures
        ({
            let l3 = layout_box(Layout::LeftThird, v, cur);
            let c3 = layout_box(Layout::CenterThird, v, cur);
            let r3 = layout_box(Layout::RightThird, v, cur);
            let l23 = layout_box(Layout::LeftTwoThirds, v, cur);
            let c23 = layout_box(Layout::CenterTwoThirds, v, cur);
            let r23 = layout_box(Layout::RightTwoThirds, v, cur);
            &&& l3.0 == 6 * v.x && c3.0 == l3.0 + l3.2 && r3.0 == c3.0 + c3.2
            &&& r3.0 + r3.2 == 6 * v.right()
            &&& 3 * l3.2 == 6 * v.width && l3.2 == c3.2 && c3.2 == r3.2
            &&& l23.0 == 6 * v.x && r23.0 == c3.0 && r23.0 + r23.2 == 6 * v.right()
            &&& 3 * l23.2 == 2 * (6 * v.width) && l23.2 == c23.2 && c23.2 == r23.2
            &&& 6 * (c23.0 - 6 * v.x) == 6 * v.width
            &&& c23.0 - 6 * v.x == 6 * v.right() - (c23.0 + c23.2)
            &&& l3.1 == 6 * v.y && c3.1 == 6 * v.y && r3.1 == 6 * v.y
            &&& l23.1 == 6 * v.y && c23.1 == 6 * v.y && r23.1 == 6 * v.y
            &&& l3.3 == 6 * v.height && c3.3 == 6 * v.height && r3.3 == 6 * v.height
            &&& l23.3 == 6 * v.height && c23.3 == 6 * v.height && r23.3 == 6 * v.height
        }),
{
}

/// Law: the mirrored layout is the layout reflected across the vertical
/// centre line of the visible area: same y and size, and its left offset is
/// the original's right margin.
pub proof fn lemma_mirror(layout: Layout, v: Rect, cur: Rect)
    ensures
        ({
            let r = layout_box(layout, v, cur);
            let s = layout_box(mirrored(layout), v, cur);
            &&& s.1 == r.1 && s.2 == r.2 && s.3 == r.3
            &&& s.0 - 6 * v.x == 6 * v.right() - (r.0 + r.2)
        }),
{
}

/// Law: `Center` keeps the window's size and centres it exactly: its margins
/// on opposite sides are equal. `Maximize` fills the visible area.
pub proof fn lemma_center_and_maximize(v: Rect, cur: Rect)
    ensures
        ({
            let c = layout_box(Layout::Center, v, cur);
            &&& c.2 == 6 * cur.width && c.3 == 6 * cur.height
            &&& c.0 - 6 * v.x == 6 * v.right() - (c.0 + c.2)
            &&& c.1 - 6 * v.y == 6 * v.bottom() - (c.1 + c.3)
        }),
        layout_box(Layout::Maximize, v, cur) == v.as_fine(),
{
}

/// Law: a layout cycles towards the side of the screen it hugs. On a visible
/// area of positive width, the direction is `1` (next screen, to the right)
/// exactly when the target reaches the right edge but not the left one,
/// `-1` exactly when it reaches the left edge but not the right one, and
/// there is none when it reaches both edges or neither.
pub proof fn lemma_direction_follows_edges(layout: Layout, v: Rect, cur: Rect)
    requires
        v.width > 0,
    ensures
        ({
            let b = layout_box(layout, v, cur);
            let at_left = b.0 == 6 * v.x;
            let at_right = b.0 + b.2 == 6 * v.right();
            &&& screen_direction(layout) == Some(1i32) <==> at_right && !at_left
            &&& screen_direction(layout) == Some(-1i32) <==> at_left && !at_right
            &&& screen_direction(layout) is None <==> (at_left == at_right)
        }),
{
}

} // verus!
