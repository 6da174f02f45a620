//! Screens as `(visible area, full frame)` pairs in accessibility
//! coordinates: which screen holds a window, and the left-to-right order of
//! the screens.

use vstd::prelude::*;

use crate::geometry::{FineRect, Quad, Rect};

verus! {

pub open spec fn min_int(a: int, b: int) -> int {
    if a <= b { a } else { b }
}

pub open spec fn max_int(a: int, b: int) -> int {
    if a >= b { a } else { b }
}

// A window is given as its `(x, y, width, height)` measured in `1/scale` of
// a `Rect` unit (`scale` 1 for a `Rect`, 6 for a `FineRect`); frames are
// `Rect`s, compared at the window's scale, so that every comparison is exact.

/// Horizontal extent shared by `w` and `f` (not positive when they do not meet).
pub open spec fn x_overlap(w: Quad, f: Rect, scale: int) -> int {
    min_int(w.0 + w.2, scale * f.right()) - max_int(w.0, scale * f.x)
}

/// Vertical extent shared by `w` and `f` (not positive when they do not meet).
pub open spec fn y_overlap(w: Quad, f: Rect, scale: int) -> int {
    min_int(w.1 + w.3, scale * f.bottom()) - max_int(w.1, scale * f.y)
}

/// Area shared by `w` and `f`; zero when they do not overlap in both axes.
pub open spec fn overlap_area(w: Quad, f: Rect, scale: int) -> int {
    if x_overlap(w, f, scale) > 0 && y_overlap(w, f, scale) > 0 {
        x_overlap(w, f, scale) * y_overlap(w, f, scale)
    } else {
        0
    }
}

/// The centre of `w` lies in `f`, edges included (compared at twice the
/// scale, so that the half point is exact).
pub open spec fn center_inside(w: Quad, f: Rect, scale: int) -> bool {
    &&& 2 * (scale * f.x) <= 2 * w.0 + w.2 <= 2 * (scale * f.right())
    &&& 2 * (scale * f.y) <= 2 * w.1 + w.3 <= 2 * (scale * f.bottom())
}

/// Some screen frame overlaps `w`.
pub open spec fn has_overlap(screens: Seq<(Rect, Rect)>, w: Quad, scale: int) -> bool {
    exists|i: int| 0 <= i < screens.len() && #[trigger] overlap_area(w, screens[i].1, scale) > 0
}

/// Screen `i` has the largest overlap with `w`, and is the first one with it.
pub open spec fn is_best_overlap(screens: Seq<(Rect, Rect)>, w: Quad, scale: int, i: int) -> bool {
    &&& 0 <= i < screens.len()
    &&& overlap_area(w, screens[i].1, scale) > 0
    &&& forall|j: int|
        0 <= j < screens.len() ==> #[trigger] overlap_area(w, screens[j].1, scale)
            <= overlap_area(w, screens[i].1, scale)
    &&& forall|j: int|
        0 <= j < i ==> #[trigger] overlap_area(w, screens[j].1, scale) < overlap_area(
            w,
            screens[i].1,
            scale,
        )
}

/// Some screen frame holds the centre of `w`.
pub open spec fn has_center_hit(screens: Seq<(Rect, Rect)>, w: Quad, scale: int) -> bool {
    exists|i: int| 0 <= i < screens.len() && #[trigger] center_inside(w, screens[i].1, scale)
}

/// Screen `i` is the first whose frame holds the centre of `w`.
pub open spec fn is_first_center_hit(
    screens: Seq<(Rect, Rect)>,
    w: Quad,
    scale: int,
    i: int,
) -> bool {
    &&& 0 <= i < screens.len()
    &&& center_inside(w, screens[i].1, scale)
    &&& forall|j: int| 0 <= j < i ==> !#[trigger] center_inside(w, screens[j].1, scale)
}

/// The screen that holds `w`: the first with the largest overlap; failing
/// any overlap, the first that holds its centre; failing that, screen 0.
pub open spec fn screen_index(screens: Seq<(Rect, Rect)>, w: Quad, scale: int) -> int {
    if has_overlap(screens, w, scale) {
        choose|i: int| is_best_overlap(screens, w, scale, i)
    } else if has_center_hit(screens, w, scale) {
        choose|i: int| is_first_center_hit(screens, w, scale, i)
    } else {
        0
    }
}

/// At most one screen is the best overlap, and at most one the first centre hit.
pub proof fn lemma_screen_choice_unique(
    screens: Seq<(Rect, Rect)>,
    w: Quad,
    scale: int,
    i: int,
    j: int,
)
    ensures
        is_best_overlap(screens, w, scale, i) && is_best_overlap(screens, w, scale, j) ==> i == j,
        is_first_center_hit(screens, w, scale, i) && is_first_center_hit(screens, w, scale, j)
            ==> i == j,
{
    if is_best_overlap(screens, w, scale, i) && is_best_overlap(screens, w, scale, j) && i != j {
        if i < j {
            assert(overlap_area(w, screens[i].1, scale) < overlap_area(w, screens[j].1, scale));
        } else {
            assert(overlap_area(w, screens[j].1, scale) < overlap_area(w, screens[i].1, scale));
        }
    }
    if is_first_center_hit(screens, w, scale, i) && is_first_center_hit(screens, w, scale, j) && i
        != j {
        if i < j {
            assert(!center_inside(w, screens[i].1, scale));
        } else {
            assert(!center_inside(w, screens[j].1, scale));
        }
    }
}

/// `v` times `scale`.
fn scaled(v: i128, scale: i64) -> (r: i128)
    requires
        1 <= scale <= 6,
        -0x2_0000_0000_0000_0000 <= v <= 0x2_0000_0000_0000_0000,
    ensures
        r == scale * v,
        -0xc_0000_0000_0000_0000 <= r <= 0xc_0000_0000_0000_0000,
{
    assert(-0xc_0000_0000_0000_0000 <= scale * v <= 0xc_0000_0000_0000_0000) by (nonlinear_arith)
        requires
            1 <= scale <= 6,
            -0x2_0000_0000_0000_0000 <= v <= 0x2_0000_0000_0000_0000,
    ;
    (scale as i128) * v
}

/// The overlap area of the window `(wx, wy, ww, wh)`, at `scale`, and `f`.
fn overlap_of(wx: i64, wy: i64, ww: i64, wh: i64, f: &Rect, scale: i64) -> (a: i128)
    requires
        1 <= scale <= 6,
    ensures
        a == overlap_area((wx as int, wy as int, ww as int, wh as int), *f, scale as int),
{
    let fx: i128 = scaled(f.x as i128, scale);
    let fy: i128 = scaled(f.y as i128, scale);
    let f_right: i128 = scaled(f.x as i128 + f.width as i128, scale);
    let f_bottom: i128 = scaled(f.y as i128 + f.height as i128, scale);
    let w_right: i128 = wx as i128 + ww as i128;
    let w_bottom: i128 = wy as i128 + wh as i128;
    let left: i128 = if wx as i128 >= fx { wx as i128 } else { fx };
    let right: i128 = if w_right <= f_right { w_right } else { f_right };
    let top: i128 = if wy as i128 >= fy { wy as i128 } else { fy };
    let bottom: i128 = if w_bottom <= f_bottom { w_bottom } else { f_bottom };
    let xo: i128 = right - left;
    let yo: i128 = bottom - top;
    if xo > 0 && yo > 0 {
        assert(xo * yo <= 0x4000_0000_0000_0000_0000_0000_0000_0000) by (nonlinear_arith)
            requires
                0 < xo <= 0x8000_0000_0000_0000,
                0 < yo <= 0x8000_0000_0000_0000,
        ;
        xo * yo
    } else {
        0
    }
}

/// The centre of the window `(wx, wy, ww, wh)`, at `scale`, lies in `f`.
fn center_in(wx: i64, wy: i64, ww: i64, wh: i64, f: &Rect, scale: i64) -> (b: bool)
    requires
        1 <= scale <= 6,
    ensures
        b == center_inside((wx as int, wy as int, ww as int, wh as int), *f, scale as int),
{
    let cx: i128 = 2 * (wx as i128) + ww as i128;
    let cy: i128 = 2 * (wy as i128) + wh as i128;
    let left: i128 = 2 * scaled(f.x as i128, scale);
    let right: i128 = 2 * scaled(f.x as i128 + f.width as i128, scale);
    let top: i128 = 2 * scaled(f.y as i128, scale);
    let bottom: i128 = 2 * scaled(f.y as i128 + f.height as i128, scale);
    left <= cx && cx <= right && top <= cy && cy <= bottom
}

/// Index of the screen that holds the window `(wx, wy, ww, wh)` measured in
/// `1/scale` of a `Rect` unit.
fn find_index_at_scale(
    screens: &[(Rect, Rect)],
    wx: i64,
    wy: i64,
    ww: i64,
    wh: i64,
    scale: i64,
) -> (r: usize)
    requires
        1 <= scale <= 6,
    ensures
        r == screen_index(screens@, (wx as int, wy as int, ww as int, wh as int), scale as int),
        screens@.len() > 0 ==> r < screens@.len(),
{
    let ghost s = screens@;
    let ghost w: Quad = (wx as int, wy as int, ww as int, wh as int);
    let ghost sc = scale as int;
    let mut best: usize = 0;
    let mut max_overlap: i128 = -1;
    let mut i: usize = 0;
    while i < screens.len()
        invariant
            s == screens@,
            w == (wx as int, wy as int, ww as int, wh as int),
            sc == scale as int,
            1 <= scale <= 6,
            0 <= i <= s.len(),
            max_overlap == -1 ==> best == 0 && forall|j: int|
                0 <= j < i ==> #[trigger] overlap_area(w, s[j].1, sc) <= 0,
            max_overlap != -1 ==> {
                &&& max_overlap > 0
                &&& best < i
                &&& overlap_area(w, s[best as int].1, sc) == max_overlap
                &&& forall|j: int|
                    0 <= j < i ==> #[trigger] overlap_area(w, s[j].1, sc) <= max_overlap
                &&& forall|j: int|
                    0 <= j < best ==> #[trigger] overlap_area(w, s[j].1, sc) < max_overlap
            },
        decreases s.len() - i,
    {
        let area = overlap_of(wx, wy, ww, wh, &screens[i].1, scale);
        if area > 0 && area > max_overlap {
            max_overlap = area;
            best = i;
        }
        i = i + 1;
    }
    if max_overlap <= 0 {
        assert(!has_overlap(s, w, sc));
        let mut k: usize = 0;
        while k < screens.len()
            invariant
                s == screens@,
                w == (wx as int, wy as int, ww as int, wh as int),
                sc == scale as int,
                1 <= scale <= 6,
                0 <= k <= s.len(),
                forall|j: int| 0 <= j < k ==> !#[trigger] center_inside(w, s[j].1, sc),
                !has_overlap(s, w, sc),
            decreases s.len() - k,
        {
            if center_in(wx, wy, ww, wh, &screens[k].1, scale) {
                proof {
                    assert(is_first_center_hit(s, w, sc, k as int));
                    lemma_screen_choice_unique(s, w, sc, k as int, screen_index(s, w, sc));
                }
                return k;
            }
            k = k + 1;
        }
        return 0;
    }
    proof {
        assert(is_best_overlap(s, w, sc, best as int));
        lemma_screen_choice_unique(s, w, sc, best as int, screen_index(s, w, sc));
    }
    best
}

/// Index of the screen that holds `window`: the first screen
/// with the largest overlap; without any overlap, the first screen whose
/// frame holds the window's centre; otherwise 0.
pub fn find_screen_index(screens: &[(Rect, Rect)], window: &Rect) -> (r: usize)
    ensures
        r == screen_index(screens@, window.quad(), 1),
        screens@.len() > 0 ==> r < screens@.len(),
        has_overlap(screens@, window.quad(), 1) ==> is_best_overlap(
            screens@,
            window.quad(),
            1,
            r as int,
        ),
        !has_overlap(screens@, window.quad(), 1) && has_center_hit(screens@, window.quad(), 1)
            ==> is_first_center_hit(screens@, window.quad(), 1, r as int),
        !has_overlap(screens@, window.quad(), 1) && !has_center_hit(screens@, window.quad(), 1)
            ==> r == 0,
{
    let r = find_index_at_scale(screens, window.x, window.y, window.width, window.height, 1);
    proof {
        lemma_screen_index_facts(screens@, window.quad(), 1);
    }
    r
}

/// Index of the screen that holds the target `rect` (six times finer),
/// chosen as `find_screen_index` chooses.
pub fn find_target_screen_index(screens: &[(Rect, Rect)], rect: &FineRect) -> (r: usize)
    ensures
        r == screen_index(screens@, rect.quad(), 6),
        screens@.len() > 0 ==> r < screens@.len(),
{
    find_index_at_scale(screens, rect.x, rect.y, rect.width, rect.height, 6)
}

/// `s` is ordered left to right by the x of each frame.
pub open spec fn sorted_by_frame_x(s: Seq<(Rect, Rect)>) -> bool {
    forall|i: int, j: int| 0 <= i < j < s.len() ==> #[trigger] s[i].1.x <= #[trigger] s[j].1.x
}

/// `out` is `inp` rearranged by `p` (`out[k] == inp[p[k]]`, `p` one-to-one),
/// with screens whose frames share an x kept in their order in `inp`.
pub open spec fn is_stable_rearrangement(
    out: Seq<(Rect, Rect)>,
    inp: Seq<(Rect, Rect)>,
    p: Seq<int>,
) -> bool {
    &&& out.len() == inp.len()
    &&& p.len() == inp.len()
    &&& forall|k: int| 0 <= k < out.len() ==> 0 <= #[trigger] p[k] < inp.len()
    &&& forall|k: int| 0 <= k < out.len() ==> #[trigger] out[k] == inp[p[k]]
    &&& forall|k: int, l: int| 0 <= k < l < out.len() ==> #[trigger] p[k] != #[trigger] p[l]
    &&& forall|k: int, l: int|
        0 <= k < l < out.len() && #[trigger] out[k].1.x == #[trigger] out[l].1.x ==> p[k] < p[l]
}

/// `out` is `inp` sorted by frame x, ties kept in their order: what a stable
/// sort by the frames' x gives.
pub open spec fn is_stable_sort_by_frame_x(out: Seq<(Rect, Rect)>, inp: Seq<(Rect, Rect)>) -> bool {
    &&& sorted_by_frame_x(out)
    &&& exists|p: Seq<int>| is_stable_rearrangement(out, inp, p)
}

/// Stable sort of the screens by the x of their frames (insertion sort).
pub fn sort_screens_by_frame_x(screens: &Vec<(Rect, Rect)>) -> (out: Vec<(Rect, Rect)>)
    ensures
        is_stable_sort_by_frame_x(out@, screens@),
{
    let ghost inp = screens@;
    let mut out: Vec<(Rect, Rect)> = Vec::new();
    let ghost mut p: Seq<int> = Seq::empty();
    let mut i: usize = 0;
    while i < screens.len()
        invariant
            inp == screens@,
            0 <= i <= inp.len(),
            out@.len() == i,
            p.len() == i,
            sorted_by_frame_x(out@),
            forall|k: int| 0 <= k < i ==> 0 <= #[trigger] p[k] < i,
            forall|k: int| 0 <= k < i ==> #[trigger] out@[k] == inp[p[k]],
            forall|k: int, l: int| 0 <= k < l < i ==> #[trigger] p[k] != #[trigger] p[l],
            forall|k: int, l: int|
                0 <= k < l < i && #[trigger] out@[k].1.x == #[trigger] out@[l].1.x ==> p[k]
                    < p[l],
        decreases inp.len() - i,
    {
        let item = screens[i];
        let key = item.1.x;
        let mut pos: usize = 0;
        while pos < out.len() && out[pos].1.x <= key
            invariant
                0 <= pos <= out@.len(),
                forall|q: int| 0 <= q < pos ==> #[trigger] out@[q].1.x <= key,
            decreases out@.len() - pos,
        {
            pos = pos + 1;
        }
        let ghost old_out = out@;
        let ghost old_p = p;
        assert(forall|q: int| pos <= q < old_out.len() ==> #[trigger] old_out[q].1.x > key) by {
            assert forall|q: int| pos <= q < old_out.len() implies #[trigger] old_out[q].1.x
                > key by {
                assert(old_out[pos as int].1.x > key);
                if q > pos {
                    assert(old_out[pos as int].1.x <= old_out[q].1.x);
                }
            }
        }
        out.insert(pos, item);
        proof {
            p = old_p.insert(pos as int, i as int);
            old_out.insert_ensures(pos as int, item);
            old_p.insert_ensures(pos as int, i as int);
            assert(out@ == old_out.insert(pos as int, item));
            let n = out@.len();
            assert forall|k: int|
                0 <= k < n implies 0 <= #[trigger] p[k] < i + 1 && out@[k] == inp[p[k]] by {
                if k < pos {
                } else if k == pos {
                } else {
                    assert(p[k] == old_p[k - 1]);
                    assert(out@[k] == old_out[k - 1]);
                }
            }
            assert forall|k: int, l: int| 0 <= k < l < n implies #[trigger] p[k] != #[trigger] p[l]
                && (out@[k].1.x == out@[l].1.x ==> p[k] < p[l]) && out@[k].1.x <= out@[l].1.x by {
                let ok = if k < pos { k } else { k - 1 };
                let ol = if l < pos { l } else { l - 1 };
                if k == pos {
                    assert(out@[l] == old_out[ol]);
                    assert(p[l] == old_p[ol]);
                } else if l == pos {
                    assert(out@[k] == old_out[ok]);
                    assert(p[k] == old_p[ok]);
                } else {
                    assert(out@[k] == old_out[ok]);
                    assert(out@[l] == old_out[ol]);
                    assert(p[k] == old_p[ok]);
                    assert(p[l] == old_p[ol]);
                    assert(ok < ol);
                }
            }
        }
        i = i + 1;
    }
    proof {
        assert(is_stable_rearrangement(out@, inp, p));
    }
    out
}

/// `r` moved from the Cocoa space (origin at the bottom left of the primary
/// screen, y growing upwards) into the accessibility space, where the primary
/// screen is `primary_height` high: only y changes.
pub open spec fn cocoa_to_ax(r: Rect, primary_height: int) -> Rect {
    Rect {
        x: r.x,
        y: (primary_height - (r.y + r.height)) as i64,
        width: r.width,
        height: r.height,
    }
}

/// Each `(frame, visible frame)` pair of `raw` (Cocoa space; the first is
/// the primary screen) as `(visible area, frame)` in accessibility space.
pub open spec fn ax_screens(raw: Seq<(Rect, Rect)>) -> Seq<(Rect, Rect)> {
    let primary_height = raw[0].0.height as int;
    Seq::new(
        raw.len(),
        |i: int| (cocoa_to_ax(raw[i].1, primary_height), cocoa_to_ax(raw[i].0, primary_height)),
    )
}

/// Every frame and visible frame of `raw` fits the coordinate limits.
pub open spec fn all_fit(raw: Seq<(Rect, Rect)>) -> bool {
    forall|i: int| 0 <= i < raw.len() ==> (#[trigger] raw[i]).0.fits() && raw[i].1.fits()
}

/// `r` moved into accessibility space.
fn flip(r: &Rect, primary_height: i64) -> (out: Rect)
    requires
        r.fits(),
        crate::geometry::coord_fits(primary_height as int),
    ensures
        out == cocoa_to_ax(*r, primary_height as int),
        out.y == primary_height - (r.y + r.height),
{
    Rect { x: r.x, y: primary_height - (r.y + r.height), width: r.width, height: r.height }
}

/// Law: each arranged screen is one of the given screens moved into
/// accessibility space: its visible area is its own visible frame flipped
/// about the primary screen's height (y becomes `primary_height - (y +
/// height)`), and its frame is its own frame flipped the same way; x, width
/// and height stay.
pub proof fn lemma_arranged_screens_flip(out: Seq<(Rect, Rect)>, raw: Seq<(Rect, Rect)>)
    requires
        raw.len() > 0,
        all_fit(raw),
        is_stable_sort_by_frame_x(out, ax_screens(raw)),
    ensures
        out.len() == raw.len(),
        forall|k: int|
            #![trigger out[k]]
            0 <= k < out.len() ==> exists|j: int|
                #![trigger raw[j]]
                0 <= j < raw.len() && {
                    &&& out[k].0.x == raw[j].1.x && out[k].0.width == raw[j].1.width
                    &&& out[k].0.height == raw[j].1.height
                    &&& out[k].0.y == raw[0].0.height - (raw[j].1.y + raw[j].1.height)
                    &&& out[k].1.x == raw[j].0.x && out[k].1.width == raw[j].0.width
                    &&& out[k].1.height == raw[j].0.height
                    &&& out[k].1.y == raw[0].0.height - (raw[j].0.y + raw[j].0.height)
                },
{
    let inp = ax_screens(raw);
    let p = choose|p: Seq<int>| is_stable_rearrangement(out, inp, p);
    assert forall|k: int| 0 <= k < out.len() implies exists|j: int|
        #![trigger raw[j]]
        0 <= j < raw.len() && {
            &&& (#[trigger] out[k]).0.x == raw[j].1.x && out[k].0.width == raw[j].1.width
            &&& out[k].0.height == raw[j].1.height
            &&& out[k].0.y == raw[0].0.height - (raw[j].1.y + raw[j].1.height)
            &&& out[k].1.x == raw[j].0.x && out[k].1.width == raw[j].0.width
            &&& out[k].1.height == raw[j].0.height
            &&& out[k].1.y == raw[0].0.height - (raw[j].0.y + raw[j].0.height)
        } by {
        let j = p[k];
        assert(0 <= j < raw.len());
        assert(out[k] == inp[j]);
        assert(raw[0].0.fits());
        assert(raw[j].0.fits() && raw[j].1.fits());
    }
}

/// Law: every given screen appears among the arranged screens, moved into
/// accessibility space as described for `lemma_arranged_screens_flip`.
pub proof fn lemma_arranged_screens_cover(out: Seq<(Rect, Rect)>, raw: Seq<(Rect, Rect)>)
    requires
        raw.len() > 0,
        all_fit(raw),
        is_stable_sort_by_frame_x(out, ax_screens(raw)),
    ensures
        forall|j: int|
            #![trigger raw[j]]
            0 <= j < raw.len() ==> exists|k: int|
                #![trigger out[k]]
                0 <= k < out.len() && {
                    &&& out[k].0.x == raw[j].1.x && out[k].0.width == raw[j].1.width
                    &&& out[k].0.height == raw[j].1.height
                    &&& out[k].0.y == raw[0].0.height - (raw[j].1.y + raw[j].1.height)
                    &&& out[k].1.x == raw[j].0.x && out[k].1.width == raw[j].0.width
                    &&& out[k].1.height == raw[j].0.height
                    &&& out[k].1.y == raw[0].0.height - (raw[j].0.y + raw[j].0.height)
                },
{
    let p = choose|p: Seq<int>| is_stable_rearrangement(out, ax_screens(raw), p);
    lemma_cover_with(out, raw, p);
}

/// Every screen of `raw` appears in the rearrangement `out` given by `p`.
proof fn lemma_cover_with(out: Seq<(Rect, Rect)>, raw: Seq<(Rect, Rect)>, p: Seq<int>)
    requires
        raw.len() > 0,
        all_fit(raw),
        is_stable_rearrangement(out, ax_screens(raw), p),
    ensures
        forall|j: int|
            #![trigger raw[j]]
            0 <= j < raw.len() ==> exists|k: int|
                #![trigger out[k]]
                0 <= k < out.len() && {
                    &&& out[k].0.x == raw[j].1.x && out[k].0.width == raw[j].1.width
                    &&& out[k].0.height == raw[j].1.height
                    &&& out[k].0.y == raw[0].0.height - (raw[j].1.y + raw[j].1.height)
                    &&& out[k].1.x == raw[j].0.x && out[k].1.width == raw[j].0.width
                    &&& out[k].1.height == raw[j].0.height
                    &&& out[k].1.y == raw[0].0.height - (raw[j].0.y + raw[j].0.height)
                },
{
    let inp = ax_screens(raw);
    lemma_rearrangement_onto(out, inp, p);
    assert forall|j: int| #![trigger raw[j]] 0 <= j < raw.len() implies exists|k: int|
        #![trigger out[k]]
        0 <= k < out.len() && {
            &&& out[k].0.x == raw[j].1.x && out[k].0.width == raw[j].1.width
            &&& out[k].0.height == raw[j].1.height
            &&& out[k].0.y == raw[0].0.height - (raw[j].1.y + raw[j].1.height)
            &&& out[k].1.x == raw[j].0.x && out[k].1.width == raw[j].0.width
            &&& out[k].1.height == raw[j].0.height
            &&& out[k].1.y == raw[0].0.height - (raw[j].0.y + raw[j].0.height)
        } by {
        assert(p.contains(j));
        let k = choose|k: int| 0 <= k < p.len() && p[k] == j;
        lemma_flip_at(out, raw, p, k);
    }
}

/// Position `k` of a stable rearrangement of the converted screens holds
/// screen `p[k]`, moved into accessibility space.
proof fn lemma_flip_at(out: Seq<(Rect, Rect)>, raw: Seq<(Rect, Rect)>, p: Seq<int>, k: int)
    requires
        raw.len() > 0,
        all_fit(raw),
        is_stable_rearrangement(out, ax_screens(raw), p),
        0 <= k < out.len(),
    ensures
        ({
            let j = p[k];
            &&& 0 <= j < raw.len()
            &&& out[k].0.x == raw[j].1.x && out[k].0.width == raw[j].1.width
            &&& out[k].0.height == raw[j].1.height
            &&& out[k].0.y == raw[0].0.height - (raw[j].1.y + raw[j].1.height)
            &&& out[k].1.x == raw[j].0.x && out[k].1.width == raw[j].0.width
            &&& out[k].1.height == raw[j].0.height
            &&& out[k].1.y == raw[0].0.height - (raw[j].0.y + raw[j].0.height)
        }),
{
    let j = p[k];
    assert(out[k] == ax_screens(raw)[j]);
    assert(raw[0].0.fits());
    assert(raw[j].0.fits() && raw[j].1.fits());
}

/// The screens, given as `(frame, visible frame)` in Cocoa space with the
/// primary screen first, as `(visible area, frame)` pairs in accessibility
/// space, ordered left to right by frame x (ties keep their order).
pub fn arrange_screens(raw: &[(Rect, Rect)]) -> (out: Vec<(Rect, Rect)>)
    requires
        raw@.len() > 0,
        all_fit(raw@),
    ensures
        is_stable_sort_by_frame_x(out@, ax_screens(raw@)),
        out@.len() == raw@.len(),
        forall|k: int|
            #![trigger out@[k]]
            0 <= k < out@.len() ==> exists|j: int|
                #![trigger raw@[j]]
                0 <= j < raw@.len() && {
                    &&& out@[k].0.x == raw@[j].1.x && out@[k].0.width == raw@[j].1.width
                    &&& out@[k].0.height == raw@[j].1.height
                    &&& out@[k].0.y == raw@[0].0.height - (raw@[j].1.y + raw@[j].1.height)
                    &&& out@[k].1.x == raw@[j].0.x && out@[k].1.width == raw@[j].0.width
                    &&& out@[k].1.height == raw@[j].0.height
                    &&& out@[k].1.y == raw@[0].0.height - (raw@[j].0.y + raw@[j].0.height)
                },
        sorted_by_frame_x(out@),
{
    let primary_height = raw[0].0.height;
    let ghost target = ax_screens(raw@);
    let mut converted: Vec<(Rect, Rect)> = Vec::new();
    let mut i: usize = 0;
    while i < raw.len()
        invariant
            0 <= i <= raw@.len(),
            raw@.len() > 0,
            all_fit(raw@),
            primary_height == raw@[0].0.height,
            target == ax_screens(raw@),
            converted@.len() == i,
            forall|k: int| 0 <= k < i ==> #[trigger] converted@[k] == target[k],
        decreases raw@.len() - i,
    {
        proof {
            assert(raw@[0].0.fits());
            assert(raw@[i as int].0.fits() && raw@[i as int].1.fits());
        }
        let pair = (flip(&raw[i].1, primary_height), flip(&raw[i].0, primary_height));
        converted.push(pair);
        i = i + 1;
    }
    assert(converted@ == target);
    let out = sort_screens_by_frame_x(&converted);
    proof {
        lemma_arranged_screens_flip(out@, raw@);
    }
    out
}

/// What the chosen screen is: the best overlap when there is an overlap,
/// else the first centre hit when there is one, else 0.
pub proof fn lemma_screen_index_facts(screens: Seq<(Rect, Rect)>, w: Quad, scale: int)
    ensures
        has_overlap(screens, w, scale) ==> is_best_overlap(
            screens,
            w,
            scale,
            screen_index(screens, w, scale),
        ),
        !has_overlap(screens, w, scale) && has_center_hit(screens, w, scale)
            ==> is_first_center_hit(screens, w, scale, screen_index(screens, w, scale)),
        !has_overlap(screens, w, scale) && !has_center_hit(screens, w, scale) ==> screen_index(
            screens,
            w,
            scale,
        ) == 0,
{
    if has_overlap(screens, w, scale) {
        let j = choose|j: int|
            0 <= j < screens.len() && #[trigger] overlap_area(w, screens[j].1, scale) > 0;
        lemma_best_overlap_exists(screens, w, scale, j);
    } else if has_center_hit(screens, w, scale) {
        let j = choose|j: int|
            0 <= j < screens.len() && #[trigger] center_inside(w, screens[j].1, scale);
        lemma_first_center_hit_exists(screens, w, scale, j);
    }
}

/// Law: a window that overlaps exactly one screen belongs to that screen.
pub proof fn lemma_only_overlapping_screen(
    screens: Seq<(Rect, Rect)>,
    w: Quad,
    scale: int,
    k: int,
)
    requires
        0 <= k < screens.len(),
        overlap_area(w, screens[k].1, scale) > 0,
        forall|j: int|
            0 <= j < screens.len() && j != k ==> #[trigger] overlap_area(w, screens[j].1, scale)
                <= 0,
    ensures
        screen_index(screens, w, scale) == k,
{
    assert(is_best_overlap(screens, w, scale, k));
    lemma_screen_choice_unique(screens, w, scale, k, screen_index(screens, w, scale));
}

/// Law: the screen found for a window always exists when there is a screen,
/// and a window that overlaps some screen is placed on a screen it overlaps
/// at least as much as any other.
pub proof fn lemma_screen_index_in_range(screens: Seq<(Rect, Rect)>, w: Quad, scale: int)
    requires
        screens.len() > 0,
    ensures
        0 <= screen_index(screens, w, scale) < screens.len(),
        has_overlap(screens, w, scale) ==> forall|j: int|
            0 <= j < screens.len() ==> #[trigger] overlap_area(w, screens[j].1, scale)
                <= overlap_area(w, screens[screen_index(screens, w, scale)].1, scale),
{
    lemma_screen_index_facts(screens, w, scale);
}

/// Law: the screen of a rectangle measured six times finer is the screen of
/// the rectangle itself: the finer measure changes no choice.
pub proof fn lemma_screen_index_scale_free(screens: Seq<(Rect, Rect)>, r: Rect)
    ensures
        screen_index(screens, r.as_fine(), 6) == screen_index(screens, r.quad(), 1),
{
    let w1 = r.quad();
    let w6 = r.as_fine();
    assert forall|j: int| 0 <= j < screens.len() implies #[trigger] overlap_area(
        w6,
        screens[j].1,
        6,
    ) == 36 * overlap_area(w1, screens[j].1, 1) by {
        let f = screens[j].1;
        assert(min_int(w6.0 + w6.2, 6 * f.right()) == 6 * min_int(w1.0 + w1.2, 1 * f.right()));
        assert(max_int(w6.0, 6 * f.x) == 6 * max_int(w1.0, 1 * f.x));
        assert(min_int(w6.1 + w6.3, 6 * f.bottom()) == 6 * min_int(w1.1 + w1.3, 1 * f.bottom()));
        assert(max_int(w6.1, 6 * f.y) == 6 * max_int(w1.1, 1 * f.y));
        let a = x_overlap(w1, f, 1);
        let b = y_overlap(w1, f, 1);
        assert(x_overlap(w6, f, 6) == 6 * a);
        assert(y_overlap(w6, f, 6) == 6 * b);
        assert((6 * a) * (6 * b) == 36 * (a * b)) by (nonlinear_arith);
        assert(a > 0 && b > 0 ==> a * b > 0) by (nonlinear_arith);
    }
    assert forall|j: int| 0 <= j < screens.len() implies #[trigger] center_inside(
        w6,
        screens[j].1,
        6,
    ) == center_inside(w1, screens[j].1, 1) by {}
    assert(has_overlap(screens, w6, 6) == has_overlap(screens, w1, 1)) by {
        if has_overlap(screens, w1, 1) {
            let j = choose|j: int|
                0 <= j < screens.len() && #[trigger] overlap_area(w1, screens[j].1, 1) > 0;
            assert(overlap_area(w6, screens[j].1, 6) > 0);
        }
        if has_overlap(screens, w6, 6) {
            let j = choose|j: int|
                0 <= j < screens.len() && #[trigger] overlap_area(w6, screens[j].1, 6) > 0;
            assert(overlap_area(w1, screens[j].1, 1) > 0);
        }
    }
    assert(has_center_hit(screens, w6, 6) == has_center_hit(screens, w1, 1)) by {
        if has_center_hit(screens, w1, 1) {
            let j = choose|j: int|
                0 <= j < screens.len() && #[trigger] center_inside(w1, screens[j].1, 1);
            assert(center_inside(w6, screens[j].1, 6));
        }
        if has_center_hit(screens, w6, 6) {
            let j = choose|j: int|
                0 <= j < screens.len() && #[trigger] center_inside(w6, screens[j].1, 6);
            assert(center_inside(w1, screens[j].1, 1));
        }
    }
    lemma_screen_index_facts(screens, w1, 1);
    lemma_screen_index_facts(screens, w6, 6);
    let i1 = screen_index(screens, w1, 1);
    let i6 = screen_index(screens, w6, 6);
    if has_overlap(screens, w1, 1) {
        assert(is_best_overlap(screens, w6, 6, i1));
        lemma_screen_choice_unique(screens, w6, 6, i1, i6);
    } else if has_center_hit(screens, w1, 1) {
        assert(is_first_center_hit(screens, w6, 6, i1));
        lemma_screen_choice_unique(screens, w6, 6, i1, i6);
    }
}

/// Among the first `n` screens, screen `i` has the largest overlap with `w`,
/// and is the first to have it.
pub open spec fn is_prefix_best(
    screens: Seq<(Rect, Rect)>,
    w: Quad,
    scale: int,
    n: int,
    i: int,
) -> bool {
    &&& 0 <= i < n
    &&& forall|j: int|
        0 <= j < n ==> #[trigger] overlap_area(w, screens[j].1, scale) <= overlap_area(
            w,
            screens[i].1,
            scale,
        )
    &&& forall|j: int|
        0 <= j < i ==> #[trigger] overlap_area(w, screens[j].1, scale) < overlap_area(
            w,
            screens[i].1,
            scale,
        )
}

/// Among the first `n` screens, one has the largest overlap and is the first
/// to have it.
proof fn lemma_prefix_best_overlap(screens: Seq<(Rect, Rect)>, w: Quad, scale: int, n: int)
    requires
        1 <= n <= screens.len(),
    ensures
        exists|i: int| is_prefix_best(screens, w, scale, n, i),
    decreases n,
{
    if n == 1 {
        assert(is_prefix_best(screens, w, scale, 1, 0));
    } else {
        let m = n - 1;
        lemma_prefix_best_overlap(screens, w, scale, m);
        let i = choose|i: int| is_prefix_best(screens, w, scale, m, i);
        if overlap_area(w, screens[n - 1].1, scale) > overlap_area(w, screens[i].1, scale) {
            assert(is_prefix_best(screens, w, scale, n, n - 1));
        } else {
            assert(is_prefix_best(screens, w, scale, n, i));
        }
    }
}

/// Some screen is the best overlap when screen `j` overlaps at all.
proof fn lemma_best_overlap_exists(screens: Seq<(Rect, Rect)>, w: Quad, scale: int, j: int)
    requires
        0 <= j < screens.len(),
        overlap_area(w, screens[j].1, scale) > 0,
    ensures
        exists|i: int| is_best_overlap(screens, w, scale, i),
{
    let n = screens.len() as int;
    lemma_prefix_best_overlap(screens, w, scale, n);
    let i = choose|i: int| is_prefix_best(screens, w, scale, n, i);
    assert(overlap_area(w, screens[j].1, scale) <= overlap_area(w, screens[i].1, scale));
    assert(is_best_overlap(screens, w, scale, i));
}

/// Some screen is the first centre hit when screen `j` holds the centre.
proof fn lemma_first_center_hit_exists(screens: Seq<(Rect, Rect)>, w: Quad, scale: int, j: int)
    requires
        0 <= j < screens.len(),
        center_inside(w, screens[j].1, scale),
    ensures
        exists|i: int| is_first_center_hit(screens, w, scale, i),
    decreases j,
{
    if exists|m: int| 0 <= m < j && #[trigger] center_inside(w, screens[m].1, scale) {
        let m = choose|m: int| 0 <= m < j && #[trigger] center_inside(w, screens[m].1, scale);
        lemma_first_center_hit_exists(screens, w, scale, m);
    } else {
        assert(is_first_center_hit(screens, w, scale, j));
    }
}

/// The order of a stable rearrangement visits every index of the input.
proof fn lemma_rearrangement_onto(out: Seq<(Rect, Rect)>, inp: Seq<(Rect, Rect)>, p: Seq<int>)
    requires
        is_stable_rearrangement(out, inp, p),
    ensures
        forall|j: int| 0 <= j < inp.len() ==> #[trigger] p.contains(j),
{
    let n = inp.len() as int;
    assert(p.no_duplicates()) by {
        assert forall|i: int, j: int| 0 <= i < p.len() && 0 <= j < p.len() && i != j implies p[i]
            != p[j] by {
            if i < j {
                assert(p[i] != p[j]);
            } else {
                assert(p[j] != p[i]);
            }
        }
    }
    p.unique_seq_to_set();
    vstd::set_lib::lemma_int_range(0, n);
    let range = vstd::set_lib::set_int_range(0, n);
    assert(p.to_set().subset_of(range)) by {
        assert forall|x: int| p.to_set().contains(x) implies range.contains(x) by {
            let k = choose|k: int| 0 <= k < p.len() && p[k] == x;
            assert(0 <= p[k] < n);
        }
    }
    vstd::seq_lib::seq_to_set_is_finite(p);
    vstd::set_lib::lemma_subset_equality(p.to_set(), range);
    assert forall|j: int| 0 <= j < n implies #[trigger] p.contains(j) by {
        assert(range.contains(j));
        assert(p.to_set().contains(j));
    }
}

/// Two stable rearrangements that agree before position `k` agree at `k`.
proof fn lemma_rearrangements_agree_at(
    out1: Seq<(Rect, Rect)>,
    out2: Seq<(Rect, Rect)>,
    inp: Seq<(Rect, Rect)>,
    p1: Seq<int>,
    p2: Seq<int>,
    k: int,
)
    requires
        sorted_by_frame_x(out1),
        sorted_by_frame_x(out2),
        is_stable_rearrangement(out1, inp, p1),
        is_stable_rearrangement(out2, inp, p2),
        forall|j: int| 0 <= j < inp.len() ==> #[trigger] p1.contains(j),
        forall|j: int| 0 <= j < inp.len() ==> #[trigger] p2.contains(j),
        0 <= k < inp.len(),
        forall|i: int| 0 <= i < k ==> p1[i] == p2[i],
    ensures
        p1[k] == p2[k],
{
    let a = p1[k];
    let b = p2[k];
    if a != b {
        assert(p1.contains(b));
        let m = choose|m: int| 0 <= m < p1.len() && p1[m] == b;
        assert(p2.contains(a));
        let m2 = choose|m2: int| 0 <= m2 < p2.len() && p2[m2] == a;
        // b sits in p1 after k, since before k p1 agrees with p2, which
        // holds b only at k.
        if m < k {
            assert(p2[m] == b);
            assert(p2[m] != p2[k]);
        }
        if m2 < k {
            assert(p1[m2] == a);
            assert(p1[m2] != p1[k]);
        }
        assert(m > k && m2 > k);
        // In out1, a comes before b; in out2, b comes before a.
        assert(out1[k] == inp[a] && out1[m] == inp[b]);
        assert(out2[k] == inp[b] && out2[m2] == inp[a]);
        assert(out1[k].1.x <= out1[m].1.x);
        assert(out2[k].1.x <= out2[m2].1.x);
        assert(inp[a].1.x == inp[b].1.x);
        assert(a < b);
        assert(b < a);
    }
}

/// Two stable rearrangements agree on their first `k` positions.
proof fn lemma_rearrangements_agree_upto(
    out1: Seq<(Rect, Rect)>,
    out2: Seq<(Rect, Rect)>,
    inp: Seq<(Rect, Rect)>,
    p1: Seq<int>,
    p2: Seq<int>,
    k: int,
)
    requires
        sorted_by_frame_x(out1),
        sorted_by_frame_x(out2),
        is_stable_rearrangement(out1, inp, p1),
        is_stable_rearrangement(out2, inp, p2),
        forall|j: int| 0 <= j < inp.len() ==> #[trigger] p1.contains(j),
        forall|j: int| 0 <= j < inp.len() ==> #[trigger] p2.contains(j),
        0 <= k <= inp.len(),
    ensures
        forall|i: int| 0 <= i < k ==> p1[i] == p2[i],
    decreases k,
{
    if k > 0 {
        lemma_rearrangements_agree_upto(out1, out2, inp, p1, p2, k - 1);
        lemma_rearrangements_agree_at(out1, out2, inp, p1, p2, k - 1);
    }
}

/// Law: the left-to-right order is fully determined: any two stable sorts of
/// the same screens by frame x are the same sequence.
pub proof fn lemma_stable_sort_unique(
    out1: Seq<(Rect, Rect)>,
    out2: Seq<(Rect, Rect)>,
    inp: Seq<(Rect, Rect)>,
)
    requires
        is_stable_sort_by_frame_x(out1, inp),
        is_stable_sort_by_frame_x(out2, inp),
    ensures
        out1 == out2,
{
    let p1 = choose|p: Seq<int>| is_stable_rearrangement(out1, inp, p);
    let p2 = choose|p: Seq<int>| is_stable_rearrangement(out2, inp, p);
    lemma_rearrangement_onto(out1, inp, p1);
    lemma_rearrangement_onto(out2, inp, p2);
    let n = inp.len() as int;
    lemma_rearrangements_agree_upto(out1, out2, inp, p1, p2, n);
    assert(out1 =~= out2) by {
        assert forall|i: int| 0 <= i < n implies out1[i] == out2[i] by {
            assert(out1[i] == inp[p1[i]]);
            assert(out2[i] == inp[p2[i]]);
        }
    }
}

} // verus!
