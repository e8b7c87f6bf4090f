use vstd::prelude::*;

use crate::buffer::{Pixel, RgbaBuffer};
use crate::rect::{lemma_intersection_points, overlap, Rect};

verus! {

/// The overlaps of each screen with `sel`, in screen order, leaving out the
/// screens that do not overlap it.
pub open spec fn overlapping(screens: Seq<Rect>, sel: Rect) -> Seq<Rect>
    decreases screens.len(),
{
    if screens.len() == 0 {
        Seq::empty()
    } else {
        let rest = overlapping(screens.drop_last(), sel);
        match overlap(screens.last(), sel) {
            Some(r) => rest.push(r),
            None => rest,
        }
    }
}

/// Some rectangle of `rects` holds the point `(px, py)`.
pub open spec fn covered(rects: Seq<Rect>, px: int, py: int) -> bool {
    exists|i: int| 0 <= i < rects.len() && #[trigger] rects[i].contains(px, py)
}

/// Inside `sel`, the overlaps of the screens with `sel` cover exactly the
/// points that the screens themselves cover.
pub proof fn lemma_overlapping_covered(screens: Seq<Rect>, sel: Rect, px: int, py: int)
    requires
        sel.contains(px, py),
    ensures
        covered(overlapping(screens, sel), px, py) == covered(screens, px, py),
    decreases screens.len(),
{
    if screens.len() > 0 {
        let init = screens.drop_last();
        let s = screens.last();
        lemma_overlapping_covered(init, sel, px, py);
        lemma_intersection_points(s, sel, px, py);
        let rest = overlapping(init, sel);
        if covered(screens, px, py) {
            let i = choose|i: int| 0 <= i < screens.len() && #[trigger] screens[i].contains(px, py);
            if i < init.len() {
                assert(init[i].contains(px, py));
            }
        }
        if covered(init, px, py) {
            let i = choose|i: int| 0 <= i < init.len() && #[trigger] init[i].contains(px, py);
            assert(screens[i].contains(px, py));
        }
        match overlap(s, sel) {
            Some(r) => {
                let v = rest.push(r);
                if covered(rest, px, py) {
                    let i = choose|i: int| 0 <= i < rest.len() && #[trigger] rest[i].contains(px, py);
                    assert(v[i].contains(px, py));
                }
                if covered(v, px, py) {
                    let i = choose|i: int| 0 <= i < v.len() && #[trigger] v[i].contains(px, py);
                    if i < rest.len() {
                        assert(rest[i].contains(px, py));
                    }
                }
                if s.contains(px, py) {
                    assert(v[rest.len() as int].contains(px, py));
                }
            },
            None => {},
        }
        if s.contains(px, py) {
            assert(screens[screens.len() - 1].contains(px, py));
        }
    }
}

/// The overlaps of the screens with `sel`, in screen order.
pub fn overlapping_screens(screens: &Vec<Rect>, sel: &Rect) -> (r: Vec<Rect>)
    ensures
        r@ == overlapping(screens@, *sel),
{
    let mut r: Vec<Rect> = Vec::new();
    let mut i: usize = 0;
    while i < screens.len()
        invariant
            i <= screens@.len(),
            r@ == overlapping(screens@.subrange(0, i as int), *sel),
        decreases screens@.len() - i,
    {
        proof {
            assert(screens@.subrange(0, i + 1).drop_last() =~= screens@.subrange(0, i as int));
        }
        match screens[i].intersection(sel) {
            Some(o) => r.push(o),
            None => {},
        }
        i = i + 1;
    }
    proof {
        assert(screens@.subrange(0, i as int) =~= screens@);
    }
    r
}

/// Whether some rectangle of `rects` holds the point `(px, py)`.
fn covers(rects: &Vec<Rect>, px: i64, py: i64) -> (r: bool)
    ensures
        r == covered(rects@, px as int, py as int),
{
    let mut i: usize = 0;
    while i < rects.len()
        invariant
            i <= rects@.len(),
            forall|j: int| 0 <= j < i ==> !(#[trigger] rects@[j]).contains(px as int, py as int),
        decreases rects@.len() - i,
    {
        let q = rects[i];
        if q.x as i64 <= px && px < q.x as i64 + q.w as i64 && q.y as i64 <= py && py < q.y as i64
            + q.h as i64 {
            assert(rects@[i as int].contains(px as int, py as int));
            return true;
        }
        i = i + 1;
    }
    false
}

/// `out` is `buf`, a capture of `sel`, with the parts that no screen shows
/// blanked: unchanged where at most one screen overlaps `sel`; otherwise of
/// the same size, each pixel kept where a screen covers it and transparent
/// black where none does.
pub open spec fn masked(buf: RgbaBuffer, sel: Rect, screens: Seq<Rect>, out: RgbaBuffer) -> bool {
    &&& overlapping(screens, sel).len() <= 1 ==> out == buf
    &&& overlapping(screens, sel).len() > 1 ==> {
        &&& out.wf()
        &&& out.width == buf.width
        &&& out.height == buf.height
        &&& forall|x: int, y: int|
            0 <= x < out.width && 0 <= y < out.height ==> #[trigger] out.pixel_at(x, y) == (if covered(
                screens,
                sel.x + x,
                sel.y + y,
            ) {
                buf.pixel_at(x, y)
            } else {
                Pixel::spec_transparent()
            })
    }
}

/// Blanks the parts of a capture that no screen shows. `buf` holds the
/// capture of `sel`, whose position is relative to the root; `screens` are
/// the root-relative rectangles of the physical screens. Where at most one
/// screen overlaps `sel`, `buf` comes back untouched. Otherwise each pixel
/// keeps its value where a screen covers it and becomes transparent black
/// where none does.
pub fn mask_offscreen(buf: RgbaBuffer, sel: &Rect, screens: &Vec<Rect>) -> (r: RgbaBuffer)
    requires
        buf.wf(),
        buf.width == sel.w,
        buf.height == sel.h,
    ensures
        masked(buf, *sel, screens@, r),
{
    let vis = overlapping_screens(screens, sel);
    if vis.len() <= 1 {
        return buf;
    }
    let mut rows: Vec<Vec<Pixel>> = Vec::new();
    let mut y: u32 = 0;
    while y < buf.height
        invariant
            buf.wf(),
            buf.width == sel.w,
            buf.height == sel.h,
            vis@ == overlapping(screens@, *sel),
            y <= buf.height,
            rows@.len() == y,
            forall|j: int| 0 <= j < y ==> #[trigger] rows@[j]@.len() == buf.width,
            forall|j: int, x: int|
                0 <= j < y && 0 <= x < buf.width ==> #[trigger] rows@[j]@[x] == (if covered(
                    screens@,
                    sel.x + x,
                    sel.y + j,
                ) {
                    buf.pixel_at(x, j)
                } else {
                    Pixel::spec_transparent()
                }),
        decreases buf.height - y,
    {
        let mut row: Vec<Pixel> = Vec::new();
        let mut x: u32 = 0;
        while x < buf.width
            invariant
                buf.wf(),
                buf.width == sel.w,
                buf.height == sel.h,
                vis@ == overlapping(screens@, *sel),
                y < buf.height,
                x <= buf.width,
                row@.len() == x,
                forall|i: int|
                    0 <= i < x ==> #[trigger] row@[i] == (if covered(
                        screens@,
                        sel.x + i,
                        sel.y + y,
                    ) {
                        buf.pixel_at(i, y as int)
                    } else {
                        Pixel::spec_transparent()
                    }),
            decreases buf.width - x,
        {
            let px: i64 = sel.x as i64 + x as i64;
            let py: i64 = sel.y as i64 + y as i64;
            proof {
                lemma_overlapping_covered(screens@, *sel, px as int, py as int);
            }
            if covers(&vis, px, py) {
                row.push(buf.pixel(x, y));
            } else {
                row.push(Pixel::transparent());
            }
            x = x + 1;
        }
        rows.push(row);
        y = y + 1;
    }
    RgbaBuffer { width: buf.width, height: buf.height, rows }
}

} // verus!
