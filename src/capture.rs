use vstd::prelude::*;

use crate::buffer::RgbaBuffer;
use crate::error::{CaptureError, ScreenEnumerationFailed};
use crate::geometry::{geometry, parse_geometry};
use crate::mask::{mask_offscreen, masked, overlapping};
use crate::rect::{lemma_disjoint_no_intersection, overlap, relative, LocalRect, Rect};

verus! {

/// The area to capture, both relative to the root and relative to the
/// captured window.
#[derive(Clone, Copy, Debug, PartialEq, Eq, Structural)]
pub struct Selection {
    pub root: Rect,
    pub local: LocalRect,
}

/// The selection for a window whose root-relative rectangle is `target`,
/// with an optional geometry string: the whole window without one, else the
/// part of the window that the geometry covers.
pub open spec fn selection_of(target: Rect, spec: Option<Seq<char>>) -> Result<Selection, CaptureError> {
    match spec {
        None => Ok(Selection { root: target, local: LocalRect { x: 0, y: 0, w: target.w, h: target.h } }),
        Some(s) => match geometry(s) {
            None => Err(CaptureError::InvalidGeometry),
            Some(g) => match overlap(g, target) {
                None => Err(CaptureError::EmptySelection),
                Some(sel) => Ok(Selection { root: sel, local: relative(sel, target).unwrap() }),
            },
        },
    }
}

pub open spec fn view_opt(s: Option<&str>) -> Option<Seq<char>> {
    match s {
        Some(t) => Some(t@),
        None => None,
    }
}

/// Resolves the selection for a window whose root-relative rectangle is
/// `target`, given an optional geometry string.
pub fn resolve_selection(target: &Rect, spec: Option<&str>) -> (r: Result<Selection, CaptureError>)
    ensures
        r == selection_of(*target, view_opt(spec)),
        r matches Ok(s) ==> s.local.w == s.root.w && s.local.h == s.root.h,
{
    match spec {
        None => Ok(Selection { root: *target, local: LocalRect { x: 0, y: 0, w: target.w, h: target.h } }),
        Some(s) => {
            let g = parse_geometry(s)?;
            match g.intersection(target) {
                None => Err(CaptureError::EmptySelection),
                Some(sel) => match sel.relative_to(target) {
                    Some(local) => Ok(Selection { root: sel, local }),
                    None => Err(CaptureError::EmptySelection),
                },
            }
        },
    }
}

/// The window identifier to capture: the given one, or the root by default.
pub fn target_window(requested: Option<u64>, root: u64) -> (r: u64)
    ensures
        r == (match requested {
            Some(w) => w,
            None => root,
        }),
{
    match requested {
        Some(w) => w,
        None => root,
    }
}

/// Finishes a capture of `sel` from its converted pixels. `None` for the
/// pixels means that the framebuffer's format could not be converted. The
/// off-screen parts are masked only when the captured window is the root
/// itself; `screens` is then consulted, and when it could not be listed the
/// capture comes back unmasked with a warning (`true` in the result).
pub fn finish_capture(
    converted: Option<RgbaBuffer>,
    sel: &Selection,
    window_is_root: bool,
    screens: &Result<Vec<Rect>, ScreenEnumerationFailed>,
) -> (r: Result<(RgbaBuffer, bool), CaptureError>)
    requires
        converted matches Some(b) ==> b.wf() && b.width == sel.root.w && b.height == sel.root.h,
    ensures
        converted is None <==> r == Err::<(RgbaBuffer, bool), CaptureError>(
            CaptureError::UnsupportedPixelFormat,
        ),
        converted matches Some(b) ==> r is Ok && (r matches Ok((out, warned)) ==> {
            &&& warned == (window_is_root && screens is Err)
            &&& (!window_is_root || screens is Err) ==> out == b
            &&& (window_is_root && (screens matches Ok(s) && masked(b, sel.root, s@, out)))
                || !window_is_root || screens is Err
            &&& out.wf() && out.width == b.width && out.height == b.height
        }),
{
    let buf = match converted {
        Some(b) => b,
        None => return Err(CaptureError::UnsupportedPixelFormat),
    };
    if !window_is_root {
        return Ok((buf, false));
    }
    match screens {
        Ok(s) => Ok((mask_offscreen(buf, &sel.root, s), false)),
        Err(_) => Ok((buf, true)),
    }
}

/// A capture of a whole window with no geometry keeps the window's size, and
/// a single screen that covers the root leaves nothing to mask.
pub proof fn lemma_single_screen_root_unmasked(monitor: Rect)
    ensures
        selection_of(monitor, None) matches Ok(s) && s.root == monitor && s.local.w == monitor.w
            && s.local.h == monitor.h && overlapping(seq![monitor], s.root).len() <= 1,
{
    let s = seq![monitor];
    assert(s.drop_last() =~= Seq::<Rect>::empty());
    assert(overlapping(s.drop_last(), monitor).len() == 0);
}

/// A geometry that lies wholly outside the window yields an empty selection.
pub proof fn lemma_outside_geometry_empty(target: Rect, spec: Seq<char>)
    requires
        geometry(spec) matches Some(g) && (g.right() < target.x || target.right() < g.x
            || g.bottom() < target.y || target.bottom() < g.y || g.right() == target.x
            || target.right() == g.x || g.bottom() == target.y || target.bottom() == g.y),
    ensures
        selection_of(target, Some(spec)) == Err::<Selection, CaptureError>(CaptureError::EmptySelection),
{
    let g = geometry(spec).unwrap();
    if g.right() < target.x || target.right() < g.x || g.bottom() < target.y || target.bottom() < g.y {
        lemma_disjoint_no_intersection(g, target);
    }
}

} // verus!
