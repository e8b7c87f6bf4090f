use vstd::prelude::*;

verus! {

/// An axis-aligned rectangle: `x`, `y` place its top-left corner, `w` and `h`
/// give its extent. A zero width or height denotes an empty area.
#[derive(Clone, Copy, Debug, PartialEq, Eq, Structural)]
pub struct Rect {
    pub x: i32,
    pub y: i32,
    pub w: u32,
    pub h: u32,
}

impl Rect {
    /// Right edge (exclusive).
    pub open spec fn right(self) -> int {
        self.x + self.w
    }

    /// Bottom edge (exclusive).
    pub open spec fn bottom(self) -> int {
        self.y + self.h
    }

    /// The point `(px, py)` lies inside the rectangle.
    pub open spec fn contains(self, px: int, py: int) -> bool {
        self.x <= px < self.right() && self.y <= py < self.bottom()
    }
}

pub open spec fn max_int(a: int, b: int) -> int {
    if a >= b { a } else { b }
}

pub open spec fn min_int(a: int, b: int) -> int {
    if a <= b { a } else { b }
}

/// The overlap of `a` and `b`, or `None` where it has no area.
pub open spec fn overlap(a: Rect, b: Rect) -> Option<Rect> {
    let x = max_int(a.x as int, b.x as int);
    let y = max_int(a.y as int, b.y as int);
    let r = min_int(a.right(), b.right());
    let btm = min_int(a.bottom(), b.bottom());
    if r - x <= 0 || btm - y <= 0 {
        None
    } else {
        Some(Rect { x: x as i32, y: y as i32, w: (r - x) as u32, h: (btm - y) as u32 })
    }
}

impl Rect {
    /// The overlapping rectangle of `self` and `other`, both in one coordinate
    /// space; `None` when they do not overlap or only touch along an edge.
    pub fn intersection(&self, other: &Rect) -> (r: Option<Rect>)
        ensures
            r == overlap(*self, *other),
    {
        let x: i64 = if self.x >= other.x { self.x as i64 } else { other.x as i64 };
        let y: i64 = if self.y >= other.y { self.y as i64 } else { other.y as i64 };
        let ar: i64 = self.x as i64 + self.w as i64;
        let br: i64 = other.x as i64 + other.w as i64;
        let ab: i64 = self.y as i64 + self.h as i64;
        let bb: i64 = other.y as i64 + other.h as i64;
        let r: i64 = if ar <= br { ar } else { br };
        let b: i64 = if ab <= bb { ab } else { bb };
        if r - x <= 0 || b - y <= 0 {
            None
        } else {
            Some(Rect { x: x as i32, y: y as i32, w: (r - x) as u32, h: (b - y) as u32 })
        }
    }
}

/// A rectangle placed relative to a window's top-left corner. Inside the
/// window its offsets are never negative.
#[derive(Clone, Copy, Debug, PartialEq, Eq, Structural)]
pub struct LocalRect {
    pub x: u32,
    pub y: u32,
    pub w: u32,
    pub h: u32,
}

/// `r` seen from the top-left corner of `origin`; `None` where `r` starts
/// left of or above that corner.
pub open spec fn relative(r: Rect, origin: Rect) -> Option<LocalRect> {
    if r.x < origin.x || r.y < origin.y {
        None
    } else {
        Some(LocalRect { x: (r.x - origin.x) as u32, y: (r.y - origin.y) as u32, w: r.w, h: r.h })
    }
}

impl Rect {
    /// Translates `self` into the coordinates of `origin`'s top-left corner.
    pub fn relative_to(&self, origin: &Rect) -> (r: Option<LocalRect>)
        ensures
            r == relative(*self, *origin),
    {
        if self.x < origin.x || self.y < origin.y {
            None
        } else {
            let dx: i64 = self.x as i64 - origin.x as i64;
            let dy: i64 = self.y as i64 - origin.y as i64;
            Some(LocalRect { x: dx as u32, y: dy as u32, w: self.w, h: self.h })
        }
    }
}

/// Intersection does not depend on the order of its operands.
pub proof fn lemma_intersection_commutative(a: Rect, b: Rect)
    ensures
        overlap(a, b) == overlap(b, a),
{
}

/// A rectangle with a non-empty area intersects itself in exactly itself.
pub proof fn lemma_intersection_self(a: Rect)
    requires
        a.w > 0,
        a.h > 0,
    ensures
        overlap(a, a) == Some(a),
{
}

/// Rectangles separated by a gap along either axis have no intersection.
pub proof fn lemma_disjoint_no_intersection(a: Rect, b: Rect)
    requires
        a.right() < b.x || b.right() < a.x || a.bottom() < b.y || b.bottom() < a.y,
    ensures
        overlap(a, b) is None,
{
}

/// Rectangles that only share a boundary line have no intersection.
pub proof fn lemma_edge_touching_no_intersection(a: Rect, b: Rect)
    requires
        a.right() == b.x || b.right() == a.x || a.bottom() == b.y || b.bottom() == a.y,
    ensures
        overlap(a, b) is None,
{
}

/// A point lies in the intersection exactly when it lies in both rectangles.
pub proof fn lemma_intersection_points(a: Rect, b: Rect, px: int, py: int)
    ensures
        (a.contains(px, py) && b.contains(px, py)) <==> (match overlap(a, b) {
            Some(r) => r.contains(px, py),
            None => false,
        }),
{
}

} // verus!
