//! Points, rectangles and the closed-interval overlap test that decides which
//! cells of the grid are on screen.

use vstd::prelude::*;

verus! {

/// A position or an extent on the integer layout grid.
#[derive(Clone, Copy, Debug, PartialEq, Eq, Structural)]
pub struct Vec2 {
    pub x: i64,
    pub y: i64,
}

/// An axis-aligned rectangle: the corner with the smallest coordinates, and
/// the extent from there along both axes.
#[derive(Clone, Copy, Debug, PartialEq, Eq, Structural)]
pub struct Rect {
    pub origin: Vec2,
    pub size: Vec2,
}

/// A rectangle over the mathematical integers, where sums never overflow.
pub ghost struct Region {
    pub x: int,
    pub y: int,
    pub width: int,
    pub height: int,
}

impl Region {
    /// The same rectangle moved by `(dx, dy)`.
    pub open spec fn translate(self, dx: int, dy: int) -> Region {
        Region { x: self.x + dx, y: self.y + dy, width: self.width, height: self.height }
    }

    /// Whether `(px, py)` lies in the rectangle, borders included.
    pub open spec fn holds(self, px: int, py: int) -> bool {
        &&& self.x <= px <= self.x + self.width
        &&& self.y <= py <= self.y + self.height
    }

    /// Closed-interval intersection on both axes: the rectangles overlap when
    /// neither starts beyond the far edge of the other.
    pub open spec fn overlaps(self, other: Region) -> bool {
        &&& self.x <= other.x + other.width
        &&& self.x + self.width >= other.x
        &&& self.y <= other.y + other.height
        &&& self.y + self.height >= other.y
    }
}

impl View for Rect {
    type V = Region;

    open spec fn view(&self) -> Region {
        Region {
            x: self.origin.x as int,
            y: self.origin.y as int,
            width: self.size.x as int,
            height: self.size.y as int,
        }
    }
}

impl Vec2 {
    pub fn new(x: i64, y: i64) -> (r: Vec2)
        ensures
            r.x == x,
            r.y == y,
    {
        Vec2 { x, y }
    }
}

/// The coordinate nearest to `v`: `v` itself wherever it fits.
pub open spec fn clamp_coord(v: int) -> i64 {
    if v < i64::MIN {
        i64::MIN
    } else if v > i64::MAX {
        i64::MAX
    } else {
        v as i64
    }
}

/// Brings a wide intermediate result back onto the grid, saturating at the
/// two ends of the coordinate range.
pub fn saturate(v: i128) -> (r: i64)
    ensures
        r == clamp_coord(v as int),
{
    if v < i64::MIN as i128 {
        i64::MIN
    } else if v > i64::MAX as i128 {
        i64::MAX
    } else {
        v as i64
    }
}

/// Whether `rect` is at least partly inside `viewport`.
pub fn is_visible(rect: &Rect, viewport: &Rect) -> (r: bool)
    ensures
        r == rect@.overlaps(viewport@),
{
    let far_x: i128 = viewport.origin.x as i128 + viewport.size.x as i128;
    let far_y: i128 = viewport.origin.y as i128 + viewport.size.y as i128;
    let end_x: i128 = rect.origin.x as i128 + rect.size.x as i128;
    let end_y: i128 = rect.origin.y as i128 + rect.size.y as i128;
    rect.origin.x as i128 <= far_x && end_x >= viewport.origin.x as i128
        && rect.origin.y as i128 <= far_y && end_y >= viewport.origin.y as i128
}

/// Visibility does not depend on where the origin of the grid is: moving the
/// rectangle and the viewport by the same vector leaves the answer unchanged.
pub proof fn lemma_visible_translation(rect: Region, viewport: Region, dx: int, dy: int)
    ensures
        rect.translate(dx, dy).overlaps(viewport.translate(dx, dy)) == rect.overlaps(viewport),
{
}

/// The overlap test is symmetric in its two rectangles.
pub proof fn lemma_visible_symmetric(a: Region, b: Region)
    ensures
        a.overlaps(b) == b.overlaps(a),
{
}

/// For rectangles of non-negative extent the test is exact: they overlap
/// precisely when some point lies in both, borders included.
pub proof fn lemma_visible_iff_common_point(a: Region, b: Region)
    requires
        a.width >= 0,
        a.height >= 0,
        b.width >= 0,
        b.height >= 0,
    ensures
        a.overlaps(b) <==> exists|px: int, py: int| a.holds(px, py) && b.holds(px, py),
{
    if a.overlaps(b) {
        let px = if a.x >= b.x { a.x } else { b.x };
        let py = if a.y >= b.y { a.y } else { b.y };
        assert(a.holds(px, py) && b.holds(px, py));
    }
}

} // verus!
