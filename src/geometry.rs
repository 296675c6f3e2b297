use vstd::prelude::*;

verus! {

/// Bound on the magnitude of coordinates handed to [`point_in_rect`]; every
/// rectangle derived from `i32` widget geometry stays far below it.
pub const COORD_LIMIT: i64 = 0x100_0000_0000;

/// An axis-aligned rectangle in integer layout units: `x`, `y` is the corner
/// with the smallest coordinates, `width` and `height` extend from it.
#[derive(Clone, Copy, Debug, PartialEq, Eq, Structural)]
pub struct Rect {
    pub x: i32,
    pub y: i32,
    pub width: i32,
    pub height: i32,
}

/// Whether the point lies in the half-open rectangle
/// `[x, x + w) × [y, y + h)`.
pub open spec fn spec_in_rect(px: int, py: int, x: int, y: int, w: int, h: int) -> bool {
    x <= px < x + w && y <= py < y + h
}

pub open spec fn spec_contains(r: Rect, px: int, py: int) -> bool {
    spec_in_rect(px, py, r.x as int, r.y as int, r.width as int, r.height as int)
}

pub open spec fn within_limit(v: i64) -> bool {
    -COORD_LIMIT <= v <= COORD_LIMIT
}

/// Hit test of a point against a rectangle given by its four coordinates.
pub fn point_in_rect(px: i32, py: i32, x: i64, y: i64, w: i64, h: i64) -> (r: bool)
    requires
        within_limit(x),
        within_limit(y),
        within_limit(w),
        within_limit(h),
    ensures
        r == spec_in_rect(px as int, py as int, x as int, y as int, w as int, h as int),
{
    let px: i64 = px as i64;
    let py: i64 = py as i64;
    x <= px && px < x + w && y <= py && py < y + h
}

impl Rect {
    pub fn new(x: i32, y: i32, width: i32, height: i32) -> (r: Rect)
        ensures
            r == (Rect { x, y, width, height }),
    {
        Rect { x, y, width, height }
    }

    /// Hit test of a point against this rectangle.
    pub fn contains(&self, px: i32, py: i32) -> (r: bool)
        ensures
            r == spec_contains(*self, px as int, py as int),
    {
        point_in_rect(px, py, self.x as i64, self.y as i64, self.width as i64, self.height as i64)
    }
}

/// Uniform access to a widget's rectangle, whatever the kind of widget.
pub trait Bounds {
    spec fn spec_bounds(&self) -> Rect;

    fn bounds(&self) -> (r: Rect)
        ensures
            r == self.spec_bounds(),
    ;
}

/// `a / b` rounded towards negative infinity, for a positive divisor.
pub fn floor_div(a: i64, b: i64) -> (r: i64)
    requires
        b > 0,
    ensures
        r == a / b,
{
    if a >= 0 {
        a / b
    } else {
        let n: i64 = -(a + 1);
        let q: i64 = n / b;
        proof {
            let qi: int = q as int;
            let ri: int = n - b * qi;
            assert(0 <= ri < b) by (nonlinear_arith)
                requires
                    qi == n / b,
                    ri == n - b * qi,
                    b > 0,
                    n >= 0,
            ;
            assert(a == b * (-qi - 1) + (b - 1 - ri)) by (nonlinear_arith)
                requires
                    n == -(a + 1),
                    ri == n - b * qi,
            ;
            vstd::arithmetic::div_mod::lemma_fundamental_div_mod_converse(
                a as int,
                b as int,
                -qi - 1,
                b - 1 - ri,
            );
        }
        -q - 1
    }
}

} // verus!
