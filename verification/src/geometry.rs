//! Fixed-point coordinates, rectangles and the rounding rules of the game.
//!
//! Game space is 100 by 100 units. Every coordinate of game space is held as a
//! whole number of sub-units, `UNIT` of them to one unit, so that the paw's
//! shape (a third of 40 units wide) and the ball's speed ramp (a 250th of a
//! unit per point) are exact.

use vstd::prelude::*;
use vstd::arithmetic::div_mod::lemma_fundamental_div_mod;

verus! {

/// Sub-units in one unit of game space.
pub const UNIT: i64 = 3000;

/// Width of game space: 100 units.
pub const GAME_WIDTH: i64 = 300_000;

/// Height of game space: 100 units.
pub const GAME_HEIGHT: i64 = 300_000;

/// Largest magnitude of a coordinate that the mapping functions accept.
pub const COORD_LIMIT: i64 = 0x100_0000_0000;

/// The quotient `n / d` rounded toward zero, for a positive `d`.
pub open spec fn div_toward_zero(n: int, d: int) -> int {
    if n >= 0 {
        n / d
    } else {
        -((-n) / d)
    }
}

/// The quotient `n / d` rounded away from zero, for a positive `d`.
pub open spec fn div_away_from_zero(n: int, d: int) -> int {
    if n >= 0 {
        (n + d - 1) / d
    } else {
        -((-n + d - 1) / d)
    }
}

/// `v` held to the interval from `lo` to `hi`.
pub open spec fn clamped(v: int, lo: int, hi: int) -> int {
    if v < lo {
        lo
    } else if v > hi {
        hi
    } else {
        v
    }
}

/// A point, a size or a velocity: two coordinates.
#[derive(Clone, Copy, Debug, PartialEq, Eq)]
pub struct Vec2 {
    pub x: i64,
    pub y: i64,
}

impl Vec2 {
    /// Both coordinates are within `COORD_LIMIT` of zero.
    pub open spec fn in_range(&self) -> bool {
        &&& -COORD_LIMIT <= self.x <= COORD_LIMIT
        &&& -COORD_LIMIT <= self.y <= COORD_LIMIT
    }

    /// Whether both coordinates are within `COORD_LIMIT` of zero.
    pub fn is_in_range(&self) -> (ok: bool)
        ensures
            ok == self.in_range(),
    {
        -COORD_LIMIT <= self.x && self.x <= COORD_LIMIT && -COORD_LIMIT <= self.y && self.y
            <= COORD_LIMIT
    }
}

/// A rectangle, given by its top-left corner, its width and its height.
#[derive(Clone, Copy, Debug, PartialEq, Eq)]
pub struct Rect {
    pub x: i64,
    pub y: i64,
    pub w: i64,
    pub h: i64,
}

impl Rect {
    /// The corner is within `COORD_LIMIT` of zero and the extents are
    /// between zero and `COORD_LIMIT`.
    pub open spec fn in_range(&self) -> bool {
        &&& -COORD_LIMIT <= self.x <= COORD_LIMIT
        &&& -COORD_LIMIT <= self.y <= COORD_LIMIT
        &&& 0 <= self.w <= COORD_LIMIT
        &&& 0 <= self.h <= COORD_LIMIT
    }

    /// The rectangle lies inside game space.
    pub open spec fn in_arena(&self) -> bool {
        &&& 0 <= self.x
        &&& 0 <= self.y
        &&& 0 <= self.w
        &&& 0 <= self.h
        &&& self.x + self.w <= GAME_WIDTH
        &&& self.y + self.h <= GAME_HEIGHT
    }

    /// Horizontal coordinate of the center, rounded down.
    pub open spec fn center_x(&self) -> int {
        self.x + self.w / 2
    }

    /// Vertical coordinate of the center, rounded down.
    pub open spec fn center_y(&self) -> int {
        self.y + self.h / 2
    }

    /// Whether the point `(px, py)` lies in the rectangle, edges included.
    pub open spec fn holds(&self, px: int, py: int) -> bool {
        &&& self.x <= px <= self.x + self.w
        &&& self.y <= py <= self.y + self.h
    }

    /// The top-left corner.
    pub fn point(&self) -> (p: Vec2)
        ensures
            p.x == self.x,
            p.y == self.y,
    {
        Vec2 { x: self.x, y: self.y }
    }

    /// Width and height.
    pub fn size(&self) -> (s: Vec2)
        ensures
            s.x == self.w,
            s.y == self.h,
    {
        Vec2 { x: self.w, y: self.h }
    }

    /// The center, each coordinate rounded down.
    pub fn center(&self) -> (c: Vec2)
        requires
            self.in_range(),
        ensures
            c.x == self.center_x(),
            c.y == self.center_y(),
    {
        Vec2 { x: self.x + self.w / 2, y: self.y + self.h / 2 }
    }

    /// Whether `point` lies in the rectangle, edges included.
    pub fn contains(&self, point: Vec2) -> (inside: bool)
        requires
            self.in_range(),
        ensures
            inside == self.holds(point.x as int, point.y as int),
    {
        point.x >= self.x && point.x <= self.x + self.w && point.y <= self.y + self.h
            && point.y >= self.y
    }
}

/// `n / d` rounded toward zero.
pub fn quotient_toward_zero(n: i64, d: i64) -> (q: i64)
    requires
        d > 0,
        n > i64::MIN,
    ensures
        q == div_toward_zero(n as int, d as int),
{
    if n >= 0 {
        n / d
    } else {
        -((-n) / d)
    }
}

/// `n / d` rounded away from zero.
pub fn quotient_away_from_zero(n: i64, d: i64) -> (q: i64)
    requires
        d > 0,
        n > i64::MIN,
    ensures
        q == div_away_from_zero(n as int, d as int),
{
    let size: i64 = if n >= 0 {
        n
    } else {
        -n
    };
    proof {
        lemma_round_up(size as int, d as int);
    }
    let whole: i64 = size / d;
    let rounded: i64 = if size % d == 0 {
        whole
    } else {
        whole + 1
    };
    if n >= 0 {
        rounded
    } else {
        -rounded
    }
}

/// Rounding a quotient up adds one to the quotient rounded down, unless the
/// division leaves nothing over. The quotient rounded up is no more than
/// the dividend.
proof fn lemma_round_up(n: int, d: int)
    requires
        n >= 0,
        d > 0,
    ensures
        (n + d - 1) / d == n / d + if n % d == 0 {
            0int
        } else {
            1int
        },
        0 <= n / d <= (n + d - 1) / d <= n,
{
    lemma_fundamental_div_mod(n, d);
    lemma_fundamental_div_mod(n + d - 1, d);
    let down = n / d;
    let up = (n + d - 1) / d;
    assert(up == down + if n % d == 0 {
        0int
    } else {
        1int
    } && 0 <= down <= up <= n) by (nonlinear_arith)
        requires
            n >= 0,
            d > 0,
            n == d * down + n % d,
            0 <= n % d < d,
            n + d - 1 == d * up + (n + d - 1) % d,
            0 <= (n + d - 1) % d < d,
    ;
}

/// `v` held to the interval from `lo` to `hi`.
pub fn clamp(v: i64, lo: i64, hi: i64) -> (c: i64)
    requires
        lo <= hi,
    ensures
        c == clamped(v as int, lo as int, hi as int),
        lo <= c <= hi,
{
    if v < lo {
        lo
    } else if v > hi {
        hi
    } else {
        v
    }
}

} // verus!
