//! The viewport: where on the screen game space is shown, and the two
//! transforms between game space and the screen.
//!
//! Screen coordinates are whole numbers of whatever unit the host measures
//! its window in. The finer that unit, the less a point loses on its way to
//! the screen and back.

use vstd::prelude::*;
use vstd::arithmetic::div_mod::lemma_fundamental_div_mod;
use crate::geometry::{Rect, Vec2, COORD_LIMIT, GAME_HEIGHT, GAME_WIDTH};

verus! {

/// How a point of game space is taken to the screen.
#[derive(Clone, Copy, Debug, PartialEq, Eq)]
pub enum TranslateType {
    /// Scale, then move by the viewport's origin: for positions.
    Normal,
    /// Scale only: for sizes.
    JustScale,
}

/// The square of the screen in which game space is shown.
#[derive(Clone, Copy, Debug, PartialEq, Eq)]
pub struct GameArea {
    pub rect: Rect,
}

/// The smaller of two window extents.
pub open spec fn min_axis(width: u32, height: u32) -> int {
    if width <= height {
        width as int
    } else {
        height as int
    }
}

/// `rect` is a square of side `min(width, height)` in the middle of a window
/// of `width` by `height`: the margins on opposite sides differ by at most
/// one screen unit, which they must when an odd number is left to share.
pub open spec fn centered_square(rect: Rect, width: u32, height: u32) -> bool {
    &&& rect.w == min_axis(width, height)
    &&& rect.h == min_axis(width, height)
    &&& 0 <= rect.x
    &&& 0 <= rect.y
    &&& -1 <= rect.x - (width - rect.x - rect.w) <= 1
    &&& -1 <= rect.y - (height - rect.y - rect.h) <= 1
}

impl GameArea {
    /// The viewport is a square that a window with `u32` extents can hold.
    pub open spec fn wf(&self) -> bool {
        &&& 0 <= self.rect.x <= u32::MAX
        &&& 0 <= self.rect.y <= u32::MAX
        &&& 0 <= self.rect.w <= u32::MAX
        &&& self.rect.h == self.rect.w
    }

    /// Whether the viewport is a square that a window with `u32` extents can
    /// hold.
    pub fn is_wf(&self) -> (ok: bool)
        ensures
            ok == self.wf(),
    {
        let limit: i64 = u32::MAX as i64;
        0 <= self.rect.x && self.rect.x <= limit && 0 <= self.rect.y && self.rect.y <= limit && 0
            <= self.rect.w && self.rect.w <= limit && self.rect.h == self.rect.w
    }

    /// A horizontal extent of game space, in screen units, rounded down.
    pub open spec fn scale_x(&self, x: int) -> int {
        x * self.rect.w / (GAME_WIDTH as int)
    }

    /// A vertical extent of game space, in screen units, rounded down.
    pub open spec fn scale_y(&self, y: int) -> int {
        y * self.rect.h / (GAME_HEIGHT as int)
    }

    /// Where the horizontal game coordinate `x` is shown on the screen.
    pub open spec fn screen_x(&self, x: int) -> int {
        self.scale_x(x) + self.rect.x
    }

    /// Where the vertical game coordinate `y` is shown on the screen.
    pub open spec fn screen_y(&self, y: int) -> int {
        self.scale_y(y) + self.rect.y
    }

    /// The horizontal game coordinate shown at screen coordinate `sx`,
    /// rounded down; zero while the viewport has no width.
    pub open spec fn game_x(&self, sx: int) -> int {
        if self.rect.w == 0 {
            0
        } else {
            (sx - self.rect.x) * GAME_WIDTH / (self.rect.w as int)
        }
    }

    /// The vertical game coordinate shown at screen coordinate `sy`,
    /// rounded down; zero while the viewport has no height.
    pub open spec fn game_y(&self, sy: int) -> int {
        if self.rect.h == 0 {
            0
        } else {
            (sy - self.rect.y) * GAME_HEIGHT / (self.rect.h as int)
        }
    }

    /// The viewport is the one that `update` gives a window of `width` by
    /// `height`.
    pub open spec fn fits(&self, width: u32, height: u32) -> bool {
        &&& self.rect.w == min_axis(width, height)
        &&& self.rect.h == min_axis(width, height)
        &&& self.rect.x == width / 2 - min_axis(width, height) / 2
        &&& self.rect.y == height / 2 - min_axis(width, height) / 2
    }

    /// `on_screen` is where the rectangle `rect` of game space is shown: its
    /// corner taken to the screen as a position, its extents as sizes.
    pub open spec fn shows(&self, rect: Rect, on_screen: Rect) -> bool {
        &&& on_screen.x == self.screen_x(rect.x as int)
        &&& on_screen.y == self.screen_y(rect.y as int)
        &&& on_screen.w == self.scale_x(rect.w as int)
        &&& on_screen.h == self.scale_y(rect.h as int)
    }

    /// A viewport of no size at the screen's origin, as it is before the
    /// first frame.
    pub fn new() -> (area: GameArea)
        ensures
            area.rect == (Rect { x: 0, y: 0, w: 0, h: 0 }),
            area.wf(),
    {
        GameArea { rect: Rect { x: 0, y: 0, w: 0, h: 0 } }
    }

    /// Fits the viewport to a window of `width` by `height` screen units.
    pub fn update(&mut self, width: u32, height: u32)
        ensures
            final(self).fits(width, height),
            centered_square(final(self).rect, width, height),
            final(self).wf(),
    {
        let min_axis: u32 = if width <= height { width } else { height };
        let side: i64 = min_axis as i64;
        self.rect.x = (width as i64) / 2 - side / 2;
        self.rect.y = (height as i64) / 2 - side / 2;
        self.rect.w = side;
        self.rect.h = side;
    }

    /// Where to draw the background: the viewport itself.
    pub fn draw_rect(&self) -> (on_screen: Rect)
        ensures
            on_screen == self.rect,
    {
        self.rect
    }

    /// Where to draw what fills the rectangle `rect` of game space.
    pub fn rect_to_screen(&self, rect: Rect) -> (on_screen: Rect)
        requires
            self.wf(),
            rect.in_range(),
        ensures
            self.shows(rect, on_screen),
    {
        let screen_size: Vec2 = self.game_to_screen(rect.size(), TranslateType::JustScale);
        let screen_position: Vec2 = self.game_to_screen(rect.point(), TranslateType::Normal);
        Rect { x: screen_position.x, y: screen_position.y, w: screen_size.x, h: screen_size.y }
    }

    /// Takes a point of game space to the screen.
    pub fn game_to_screen(&self, game_point: Vec2, translate_type: TranslateType) -> (screen_point: Vec2)
        requires
            self.wf(),
            game_point.in_range(),
        ensures
            translate_type == TranslateType::Normal ==> screen_point.x == self.screen_x(
                game_point.x as int,
            ) && screen_point.y == self.screen_y(game_point.y as int),
            translate_type == TranslateType::JustScale ==> screen_point.x == self.scale_x(
                game_point.x as int,
            ) && screen_point.y == self.scale_y(game_point.y as int),
    {
        let scaled_x: i64 = scaled(game_point.x, self.rect.w, GAME_WIDTH);
        let scaled_y: i64 = scaled(game_point.y, self.rect.h, GAME_HEIGHT);
        match translate_type {
            TranslateType::Normal => Vec2 { x: scaled_x + self.rect.x, y: scaled_y + self.rect.y },
            TranslateType::JustScale => Vec2 { x: scaled_x, y: scaled_y },
        }
    }

    /// Takes a point of the screen to game space. A viewport of no size
    /// takes every point to the origin.
    pub fn screen_to_game(&self, screen_point: Vec2) -> (game_point: Vec2)
        requires
            self.wf(),
            screen_point.in_range(),
        ensures
            game_point.x == self.game_x(screen_point.x as int),
            game_point.y == self.game_y(screen_point.y as int),
    {
        let x: i64 = if self.rect.w == 0 {
            0
        } else {
            scaled(screen_point.x - self.rect.x, GAME_WIDTH, self.rect.w)
        };
        let y: i64 = if self.rect.h == 0 {
            0
        } else {
            scaled(screen_point.y - self.rect.y, GAME_HEIGHT, self.rect.h)
        };
        Vec2 { x, y }
    }
}

/// `v * num / den`, rounded down. One of `num` and `den` is an extent of
/// game space, which keeps the quotient in range.
fn scaled(v: i64, num: i64, den: i64) -> (r: i64)
    requires
        -2 * COORD_LIMIT <= v <= 2 * COORD_LIMIT,
        0 <= num <= u32::MAX,
        0 < den <= u32::MAX,
        num <= GAME_WIDTH || den >= GAME_WIDTH,
    ensures
        r == v * num / (den as int),
        -2 * GAME_WIDTH * COORD_LIMIT <= r <= 2 * GAME_WIDTH * COORD_LIMIT,
{
    let wide_v: i128 = v as i128;
    let wide_num: i128 = num as i128;
    let wide_den: i128 = den as i128;
    assert(-0x200_0000_0000 * wide_num <= wide_v * wide_num <= 0x200_0000_0000 * wide_num)
        by (nonlinear_arith)
        requires
            -0x200_0000_0000 <= wide_v <= 0x200_0000_0000,
            0 <= wide_num,
    ;
    let product: i128 = wide_v * wide_num;
    let quotient: i128 = if product >= 0 {
        product / wide_den
    } else {
        -((-product + wide_den - 1) / wide_den)
    };
    proof {
        if product < 0 {
            lemma_floor_of_negative(product as int, wide_den as int);
        }
        lemma_fundamental_div_mod(product as int, wide_den as int);
        let q = product as int / wide_den as int;
        assert(-600_000 * 0x100_0000_0000 <= q <= 600_000 * 0x100_0000_0000) by (nonlinear_arith)
            requires
                0 < wide_den,
                0 <= wide_num <= 0x1_0000_0000,
                wide_num <= 300_000 || wide_den >= 300_000,
                -0x200_0000_0000 * wide_num <= product <= 0x200_0000_0000 * wide_num,
                product == wide_den * q + (product as int) % (wide_den as int),
                0 <= (product as int) % (wide_den as int) < wide_den,
        ;
    }
    quotient as i64
}

/// Rounding down a negative quotient: round its opposite up and negate.
proof fn lemma_floor_of_negative(n: int, d: int)
    requires
        d > 0,
        n < 0,
    ensures
        n / d == -((-n + d - 1) / d),
{
    let up = (-n + d - 1) / d;
    lemma_fundamental_div_mod(-n + d - 1, d);
    lemma_fundamental_div_mod(n, d);
    assert(n / d == -up) by (nonlinear_arith)
        requires
            d > 0,
            -n + d - 1 == d * up + (-n + d - 1) % d,
            0 <= (-n + d - 1) % d < d,
            n == d * (n / d) + n % d,
            0 <= n % d < d,
    ;
}

/// A point taken to the screen and back never moves right, and moves left
/// by less than one screen unit's worth of game space plus one sub-unit:
/// `(x - back) * width < GAME_WIDTH + width`. Where the viewport is at least
/// as many screen units wide as game space is sub-units wide, that is one
/// sub-unit at most.
pub proof fn lemma_round_trip_x(area: GameArea, x: int)
    requires
        area.rect.w > 0,
    ensures
        area.game_x(area.screen_x(x)) <= x,
        (x - area.game_x(area.screen_x(x))) * area.rect.w < GAME_WIDTH + area.rect.w,
        area.rect.w >= GAME_WIDTH ==> x - area.game_x(area.screen_x(x)) <= 1,
{
    lemma_there_and_back(x, area.rect.w as int, GAME_WIDTH as int);
}

/// A point taken to the screen and back never moves down, and moves up by
/// less than one screen unit's worth of game space plus one sub-unit:
/// `(y - back) * height < GAME_HEIGHT + height`. Where the viewport is at
/// least as many screen units high as game space is sub-units high, that is
/// one sub-unit at most.
pub proof fn lemma_round_trip_y(area: GameArea, y: int)
    requires
        area.rect.h > 0,
    ensures
        area.game_y(area.screen_y(y)) <= y,
        (y - area.game_y(area.screen_y(y))) * area.rect.h < GAME_HEIGHT + area.rect.h,
        area.rect.h >= GAME_HEIGHT ==> y - area.game_y(area.screen_y(y)) <= 1,
{
    lemma_there_and_back(y, area.rect.h as int, GAME_HEIGHT as int);
}

/// Scaling down by `side / whole` and up again by `whole / side`, each
/// rounded down.
proof fn lemma_there_and_back(x: int, side: int, whole: int)
    requires
        side > 0,
        whole > 0,
    ensures
        (x * side / whole) * whole / side <= x,
        (x - (x * side / whole) * whole / side) * side < whole + side,
        side >= whole ==> x - (x * side / whole) * whole / side <= 1,
{
    let there = x * side / whole;
    let back = there * whole / side;
    lemma_fundamental_div_mod(x * side, whole);
    lemma_fundamental_div_mod(there * whole, side);
    assert((x - back) * side == (x * side) % whole + (there * whole) % side) by (nonlinear_arith)
        requires
            x * side == whole * there + (x * side) % whole,
            there * whole == side * back + (there * whole) % side,
    ;
    assert(back <= x) by (nonlinear_arith)
        requires
            (x - back) * side >= 0,
            side > 0,
    ;
    assert(side >= whole ==> x - back <= 1) by (nonlinear_arith)
        requires
            (x - back) * side < whole + side,
            side > 0,
    ;
}

} // verus!
