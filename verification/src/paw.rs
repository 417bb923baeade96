//! The paws: two paddles that slide along the bottom of the arena, each in
//! its own half, toward the nearest touch on that half.

use vstd::prelude::*;
use crate::game_area::GameArea;
use crate::geometry::{
    clamp, clamped, div_away_from_zero, div_toward_zero, quotient_away_from_zero,
    quotient_toward_zero, Rect, Vec2, GAME_HEIGHT, GAME_WIDTH, UNIT,
};

verus! {

/// Pull of a touch that is the width of the arena away: 5 units a frame,
/// every frame. A nearer touch pulls less, in proportion.
pub const PAW_ACCELERATION: i64 = 15_000;

/// Friction takes one part in this many of a paw's velocity each frame.
pub const PAW_FRICTION_DIVISOR: i64 = 5;

/// Width of a paw: a third of 40 units.
pub const PAW_WIDTH: i64 = 40_000;

/// Height of a paw: 20 units.
pub const PAW_HEIGHT: i64 = 60_000;

/// No paw moves faster than 25 units a frame: at that speed friction takes
/// as much as the farthest touch can add.
pub const MAX_PAW_SPEED: i64 = 75_000;

/// Which half of the arena a paw keeps to.
#[derive(Clone, Copy, Debug, PartialEq, Eq)]
pub enum PawSide {
    Left,
    Right,
}

impl PawSide {
    /// Leftmost position of a paw of this side.
    pub open spec fn lane_start(self) -> int {
        match self {
            PawSide::Left => 0,
            PawSide::Right => GAME_WIDTH / 2,
        }
    }

    /// Rightmost position of a paw of this side.
    pub open spec fn lane_end(self) -> int {
        match self {
            PawSide::Left => GAME_WIDTH / 2 - PAW_WIDTH,
            PawSide::Right => GAME_WIDTH - PAW_WIDTH,
        }
    }

    /// Whether a touch at the game coordinate `x` steers the paw of this
    /// side: it lies in the arena and strictly in the paw's half.
    pub open spec fn steered_by(self, x: int) -> bool {
        &&& 0 <= x <= GAME_WIDTH
        &&& match self {
            PawSide::Left => x < GAME_WIDTH / 2,
            PawSide::Right => x > GAME_WIDTH / 2,
        }
    }
}

/// The horizontal game coordinates of the touches, in the order given.
pub open spec fn touch_xs(touches: Seq<Vec2>, game_area: GameArea) -> Seq<int> {
    Seq::new(touches.len(), |i: int| game_area.game_x(touches[i].x as int))
}

/// A paw: its rectangle in game space, its horizontal velocity in sub-units
/// a frame, and its side.
#[derive(Clone, Copy, Debug, PartialEq, Eq)]
pub struct Paw {
    pub rect: Rect,
    pub velocity: i64,
    pub paw_side: PawSide,
}

impl Paw {
    /// The paw has its fixed shape, stands on the floor of the arena, and
    /// is no faster than `MAX_PAW_SPEED`.
    pub open spec fn wf(&self) -> bool {
        &&& self.rect.w == PAW_WIDTH
        &&& self.rect.h == PAW_HEIGHT
        &&& self.rect.y == GAME_HEIGHT - PAW_HEIGHT
        &&& 0 <= self.rect.x <= GAME_WIDTH - PAW_WIDTH
        &&& -MAX_PAW_SPEED <= self.velocity <= MAX_PAW_SPEED
    }

    /// Whether the paw has its fixed shape, stands on the floor of the
    /// arena, and is no faster than `MAX_PAW_SPEED`.
    pub fn is_wf(&self) -> (ok: bool)
        ensures
            ok == self.wf(),
    {
        self.rect.w == PAW_WIDTH && self.rect.h == PAW_HEIGHT && self.rect.y == GAME_HEIGHT
            - PAW_HEIGHT && 0 <= self.rect.x && self.rect.x <= GAME_WIDTH - PAW_WIDTH
            && -MAX_PAW_SPEED <= self.velocity && self.velocity <= MAX_PAW_SPEED
    }

    /// The paw is in its own half of the arena with its whole width.
    pub open spec fn in_lane(&self) -> bool {
        self.paw_side.lane_start() <= self.rect.x <= self.paw_side.lane_end()
    }

    /// Distance from the paw's center to the game coordinate `x`.
    pub open spec fn distance(&self, x: int) -> int {
        if x >= self.rect.center_x() {
            x - self.rect.center_x()
        } else {
            self.rect.center_x() - x
        }
    }

    /// The touch at index `i` is the one the paw follows: it steers this
    /// paw, no steering touch is nearer, and none as near comes before it.
    pub open spec fn is_nearest(&self, xs: Seq<int>, i: int) -> bool {
        &&& 0 <= i < xs.len()
        &&& self.paw_side.steered_by(xs[i])
        &&& forall|j: int|
            0 <= j < xs.len() && self.paw_side.steered_by(#[trigger] xs[j]) ==> {
                ||| self.distance(xs[i]) < self.distance(xs[j])
                ||| (self.distance(xs[i]) == self.distance(xs[j]) && i <= j)
            }
    }

    /// Acceleration toward the touch that the paw follows: proportional to
    /// the signed distance, rounded toward zero; zero without such a touch.
    pub open spec fn pull(&self, xs: Seq<int>) -> int {
        if exists|i: int| self.is_nearest(xs, i) {
            let i = choose|i: int| self.is_nearest(xs, i);
            div_toward_zero(
                PAW_ACCELERATION * (xs[i] - self.rect.center_x()),
                GAME_WIDTH as int,
            )
        } else {
            0
        }
    }

    /// Acceleration from friction: against the velocity, a fifth of it,
    /// rounded away from zero so that a coasting paw comes to rest.
    pub open spec fn friction(&self) -> int {
        -div_away_from_zero(self.velocity as int, PAW_FRICTION_DIVISOR as int)
    }

    /// Acceleration of the paw in a frame with touches at `xs`.
    pub open spec fn acceleration(&self, xs: Seq<int>) -> int {
        self.pull(xs) + self.friction()
    }

    /// Velocity after a frame with touches at `xs`.
    pub open spec fn next_velocity(&self, xs: Seq<int>) -> int {
        self.velocity + self.acceleration(xs)
    }

    /// Position after a frame with touches at `xs`: moved by the new
    /// velocity and half the acceleration, then held to the lane.
    pub open spec fn next_x(&self, xs: Seq<int>) -> int {
        clamped(
            self.rect.x + self.next_velocity(xs) + div_toward_zero(self.acceleration(xs), 2),
            self.paw_side.lane_start(),
            self.paw_side.lane_end(),
        )
    }

    /// `next` is this paw one frame later, after touches at `xs`.
    pub open spec fn updates_to(&self, next: Paw, xs: Seq<int>) -> bool {
        &&& next.velocity == self.next_velocity(xs)
        &&& next.rect.x == self.next_x(xs)
        &&& next.rect.y == self.rect.y
        &&& next.rect.w == self.rect.w
        &&& next.rect.h == self.rect.h
        &&& next.paw_side == self.paw_side
    }

    /// A paw at rest on the floor of the arena: the left one with its left
    /// edge 25 units in, the right one with its right edge 75 units in.
    pub fn new(paw_side: PawSide) -> (paw: Paw)
        ensures
            paw.wf(),
            paw.in_lane(),
            paw.paw_side == paw_side,
            paw.velocity == 0,
            paw.rect.x == match paw_side {
                PawSide::Left => 25 * UNIT,
                PawSide::Right => 75 * UNIT - PAW_WIDTH,
            },
    {
        Paw {
            rect: Rect {
                x: match paw_side {
                    PawSide::Left => 25 * UNIT,
                    PawSide::Right => 75 * UNIT - PAW_WIDTH,
                },
                y: GAME_HEIGHT - PAW_HEIGHT,
                w: PAW_WIDTH,
                h: PAW_HEIGHT,
            },
            velocity: 0,
            paw_side,
        }
    }

    /// The game coordinate of the touch that the paw follows, if any touch
    /// steers it. `touches` are screen points.
    pub fn nearest_touch(&self, touches: &Vec<Vec2>, game_area: &GameArea) -> (nearest: Option<i64>)
        requires
            self.wf(),
            game_area.wf(),
            forall|i: int| 0 <= i < touches.len() ==> (#[trigger] touches[i]).in_range(),
        ensures
            match nearest {
                Some(x) => exists|i: int|
                    self.is_nearest(touch_xs(touches@, *game_area), i) && touch_xs(
                        touches@,
                        *game_area,
                    )[i] == x,
                None => forall|i: int|
                    0 <= i < touches.len() ==> !self.paw_side.steered_by(
                        #[trigger] touch_xs(touches@, *game_area)[i],
                    ),
            },
    {
        let ghost xs = touch_xs(touches@, *game_area);
        let center: i64 = self.rect.center().x;
        let mut nearest: Option<i64> = None;
        let mut smallest_distance: i64 = 0;
        let ghost mut at: int = 0;
        let mut k: usize = 0;
        while k < touches.len()
            invariant
                0 <= k <= touches.len(),
                self.wf(),
                game_area.wf(),
                forall|i: int| 0 <= i < touches.len() ==> (#[trigger] touches[i]).in_range(),
                xs == touch_xs(touches@, *game_area),
                center == self.rect.center_x(),
                nearest is None ==> forall|j: int|
                    0 <= j < k ==> !self.paw_side.steered_by(#[trigger] xs[j]),
                nearest matches Some(x) ==> {
                    &&& 0 <= at < k
                    &&& xs[at] == x
                    &&& self.paw_side.steered_by(xs[at])
                    &&& smallest_distance == self.distance(xs[at])
                    &&& forall|j: int|
                        0 <= j < k && self.paw_side.steered_by(#[trigger] xs[j]) ==> {
                            ||| self.distance(xs[at]) < self.distance(xs[j])
                            ||| (self.distance(xs[at]) == self.distance(xs[j]) && at <= j)
                        }
                },
            decreases touches.len() - k,
        {
            let touch: Vec2 = game_area.screen_to_game(touches[k]);
            let steers: bool = touch.x >= 0 && touch.x <= GAME_WIDTH && match self.paw_side {
                PawSide::Left => touch.x < GAME_WIDTH / 2,
                PawSide::Right => touch.x > GAME_WIDTH / 2,
            };
            if steers {
                let distance: i64 = if touch.x >= center {
                    touch.x - center
                } else {
                    center - touch.x
                };
                if nearest.is_none() || distance < smallest_distance {
                    smallest_distance = distance;
                    nearest = Some(touch.x);
                    proof {
                        at = k as int;
                    }
                }
            }
            k += 1;
        }
        nearest
    }

    /// One frame of the paw: it accelerates toward the nearest touch on its
    /// half, friction slows it, it moves, and it is held to its lane.
    /// `touches` are the active touches, as screen points.
    pub fn update(&mut self, touches: &Vec<Vec2>, game_area: &GameArea)
        requires
            old(self).wf(),
            game_area.wf(),
            forall|i: int| 0 <= i < touches.len() ==> (#[trigger] touches[i]).in_range(),
        ensures
            old(self).updates_to(*final(self), touch_xs(touches@, *game_area)),
            final(self).in_lane(),
            final(self).wf(),
    {
        let ghost xs = touch_xs(touches@, *game_area);
        let center: i64 = self.rect.center().x;
        let mut paw_acceleration: i64 = match self.nearest_touch(touches, game_area) {
            Some(x) => {
                proof {
                    let i = choose|i: int| self.is_nearest(xs, i) && xs[i] == x;
                    self.lemma_nearest_is_unique(xs, i, choose|i: int| self.is_nearest(xs, i));
                }
                quotient_toward_zero(PAW_ACCELERATION * (x - center), GAME_WIDTH)
            },
            None => 0,
        };
        paw_acceleration = paw_acceleration - quotient_away_from_zero(
            self.velocity,
            PAW_FRICTION_DIVISOR,
        );
        self.velocity = self.velocity + paw_acceleration;
        let moved: i64 = self.rect.x + self.velocity + quotient_toward_zero(paw_acceleration, 2);
        match self.paw_side {
            PawSide::Left => {
                self.rect.x = clamp(moved, 0, GAME_WIDTH / 2 - self.rect.w);
            },
            PawSide::Right => {
                self.rect.x = clamp(moved, GAME_WIDTH / 2, GAME_WIDTH - self.rect.w);
            },
        }
    }

    /// Where to draw the paw.
    pub fn draw_rect(&self, game_area: &GameArea) -> (on_screen: Rect)
        requires
            self.wf(),
            game_area.wf(),
        ensures
            game_area.shows(self.rect, on_screen),
    {
        game_area.rect_to_screen(self.rect)
    }

    /// A frame leaves a well-formed paw well formed, and in its lane
    /// wherever it was before.
    pub proof fn lemma_update_keeps_wf(&self, next: Paw, xs: Seq<int>)
        requires
            self.wf(),
            self.updates_to(next, xs),
        ensures
            next.wf(),
            next.in_lane(),
    {
    }

    /// At most one touch is the nearest.
    pub proof fn lemma_nearest_is_unique(&self, xs: Seq<int>, i: int, j: int)
        requires
            self.is_nearest(xs, i),
            self.is_nearest(xs, j),
        ensures
            i == j,
    {
    }
}

} // verus!
