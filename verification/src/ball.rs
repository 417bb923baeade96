//! The ball: it bounces off the side walls, the ceiling and the paws, gets
//! faster with every point, and starts over from the middle when it is
//! missed.

use vstd::prelude::*;
use crate::game_area::GameArea;
use crate::geometry::{Rect, Vec2, GAME_HEIGHT, GAME_WIDTH};
use crate::scores::Scores;

verus! {

/// Width of the ball: 10 units.
pub const BALL_WIDTH: i64 = 30_000;

/// Height of the ball: 10 units.
pub const BALL_HEIGHT: i64 = 30_000;

/// Speed of the ball along each axis at the start of a round: 0.4 units a
/// frame.
pub const BASE_BALL_VELOCITY: i64 = 1_200;

/// Speed of the ball at the highest score that can be held.
pub const MAX_BALL_SPEED: i64 = 51_539_608_752;

/// Speed that a bounce gives the ball while the score is `score`: the base
/// speed, and a hundredth of it more for every point and one.
pub open spec fn speed_at(score: u32) -> int {
    BASE_BALL_VELOCITY + BASE_BALL_VELOCITY * (score + 1) / 100
}

/// One for a bounce that happened, nothing for one that did not.
pub open spec fn one_if(happened: bool) -> nat {
    if happened {
        1
    } else {
        0
    }
}

/// The ball: its rectangle in game space and its velocity in sub-units a
/// frame.
#[derive(Clone, Copy, Debug, PartialEq, Eq)]
pub struct Ball {
    pub rect: Rect,
    pub velocity: Vec2,
}

impl Ball {
    /// The ball has its fixed shape, is no faster than `MAX_BALL_SPEED`, and
    /// is in the arena or at most one frame's flight outside it.
    pub open spec fn wf(&self) -> bool {
        &&& self.rect.w == BALL_WIDTH
        &&& self.rect.h == BALL_HEIGHT
        &&& -MAX_BALL_SPEED <= self.velocity.x <= MAX_BALL_SPEED
        &&& -MAX_BALL_SPEED <= self.velocity.y <= MAX_BALL_SPEED
        &&& -MAX_BALL_SPEED <= self.rect.x <= GAME_WIDTH - BALL_WIDTH + MAX_BALL_SPEED
        &&& -BALL_HEIGHT - MAX_BALL_SPEED <= self.rect.y <= GAME_HEIGHT + MAX_BALL_SPEED
    }

    /// Whether the ball has its fixed shape, is no faster than
    /// `MAX_BALL_SPEED`, and is at most one frame's flight outside the
    /// arena.
    pub fn is_wf(&self) -> (ok: bool)
        ensures
            ok == self.wf(),
    {
        self.rect.w == BALL_WIDTH && self.rect.h == BALL_HEIGHT && -MAX_BALL_SPEED
            <= self.velocity.x && self.velocity.x <= MAX_BALL_SPEED && -MAX_BALL_SPEED
            <= self.velocity.y && self.velocity.y <= MAX_BALL_SPEED && -MAX_BALL_SPEED
            <= self.rect.x && self.rect.x <= GAME_WIDTH - BALL_WIDTH + MAX_BALL_SPEED
            && -BALL_HEIGHT - MAX_BALL_SPEED <= self.rect.y && self.rect.y <= GAME_HEIGHT
            + MAX_BALL_SPEED
    }

    /// The left edge is past the left wall.
    pub open spec fn hits_left_wall(&self) -> bool {
        self.rect.x < 0
    }

    /// The right edge is past the right wall.
    pub open spec fn hits_right_wall(&self) -> bool {
        self.rect.x + self.rect.w > GAME_WIDTH
    }

    /// The top edge is past the ceiling.
    pub open spec fn hits_ceiling(&self) -> bool {
        self.rect.y < 0
    }

    /// The ball's rectangle holds the center of the paw at `paw`. Only the
    /// center counts, not the rest of the paw.
    pub open spec fn hits_paw(&self, paw: Rect) -> bool {
        self.rect.holds(paw.center_x(), paw.center_y())
    }

    /// How many of the first `n` paws the ball hits.
    pub open spec fn paw_hits_among(&self, paws: Seq<Rect>, n: nat) -> nat
        decreases n,
    {
        if n == 0 {
            0
        } else {
            self.paw_hits_among(paws, (n - 1) as nat) + one_if(self.hits_paw(paws[n - 1]))
        }
    }

    /// How many of the paws the ball hits.
    pub open spec fn paw_hits(&self, paws: Seq<Rect>) -> nat {
        self.paw_hits_among(paws, paws.len())
    }

    /// The top edge is below the floor: the ball was missed.
    pub open spec fn missed(&self) -> bool {
        self.rect.y > GAME_HEIGHT
    }

    /// Bounces in one frame: one for each wall and each paw hit.
    pub open spec fn bounces(&self, paws: Seq<Rect>) -> nat {
        one_if(self.hits_left_wall()) + one_if(self.hits_right_wall()) + one_if(
            self.hits_ceiling(),
        ) + self.paw_hits(paws)
    }

    /// Score after a frame that began with `score`: nothing after a miss,
    /// else a point more for every bounce.
    pub open spec fn next_score(&self, paws: Seq<Rect>, score: u32) -> int {
        if self.missed() {
            0
        } else {
            score + self.bounces(paws)
        }
    }

    /// Horizontal velocity after a frame that began with `score`.
    pub open spec fn next_velocity_x(&self, score: u32) -> int {
        if self.missed() {
            BASE_BALL_VELOCITY as int
        } else if self.hits_right_wall() {
            -speed_at(score)
        } else if self.hits_left_wall() {
            speed_at(score)
        } else {
            self.velocity.x as int
        }
    }

    /// Vertical velocity after a frame that began with `score`.
    pub open spec fn next_velocity_y(&self, paws: Seq<Rect>, score: u32) -> int {
        if self.missed() {
            BASE_BALL_VELOCITY as int
        } else if self.paw_hits(paws) > 0 {
            -speed_at(score)
        } else if self.hits_ceiling() {
            speed_at(score)
        } else {
            self.velocity.y as int
        }
    }

    /// Horizontal position after a frame that began with `score`: one step
    /// of the new velocity, from the middle after a miss.
    pub open spec fn next_x(&self, score: u32) -> int {
        if self.missed() {
            GAME_WIDTH / 2 - BALL_WIDTH / 2 + self.next_velocity_x(score)
        } else {
            self.rect.x + self.next_velocity_x(score)
        }
    }

    /// Vertical position after a frame that began with `score`: one step of
    /// the new velocity, from the middle after a miss.
    pub open spec fn next_y(&self, paws: Seq<Rect>, score: u32) -> int {
        if self.missed() {
            GAME_HEIGHT / 2 - BALL_HEIGHT / 2 + self.next_velocity_y(paws, score)
        } else {
            self.rect.y + self.next_velocity_y(paws, score)
        }
    }

    /// `next` is this ball one frame later, after a frame that began with
    /// `score` and the paws at `paws`.
    pub open spec fn updates_to(&self, next: Ball, paws: Seq<Rect>, score: u32) -> bool {
        &&& next.velocity.x == self.next_velocity_x(score)
        &&& next.velocity.y == self.next_velocity_y(paws, score)
        &&& next.rect.x == self.next_x(score)
        &&& next.rect.y == self.next_y(paws, score)
        &&& next.rect.w == self.rect.w
        &&& next.rect.h == self.rect.h
    }

    /// The ball in the middle of the arena, on its way down and to the
    /// right at the base speed.
    pub fn new() -> (ball: Ball)
        ensures
            ball.wf(),
            ball.rect.x == GAME_WIDTH / 2 - BALL_WIDTH / 2,
            ball.rect.y == GAME_HEIGHT / 2 - BALL_HEIGHT / 2,
            ball.velocity.x == BASE_BALL_VELOCITY,
            ball.velocity.y == BASE_BALL_VELOCITY,
    {
        Ball {
            rect: Rect {
                x: GAME_WIDTH / 2 - BALL_WIDTH / 2,
                y: GAME_HEIGHT / 2 - BALL_HEIGHT / 2,
                w: BALL_WIDTH,
                h: BALL_HEIGHT,
            },
            velocity: Vec2 { x: BASE_BALL_VELOCITY, y: BASE_BALL_VELOCITY },
        }
    }

    /// One frame of the ball. Every wall and every paw that it hits turns
    /// it back at the speed that goes with the score the frame began with,
    /// and scores a point. A miss sends it back to the middle at the base
    /// speed with the score at nothing, whatever the score was. Then it
    /// moves by its velocity.
    pub fn update(&mut self, paw_locations: Vec<Rect>, scores: &mut Scores)
        requires
            old(self).wf(),
            forall|i: int| 0 <= i < paw_locations.len() ==> (#[trigger] paw_locations[i]).in_arena(),
            !old(self).missed() ==> old(scores).score + old(self).bounces(paw_locations@)
                <= u32::MAX,
        ensures
            old(self).updates_to(*final(self), paw_locations@, old(scores).score),
            final(scores).score == old(self).next_score(paw_locations@, old(scores).score),
            final(scores).best_score == old(scores).best_score,
            !old(self).missed() ==> final(scores).score >= old(scores).score,
            old(self).missed() ==> final(scores).score == 0,
            final(self).wf(),
    {
        let ghost paws = paw_locations@;
        let ghost walls = one_if(self.hits_left_wall()) + one_if(self.hits_right_wall()) + one_if(
            self.hits_ceiling(),
        );
        let ball_velocity: i64 = BASE_BALL_VELOCITY + BASE_BALL_VELOCITY * (scores.score as i64
            + 1) / 100;
        // The points of a frame that ends in a miss are never seen.
        let missed: bool = self.rect.y > GAME_HEIGHT;
        if self.rect.x < 0 {
            self.velocity.x = ball_velocity;
            if !missed {
                scores.score += 1;
            }
        }
        if self.rect.x + self.rect.w > GAME_WIDTH {
            self.velocity.x = -ball_velocity;
            if !missed {
                scores.score += 1;
            }
        }
        if self.rect.y < 0 {
            self.velocity.y = ball_velocity;
            if !missed {
                scores.score += 1;
            }
        }
        let mut k: usize = 0;
        while k < paw_locations.len()
            invariant
                0 <= k <= paw_locations.len(),
                paws == paw_locations@,
                forall|i: int| 0 <= i < paws.len() ==> (#[trigger] paws[i]).in_arena(),
                self.rect == old(self).rect,
                old(self).wf(),
                missed == old(self).missed(),
                old(self).hits_right_wall() ==> self.velocity.x == -ball_velocity,
                !old(self).hits_right_wall() && old(self).hits_left_wall() ==> self.velocity.x
                    == ball_velocity,
                !old(self).hits_right_wall() && !old(self).hits_left_wall() ==> self.velocity.x
                    == old(self).velocity.x,
                ball_velocity == speed_at(old(scores).score),
                scores.best_score == old(scores).best_score,
                !missed ==> scores.score == old(scores).score + walls + old(self).paw_hits_among(
                    paws,
                    k as nat,
                ),
                !missed ==> old(scores).score + walls + old(self).paw_hits(paws) <= u32::MAX,
                old(self).paw_hits_among(paws, k as nat) > 0 ==> self.velocity.y == -ball_velocity
                    && self.rect.y >= -BALL_HEIGHT,
                old(self).paw_hits_among(paws, k as nat) == 0 && old(self).hits_ceiling()
                    ==> self.velocity.y == ball_velocity,
                old(self).paw_hits_among(paws, k as nat) == 0 && !old(self).hits_ceiling()
                    ==> self.velocity.y == old(self).velocity.y,
            decreases paw_locations.len() - k,
        {
            let center: Vec2 = paw_locations[k].center();
            proof {
                old(self).lemma_paw_hits_grow(paws, (k + 1) as nat, paws.len());
            }
            if self.rect.contains(center) {
                self.velocity.y = -ball_velocity;
                if !missed {
                    scores.score += 1;
                }
            }
            k += 1;
        }
        if missed {
            self.rect.x = GAME_WIDTH / 2 - BALL_WIDTH / 2;
            self.rect.y = GAME_HEIGHT / 2 - BALL_HEIGHT / 2;
            self.velocity = Vec2 { x: BASE_BALL_VELOCITY, y: BASE_BALL_VELOCITY };
            scores.score = 0;
        }
        self.rect.x = self.rect.x + self.velocity.x;
        self.rect.y = self.rect.y + self.velocity.y;
    }

    /// Where to draw the ball.
    pub fn draw_rect(&self, game_area: &GameArea) -> (on_screen: Rect)
        requires
            self.wf(),
            game_area.wf(),
        ensures
            game_area.shows(self.rect, on_screen),
    {
        game_area.rect_to_screen(self.rect)
    }

    /// A frame leaves a well-formed ball well formed, where the paws are in
    /// the arena: the ball leaves the arena by no more than a frame's
    /// flight.
    pub proof fn lemma_update_keeps_wf(&self, next: Ball, paws: Seq<Rect>, score: u32)
        requires
            self.wf(),
            forall|i: int| 0 <= i < paws.len() ==> (#[trigger] paws[i]).in_arena(),
            self.updates_to(next, paws, score),
        ensures
            next.wf(),
    {
        self.lemma_paw_hit_is_low(paws, paws.len());
    }

    /// A ball that hits a paw in the arena has its lower edge at the
    /// ceiling or below.
    proof fn lemma_paw_hit_is_low(&self, paws: Seq<Rect>, n: nat)
        requires
            n <= paws.len(),
            forall|i: int| 0 <= i < paws.len() ==> (#[trigger] paws[i]).in_arena(),
        ensures
            self.paw_hits_among(paws, n) > 0 ==> self.rect.y + self.rect.h >= 0,
        decreases n,
    {
        if n > 0 {
            self.lemma_paw_hit_is_low(paws, (n - 1) as nat);
        }
    }

    /// A frame has at most one bounce for each paw, one for the ceiling and
    /// one for a side wall: the ball is too narrow to be past both. A score
    /// with room for that many points has room for any frame.
    pub proof fn lemma_bounces_bounded(&self, paws: Seq<Rect>)
        requires
            self.wf(),
        ensures
            self.bounces(paws) <= 2 + paws.len(),
    {
        self.lemma_paw_hits_bounded(paws, paws.len());
    }

    /// Among `n` paws at most `n` are hit.
    proof fn lemma_paw_hits_bounded(&self, paws: Seq<Rect>, n: nat)
        ensures
            self.paw_hits_among(paws, n) <= n,
        decreases n,
    {
        if n > 0 {
            self.lemma_paw_hits_bounded(paws, (n - 1) as nat);
        }
    }

    /// The count of paws hit grows with the number of paws looked at.
    proof fn lemma_paw_hits_grow(&self, paws: Seq<Rect>, few: nat, many: nat)
        requires
            few <= many,
        ensures
            self.paw_hits_among(paws, few) <= self.paw_hits_among(paws, many),
        decreases many,
    {
        if few < many {
            self.lemma_paw_hits_grow(paws, few, (many - 1) as nat);
        }
    }
}

} // verus!
