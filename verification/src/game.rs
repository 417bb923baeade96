//! The whole game and its frame: the order in which the parts are updated
//! and drawn, and what holds of every session.

use vstd::prelude::*;
use crate::ball::{speed_at, Ball, BALL_WIDTH};
use crate::game_area::GameArea;
use crate::geometry::{Rect, Vec2, GAME_HEIGHT, GAME_WIDTH};
use crate::paw::{touch_xs, Paw, PawSide};
use crate::scores::{ScoreText, Scores};

verus! {

/// The state of a game between two frames.
#[derive(Clone, Copy, Debug, PartialEq, Eq)]
pub struct Game {
    pub game_area: GameArea,
    pub left_paw: Paw,
    pub right_paw: Paw,
    pub ball: Ball,
    pub scores: Scores,
}

/// The images of the game.
#[derive(Clone, Copy, Debug, PartialEq, Eq)]
pub enum Image {
    Background,
    LeftPaw,
    RightPaw,
    Ball,
}

/// A request to draw an image into a rectangle of the screen.
#[derive(Clone, Copy, Debug, PartialEq, Eq)]
pub struct Sprite {
    pub image: Image,
    pub at: Rect,
}

/// What to draw for one frame, in screen coordinates: the images in the
/// order in which they are drawn, then the text.
#[derive(Debug, PartialEq, Eq)]
pub struct Frame {
    pub sprites: Vec<Sprite>,
    pub score_text: ScoreText,
}

/// What the host reports at the start of a frame: the size of its window and
/// the active touches, as screen points.
pub struct FrameInput {
    pub width: u32,
    pub height: u32,
    pub touches: Seq<Vec2>,
}

impl Game {
    /// Every part is well formed and each paw is on its own side.
    pub open spec fn wf(&self) -> bool {
        &&& self.game_area.wf()
        &&& self.left_paw.wf()
        &&& self.left_paw.paw_side == PawSide::Left
        &&& self.right_paw.wf()
        &&& self.right_paw.paw_side == PawSide::Right
        &&& self.ball.wf()
    }

    /// Whether every part is well formed and each paw is on its own side.
    pub fn is_wf(&self) -> (ok: bool)
        ensures
            ok == self.wf(),
    {
        self.game_area.is_wf() && self.left_paw.is_wf() && matches!(
            self.left_paw.paw_side,
            PawSide::Left
        ) && self.right_paw.is_wf() && matches!(self.right_paw.paw_side, PawSide::Right)
            && self.ball.is_wf()
    }

    /// The ball is in the arena, or outside it by no more than one frame's
    /// flight at the speed that goes with the score, and it is no faster
    /// than that.
    pub open spec fn ball_near_arena(&self) -> bool {
        let reach = speed_at(self.scores.score);
        &&& -reach <= self.ball.velocity.x <= reach
        &&& -reach <= self.ball.velocity.y <= reach
        &&& -reach <= self.ball.rect.x <= GAME_WIDTH - BALL_WIDTH + reach
        &&& -reach <= self.ball.rect.y <= GAME_HEIGHT + reach
    }

    /// A frame can be played: the game is well formed, every touch is within
    /// the coordinate limit, and the score has room for the two points that
    /// a frame can bring, unless the frame starts with a miss and brings
    /// none.
    pub open spec fn can_play(&self, touches: Seq<Vec2>) -> bool {
        &&& self.wf()
        &&& forall|i: int| 0 <= i < touches.len() ==> (#[trigger] touches[i]).in_range()
        &&& self.ball.missed() || self.scores.score <= u32::MAX - 2
    }

    /// The rectangles of the paws, left then right, as the ball meets them.
    pub open spec fn paw_rects(&self) -> Seq<Rect> {
        seq![self.left_paw.rect, self.right_paw.rect]
    }

    /// `next` is this game one frame later. The order within the frame
    /// shows in what each part is given: the paws see the viewport of this
    /// frame, the ball sees the paws where they have just moved to, and the
    /// best score sees the score that the ball has just changed.
    pub open spec fn steps_to(&self, next: Game, input: FrameInput) -> bool {
        &&& next.game_area.fits(input.width, input.height)
        &&& self.left_paw.updates_to(next.left_paw, touch_xs(input.touches, next.game_area))
        &&& self.right_paw.updates_to(next.right_paw, touch_xs(input.touches, next.game_area))
        &&& self.ball.updates_to(next.ball, next.paw_rects(), self.scores.score)
        &&& next.scores.score == self.ball.next_score(next.paw_rects(), self.scores.score)
        &&& next.scores.best_score == if next.scores.score > self.scores.best_score {
            next.scores.score
        } else {
            self.scores.best_score
        }
    }

    /// `frame` is what this state of the game looks like: the background
    /// over the viewport, on it the left paw, the right paw and the ball
    /// where the viewport shows them, and the scores.
    pub open spec fn draws(&self, frame: Frame) -> bool {
        &&& frame.sprites.len() == 4
        &&& frame.sprites[0].image == Image::Background
        &&& frame.sprites[0].at == self.game_area.rect
        &&& frame.sprites[1].image == Image::LeftPaw
        &&& self.game_area.shows(self.left_paw.rect, frame.sprites[1].at)
        &&& frame.sprites[2].image == Image::RightPaw
        &&& self.game_area.shows(self.right_paw.rect, frame.sprites[2].at)
        &&& frame.sprites[3].image == Image::Ball
        &&& self.game_area.shows(self.ball.rect, frame.sprites[3].at)
        &&& self.scores.shown_as(self.game_area, frame.score_text)
    }

    /// A game about to start: no viewport yet, both paws at rest, the ball
    /// in the middle, nothing scored.
    pub fn new() -> (game: Game)
        ensures
            game.wf(),
            game.left_paw.in_lane(),
            game.right_paw.in_lane(),
            game.ball_near_arena(),
            game.game_area.rect == (Rect { x: 0, y: 0, w: 0, h: 0 }),
            game.left_paw.paw_side == PawSide::Left,
            game.left_paw.velocity == 0,
            game.left_paw.rect.x == 75_000,
            game.right_paw.paw_side == PawSide::Right,
            game.right_paw.velocity == 0,
            game.right_paw.rect.x == 185_000,
            game.ball.rect.x == 135_000,
            game.ball.rect.y == 135_000,
            game.ball.velocity.x == 1_200,
            game.ball.velocity.y == 1_200,
            game.scores.score == 0,
            game.scores.best_score == 0,
    {
        Game {
            game_area: GameArea::new(),
            left_paw: Paw::new(PawSide::Left),
            right_paw: Paw::new(PawSide::Right),
            ball: Ball::new(),
            scores: Scores::new(),
        }
    }

    /// One frame: fits the viewport to the window, moves the left paw, then
    /// the right, then the ball against the paws where they now are, then
    /// raises the best score. What it returns shows the game as the frame
    /// leaves it.
    pub fn frame(&mut self, width: u32, height: u32, touches: &Vec<Vec2>) -> (frame: Frame)
        requires
            old(self).can_play(touches@),
        ensures
            old(self).steps_to(
                *final(self),
                (FrameInput { width, height, touches: touches@ }),
            ),
            final(self).draws(frame),
            final(self).left_paw.in_lane(),
            final(self).right_paw.in_lane(),
            final(self).scores.best_score >= old(self).scores.best_score,
            !old(self).ball.missed() ==> final(self).scores.score >= old(self).scores.score,
            old(self).ball.missed() ==> final(self).scores.score == 0,
            old(self).ball_near_arena() ==> final(self).ball_near_arena(),
            final(self).wf(),
    {
        let mut sprites: Vec<Sprite> = Vec::new();

        self.game_area.update(width, height);
        sprites.push(Sprite { image: Image::Background, at: self.game_area.draw_rect() });

        self.left_paw.update(touches, &self.game_area);
        self.right_paw.update(touches, &self.game_area);
        sprites.push(Sprite { image: Image::LeftPaw, at: self.left_paw.draw_rect(&self.game_area) });
        sprites.push(
            Sprite { image: Image::RightPaw, at: self.right_paw.draw_rect(&self.game_area) },
        );

        let mut paw_locations: Vec<Rect> = Vec::new();
        paw_locations.push(self.left_paw.rect);
        paw_locations.push(self.right_paw.rect);
        proof {
            assert(paw_locations@ =~= self.paw_rects());
            lemma_frame_scores_at_most_two(*self);
        }
        self.ball.update(paw_locations, &mut self.scores);
        sprites.push(Sprite { image: Image::Ball, at: self.ball.draw_rect(&self.game_area) });

        self.scores.update();
        let score_text: ScoreText = self.scores.draw_text(&self.game_area);

        proof {
            if old(self).ball_near_arena() {
                lemma_step_keeps_ball_near_arena(
                    *old(self),
                    *self,
                    FrameInput { width, height, touches: touches@ },
                );
            }
        }
        Frame { sprites, score_text }
    }

    /// One frame, for a host that cannot show that it can be played: plays
    /// it where it can be, and leaves the game as it is where it cannot.
    pub fn checked_frame(&mut self, width: u32, height: u32, touches: &Vec<Vec2>) -> (frame:
        Option<Frame>)
        ensures
            match frame {
                Some(frame) => {
                    &&& old(self).can_play(touches@)
                    &&& old(self).steps_to(
                        *final(self),
                        (FrameInput { width, height, touches: touches@ }),
                    )
                    &&& final(self).draws(frame)
                    &&& final(self).wf()
                },
                None => !old(self).can_play(touches@) && *final(self) == *old(self),
            },
    {
        let has_room: bool = self.ball.rect.y > GAME_HEIGHT || self.scores.score <= u32::MAX - 2;
        if !self.is_wf() || !has_room {
            return None;
        }
        let mut k: usize = 0;
        while k < touches.len()
            invariant
                0 <= k <= touches.len(),
                forall|i: int| 0 <= i < k ==> (#[trigger] touches[i]).in_range(),
            decreases touches.len() - k,
        {
            if !touches[k].is_in_range() {
                return None;
            }
            k += 1;
        }
        Some(self.frame(width, height, touches))
    }
}

/// With the paws in their lanes the ball bounces at most twice in a frame:
/// off one side wall, and off the ceiling or one paw. It is too narrow to
/// reach from one wall or one paw to the other, and the paws stand too low
/// for a ball at the ceiling.
pub proof fn lemma_frame_scores_at_most_two(game: Game)
    requires
        game.wf(),
        game.left_paw.in_lane(),
        game.right_paw.in_lane(),
    ensures
        game.ball.bounces(game.paw_rects()) <= 2,
{
    reveal_with_fuel(Ball::paw_hits_among, 3);
}

/// Frame `k` of a session leads from state `k` to state `k + 1`.
pub open spec fn follows(states: Seq<Game>, inputs: Seq<FrameInput>, k: int) -> bool {
    states[k].steps_to(states[k + 1], inputs[k])
}

/// `states` are the states that a game goes through, one frame after the
/// other, while the host reports `inputs`.
pub open spec fn is_session(states: Seq<Game>, inputs: Seq<FrameInput>) -> bool {
    &&& states.len() == inputs.len() + 1
    &&& forall|k: int| 0 <= k < inputs.len() ==> #[trigger] follows(states, inputs, k)
}

/// A frame is a function of the state it starts from and of what the host
/// reports: it can end in one state only.
pub proof fn lemma_step_is_determined(game: Game, next: Game, other: Game, input: FrameInput)
    requires
        game.steps_to(next, input),
        game.steps_to(other, input),
    ensures
        next == other,
{
}

/// A frame leaves a well-formed game well formed, with each paw in its
/// lane.
pub proof fn lemma_step_keeps_wf(game: Game, next: Game, input: FrameInput)
    requires
        game.wf(),
        game.steps_to(next, input),
    ensures
        next.wf(),
        next.left_paw.in_lane(),
        next.right_paw.in_lane(),
{
    game.left_paw.lemma_update_keeps_wf(next.left_paw, touch_xs(input.touches, next.game_area));
    game.right_paw.lemma_update_keeps_wf(next.right_paw, touch_xs(input.touches, next.game_area));
    game.ball.lemma_update_keeps_wf(next.ball, next.paw_rects(), game.scores.score);
}

/// A frame leaves the ball near the arena, if it finds it there.
pub proof fn lemma_step_keeps_ball_near_arena(game: Game, next: Game, input: FrameInput)
    requires
        game.wf(),
        game.ball_near_arena(),
        game.steps_to(next, input),
    ensures
        next.ball_near_arena(),
{
    lemma_step_keeps_wf(game, next, input);
    reveal_with_fuel(Ball::paw_hits_among, 3);
}

/// Every state of a session that starts well formed is well formed.
pub proof fn lemma_session_stays_wf(states: Seq<Game>, inputs: Seq<FrameInput>, k: int)
    requires
        is_session(states, inputs),
        states[0].wf(),
        0 <= k < states.len(),
    ensures
        states[k].wf(),
    decreases k,
{
    if k > 0 {
        lemma_session_stays_wf(states, inputs, k - 1);
        assert(follows(states, inputs, k - 1));
        lemma_step_keeps_wf(states[k - 1], states[k], inputs[k - 1]);
    }
}

/// After any number of frames the left paw is in the left half of the
/// arena and the right paw in the right half, each with its whole width.
/// Before the first frame they are where the session found them.
pub proof fn lemma_paws_stay_in_lane(states: Seq<Game>, inputs: Seq<FrameInput>, k: int)
    requires
        is_session(states, inputs),
        states[0].wf(),
        0 <= k < states.len(),
        k == 0 ==> states[0].left_paw.in_lane() && states[0].right_paw.in_lane(),
    ensures
        0 <= states[k].left_paw.rect.x <= GAME_WIDTH / 2 - states[k].left_paw.rect.w,
        GAME_WIDTH / 2 <= states[k].right_paw.rect.x <= GAME_WIDTH - states[k].right_paw.rect.w,
{
    lemma_session_stays_wf(states, inputs, k);
    if k > 0 {
        lemma_session_stays_wf(states, inputs, k - 1);
        assert(follows(states, inputs, k - 1));
        lemma_step_keeps_wf(states[k - 1], states[k], inputs[k - 1]);
    }
}

/// In a session the ball is never farther outside the arena than one
/// frame's flight at the speed that goes with the score: it is turned back
/// in the frame after it passes a wall, and sent back to the middle in the
/// frame after it passes the floor.
pub proof fn lemma_ball_stays_near_arena(states: Seq<Game>, inputs: Seq<FrameInput>, k: int)
    requires
        is_session(states, inputs),
        states[0].wf(),
        states[0].ball_near_arena(),
        0 <= k < states.len(),
    ensures
        states[k].ball_near_arena(),
    decreases k,
{
    if k > 0 {
        lemma_ball_stays_near_arena(states, inputs, k - 1);
        lemma_session_stays_wf(states, inputs, k - 1);
        assert(follows(states, inputs, k - 1));
        lemma_step_keeps_ball_near_arena(states[k - 1], states[k], inputs[k - 1]);
    }
}

/// From one miss to the next the score never goes down: where no frame
/// from state `i` to state `j` starts with the ball below the floor, the
/// score at `j` is at least the score at `i`.
pub proof fn lemma_score_grows_between_misses(
    states: Seq<Game>,
    inputs: Seq<FrameInput>,
    i: int,
    j: int,
)
    requires
        is_session(states, inputs),
        0 <= i <= j < states.len(),
        forall|k: int| i <= k < j ==> !(#[trigger] states[k]).ball.missed(),
    ensures
        states[i].scores.score <= states[j].scores.score,
    decreases j - i,
{
    if i < j {
        lemma_score_grows_between_misses(states, inputs, i, j - 1);
        assert(follows(states, inputs, j - 1));
    }
}

/// The frame that starts with the ball below the floor ends with the score
/// at nothing, whatever it was.
pub proof fn lemma_miss_resets_score(states: Seq<Game>, inputs: Seq<FrameInput>, k: int)
    requires
        is_session(states, inputs),
        0 <= k < inputs.len(),
        states[k].ball.missed(),
    ensures
        states[k + 1].scores.score == 0,
{
    assert(follows(states, inputs, k));
}

/// The best score never goes down in a session, whatever the score does.
pub proof fn lemma_best_score_never_falls(
    states: Seq<Game>,
    inputs: Seq<FrameInput>,
    i: int,
    j: int,
)
    requires
        is_session(states, inputs),
        0 <= i <= j < states.len(),
    ensures
        states[i].scores.best_score <= states[j].scores.best_score,
    decreases j - i,
{
    if i < j {
        lemma_best_score_never_falls(states, inputs, i, j - 1);
        assert(follows(states, inputs, j - 1));
    }
}

} // verus!
