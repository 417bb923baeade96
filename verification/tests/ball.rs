use cat_ball_wow::ball::Ball;
use cat_ball_wow::game_area::GameArea;
use cat_ball_wow::geometry::{Rect, Vec2};
use cat_ball_wow::paw::{Paw, PawSide};
use cat_ball_wow::scores::Scores;

fn ball(x: i64, y: i64, vx: i64, vy: i64) -> Ball {
    Ball { rect: Rect { x, y, w: 30_000, h: 30_000 }, velocity: Vec2 { x: vx, y: vy } }
}

fn scores(score: u32) -> Scores {
    Scores { score, best_score: 50 }
}

fn both_paws() -> Vec<Rect> {
    vec![Paw::new(PawSide::Left).rect, Paw::new(PawSide::Right).rect]
}

#[test]
fn new_ball_starts_in_the_middle() {
    let ball = Ball::new();
    assert_eq!(ball.rect, Rect { x: 135_000, y: 135_000, w: 30_000, h: 30_000 });
    assert_eq!(ball.velocity, Vec2 { x: 1_200, y: 1_200 });
}

#[test]
fn balls_near_the_arena_are_well_formed() {
    let fastest: i64 = 51_539_608_752;
    assert!(Ball::new().is_wf());
    assert!(ball(0, 150_000, -1_200, 0).is_wf());
    assert!(ball(20_000, 300_001, -2_000, 2_000).is_wf());
    assert!(ball(-fastest, -30_000 - fastest, fastest, -fastest).is_wf());
    assert!(ball(270_000 + fastest, 300_000 + fastest, -fastest, fastest).is_wf());
    assert!(!ball(-fastest - 1, 0, 0, 0).is_wf());
    assert!(!ball(270_001 + fastest, 0, 0, 0).is_wf());
    assert!(!ball(0, -30_001 - fastest, 0, 0).is_wf());
    assert!(!ball(0, 300_001 + fastest, 0, 0).is_wf());
    assert!(!ball(0, 0, fastest + 1, 0).is_wf());
    assert!(!ball(0, 0, 0, -fastest - 1).is_wf());
    let mut wider = Ball::new();
    wider.rect.w += 1;
    assert!(!wider.is_wf());
    let mut taller = Ball::new();
    taller.rect.h -= 1;
    assert!(!taller.is_wf());
}

#[test]
fn ball_in_free_flight_moves_by_its_velocity() {
    let mut ball = Ball::new();
    let mut scores = scores(3);
    ball.update(both_paws(), &mut scores);
    assert_eq!(ball.rect, Rect { x: 136_200, y: 136_200, w: 30_000, h: 30_000 });
    assert_eq!(ball.velocity, Vec2 { x: 1_200, y: 1_200 });
    assert_eq!(scores, Scores { score: 3, best_score: 50 });
}

#[test]
fn ball_at_the_left_wall_bounces_at_the_ramped_speed() {
    // At (0, 50) moving left at 0.4: the left edge is at the wall, not yet
    // past it, so this frame only moves the ball.
    let mut ball = ball(0, 150_000, -1_200, 0);
    let mut scores = scores(0);
    ball.update(vec![], &mut scores);
    assert_eq!(ball.rect.x, -1_200);
    assert_eq!(ball.velocity, Vec2 { x: -1_200, y: 0 });
    assert_eq!(scores.score, 0);
    // Now it is past the wall: 0.4 + 0.4 * 1 / 100 = 0.404.
    ball.update(vec![], &mut scores);
    assert_eq!(ball.velocity, Vec2 { x: 1_212, y: 0 });
    assert_eq!(scores.score, 1);
    assert_eq!(ball.rect.x, 12);
    assert_eq!(ball.rect.y, 150_000);
}

#[test]
fn ball_just_past_the_left_wall_bounces_at_once() {
    let mut ball = ball(-1, 150_000, -1_200, 0);
    let mut scores = scores(0);
    ball.update(vec![], &mut scores);
    assert_eq!(ball.velocity, Vec2 { x: 1_212, y: 0 });
    assert_eq!(scores.score, 1);
    assert_eq!(ball.rect.x, 1_211);
}

#[test]
fn ball_past_the_right_wall_bounces_back() {
    let mut ball = ball(270_001, 150_000, 1_300, 7);
    let mut scores = scores(9);
    ball.update(both_paws(), &mut scores);
    assert_eq!(ball.velocity, Vec2 { x: -1_320, y: 7 });
    assert_eq!(ball.rect.x, 268_681);
    assert_eq!(ball.rect.y, 150_007);
    assert_eq!(scores.score, 10);
}

#[test]
fn ball_touching_the_right_wall_does_not_bounce_yet() {
    let mut ball = ball(270_000, 150_000, 1_300, 0);
    let mut scores = scores(9);
    ball.update(both_paws(), &mut scores);
    assert_eq!(ball.velocity, Vec2 { x: 1_300, y: 0 });
    assert_eq!(ball.rect.x, 271_300);
    assert_eq!(scores.score, 9);
}

#[test]
fn ball_past_the_ceiling_bounces_down() {
    let mut ball = ball(100_000, -1, 5, -1_200);
    let mut scores = scores(0);
    ball.update(both_paws(), &mut scores);
    assert_eq!(ball.velocity, Vec2 { x: 5, y: 1_212 });
    assert_eq!(ball.rect.y, 1_211);
    assert_eq!(scores.score, 1);
}

#[test]
fn ball_at_the_ceiling_does_not_bounce_yet() {
    let mut ball = ball(100_000, 0, 0, -1_200);
    let mut scores = scores(0);
    ball.update(both_paws(), &mut scores);
    assert_eq!(ball.velocity, Vec2 { x: 0, y: -1_200 });
    assert_eq!(scores.score, 0);
}

#[test]
fn speed_grows_by_a_hundredth_of_the_base_for_every_point() {
    for (score, speed) in [(0u32, 1_212i64), (1, 1_224), (49, 1_800), (99, 2_400), (999, 13_200)] {
        let mut ball = ball(-1, 150_000, -1_200, 0);
        let mut scores = scores(score);
        ball.update(vec![], &mut scores);
        assert_eq!(ball.velocity.x, speed);
        assert_eq!(scores.score, score + 1);
    }
}

#[test]
fn speed_at_the_highest_score_that_can_still_grow() {
    let mut ball = ball(-1, 150_000, -1_200, 0);
    let mut scores = Scores { score: u32::MAX - 1, best_score: 0 };
    ball.update(vec![], &mut scores);
    assert_eq!(ball.velocity.x, 51_539_608_740);
    assert_eq!(ball.rect.x, 51_539_608_739);
    assert_eq!(scores.score, u32::MAX);
}

#[test]
fn ball_over_the_center_of_a_paw_bounces_up() {
    let mut ball = ball(80_000, 245_000, 300, 1_200);
    let mut scores = scores(0);
    ball.update(both_paws(), &mut scores);
    assert_eq!(ball.velocity, Vec2 { x: 300, y: -1_212 });
    assert_eq!(ball.rect, Rect { x: 80_300, y: 243_788, w: 30_000, h: 30_000 });
    assert_eq!(scores.score, 1);
}

#[test]
fn ball_over_a_paw_but_not_its_center_falls_on() {
    // The left paw spans 75000 to 115000 with its center at 95000.
    let mut ball = ball(95_001, 245_000, 0, 1_200);
    let mut scores = scores(0);
    ball.update(both_paws(), &mut scores);
    assert_eq!(ball.velocity, Vec2 { x: 0, y: 1_200 });
    assert_eq!(scores.score, 0);
}

#[test]
fn center_of_a_paw_on_the_edge_of_the_ball_counts() {
    // Center of the left paw: (95000, 270000).
    for (x, y) in [(95_000i64, 270_000i64), (65_000, 240_000), (95_000, 240_000), (65_000, 270_000)] {
        let mut ball = ball(x, y, 0, 1_200);
        let mut scores = scores(0);
        ball.update(both_paws(), &mut scores);
        assert_eq!(ball.velocity.y, -1_212);
        assert_eq!(scores.score, 1);
    }
    for (x, y) in [(95_001i64, 270_000i64), (64_999, 240_000), (95_000, 239_999), (65_000, 270_001)] {
        let mut ball = ball(x, y, 0, 1_200);
        let mut scores = scores(0);
        ball.update(both_paws(), &mut scores);
        assert_eq!(ball.velocity.y, 1_200);
        assert_eq!(scores.score, 0);
    }
}

#[test]
fn center_of_an_odd_paw_is_rounded_down() {
    let odd = Rect { x: 10, y: 10, w: 5, h: 5 };
    let mut ball = ball(-29_988, -29_988, 0, 0);
    let mut scores = scores(0);
    // The ball ends at 12, the center of the paw is at 12. The ball is also
    // past the left wall and the ceiling.
    ball.update(vec![odd], &mut scores);
    assert_eq!(scores.score, 3);
    let mut ball = ball_at_minus_29_989();
    let mut scores = self::scores(0);
    ball.update(vec![odd], &mut scores);
    assert_eq!(scores.score, 2);
}

fn ball_at_minus_29_989() -> Ball {
    ball(-29_989, -29_989, 0, 0)
}

#[test]
fn every_paw_that_is_hit_scores() {
    let paw = Paw::new(PawSide::Left).rect;
    let mut ball = ball(80_000, 245_000, 0, 1_200);
    let mut scores = scores(10);
    ball.update(vec![paw, Paw::new(PawSide::Right).rect, paw], &mut scores);
    assert_eq!(scores.score, 12);
    // The speed is that of the score at the start of the frame.
    assert_eq!(ball.velocity.y, -1_332);
}

#[test]
fn wall_ceiling_and_paw_in_one_frame_score_three() {
    let paw = Rect { x: 0, y: 0, w: 20_000, h: 20_000 };
    let mut ball = ball(-1, -1, -1_200, -1_200);
    let mut scores = scores(5);
    ball.update(vec![paw], &mut scores);
    assert_eq!(scores.score, 8);
    // Every bounce of the frame uses the speed for a score of 5; the paw
    // has the last word on the vertical direction.
    assert_eq!(ball.velocity, Vec2 { x: 1_272, y: -1_272 });
    assert_eq!(ball.rect, Rect { x: 1_271, y: -1_273, w: 30_000, h: 30_000 });
}

#[test]
fn missed_ball_starts_over_whatever_the_score() {
    for score in [0u32, 1, 41, 1_000_000, u32::MAX - 2, u32::MAX] {
        let mut ball = ball(20_000, 300_001, -2_000, 2_000);
        let mut scores = scores(score);
        ball.update(both_paws(), &mut scores);
        // Back to (45, 45) at the base speed, and one step on from there.
        assert_eq!(ball.velocity, Vec2 { x: 1_200, y: 1_200 });
        assert_eq!(ball.rect, Rect { x: 136_200, y: 136_200, w: 30_000, h: 30_000 });
        assert_eq!(scores, Scores { score: 0, best_score: 50 });
    }
}

#[test]
fn missed_ball_past_a_wall_still_starts_over() {
    for score in [7u32, u32::MAX - 1, u32::MAX] {
        for x in [-5i64, 270_005] {
            let mut ball = ball(x, 300_001, -2_000, 2_000);
            let mut scores = scores(score);
            ball.update(both_paws(), &mut scores);
            assert_eq!(ball.velocity, Vec2 { x: 1_200, y: 1_200 });
            assert_eq!(ball.rect, Rect { x: 136_200, y: 136_200, w: 30_000, h: 30_000 });
            assert_eq!(scores, Scores { score: 0, best_score: 50 });
        }
    }
}

#[test]
fn ball_is_missed_only_when_its_top_edge_is_below_the_floor() {
    // Lower edge below the floor, top edge above it.
    let mut ball = ball(20_000, 285_000, 0, 1_500);
    let mut scores = scores(7);
    ball.update(both_paws(), &mut scores);
    assert_eq!(ball.rect.y, 286_500);
    assert_eq!(scores.score, 7);
    // Top edge on the floor.
    let mut ball = self::ball(20_000, 300_000, 0, 1_500);
    ball.update(both_paws(), &mut scores);
    assert_eq!(ball.rect.y, 301_500);
    assert_eq!(scores.score, 7);
    // Top edge below it.
    ball.update(both_paws(), &mut scores);
    assert_eq!(ball.rect.y, 136_200);
    assert_eq!(scores.score, 0);
}

#[test]
fn ball_never_touches_the_best_score() {
    let mut scores = Scores { score: 60, best_score: 50 };
    let mut ball = ball(-1, -1, 0, 0);
    ball.update(both_paws(), &mut scores);
    assert_eq!(scores, Scores { score: 62, best_score: 50 });
}

#[test]
fn ball_is_drawn_where_the_viewport_shows_it() {
    let mut game_area = GameArea::new();
    game_area.update(800, 600);
    assert_eq!(Ball::new().draw_rect(&game_area), Rect { x: 370, y: 270, w: 60, h: 60 });
    let outside = ball(-1_200, -600, 0, 0);
    assert_eq!(outside.draw_rect(&game_area), Rect { x: 97, y: -2, w: 60, h: 60 });
}
