use cat_ball_wow::game_area::GameArea;
use cat_ball_wow::geometry::Vec2;
use cat_ball_wow::scores::{append_decimal, ScoreText, Scores, TextColor};

#[test]
fn new_scores_are_zero() {
    assert_eq!(Scores::new(), Scores { score: 0, best_score: 0 });
}

#[test]
fn best_score_follows_a_higher_score() {
    let mut scores = Scores { score: 7, best_score: 3 };
    scores.update();
    assert_eq!(scores, Scores { score: 7, best_score: 7 });
}

#[test]
fn best_score_stays_above_a_lower_score() {
    let mut scores = Scores { score: 0, best_score: 3 };
    scores.update();
    assert_eq!(scores, Scores { score: 0, best_score: 3 });
    let mut scores = Scores { score: 3, best_score: 3 };
    scores.update();
    assert_eq!(scores, Scores { score: 3, best_score: 3 });
}

#[test]
fn best_score_never_goes_down() {
    let mut scores = Scores::new();
    let mut best_so_far = 0;
    for score in [0u32, 3, 5, 0, 2, 9, 9, 0, u32::MAX, 0] {
        scores.score = score;
        scores.update();
        assert!(scores.best_score >= best_so_far);
        assert!(scores.best_score >= score);
        assert_eq!(scores.score, score);
        best_so_far = scores.best_score;
    }
    assert_eq!(scores.best_score, u32::MAX);
}

#[test]
fn score_text_is_laid_out_in_the_viewport() {
    let mut game_area = GameArea::new();
    game_area.update(800, 600);
    let text = Scores { score: 4, best_score: 11 }.draw_text(&game_area);
    assert_eq!(
        text,
        ScoreText {
            score_line: String::from("Score: 4"),
            score_at: Vec2 { x: 130, y: 60 },
            best_score_line: String::from("Best Score: 11"),
            best_score_at: Vec2 { x: 130, y: 105 },
            font_size: 60,
            color: TextColor::Black,
        }
    );
}

#[test]
fn score_lines_show_the_numbers_in_decimal() {
    let mut game_area = GameArea::new();
    game_area.update(640, 480);
    for n in [0u32, 1, 9, 10, 11, 99, 100, 101, 909, 1_000, 65_535, 1_000_000, 4_294_967_295] {
        let text = Scores { score: n, best_score: u32::MAX - n }.draw_text(&game_area);
        assert_eq!(text.score_line, format!("Score: {}", n));
        assert_eq!(text.best_score_line, format!("Best Score: {}", u32::MAX - n));
    }
}

#[test]
fn decimal_is_appended_to_what_is_there() {
    let mut text = String::from("x");
    append_decimal(&mut text, 0);
    assert_eq!(text, "x0");
    append_decimal(&mut text, 120);
    assert_eq!(text, "x0120");
    append_decimal(&mut text, 4_294_967_295);
    assert_eq!(text, "x01204294967295");
}

#[test]
fn score_text_in_an_empty_viewport_has_no_size() {
    let text = Scores::new().draw_text(&GameArea::new());
    assert_eq!(text.font_size, 0);
    assert_eq!(text.score_at, Vec2 { x: 0, y: 0 });
    assert_eq!(text.best_score_at, Vec2 { x: 0, y: 0 });
}
