//! The score of the round being played and the best score of the session.

use vstd::prelude::*;
use crate::game_area::{GameArea, TranslateType};
use crate::geometry::Vec2;

verus! {

/// Both lines of text start 5 units in from the left.
pub const TEXT_X: i64 = 15_000;

/// The line with the score stands 10 units down.
pub const SCORE_Y: i64 = 30_000;

/// The line with the best score stands 17.5 units down.
pub const BEST_SCORE_Y: i64 = 52_500;

/// Height of the text: 10 units.
pub const TEXT_SIZE: i64 = 30_000;

/// The colours that text is written in.
#[derive(Clone, Copy, Debug, PartialEq, Eq)]
pub enum TextColor {
    Black,
}

/// A request to write two lines of text: what they say, where on the screen
/// each starts, how large they are and in which colour.
#[derive(Debug, PartialEq, Eq)]
pub struct ScoreText {
    pub score_line: String,
    pub score_at: Vec2,
    pub best_score_line: String,
    pub best_score_at: Vec2,
    pub font_size: i64,
    pub color: TextColor,
}

/// The character for a single digit.
pub open spec fn digit(d: nat) -> char {
    if d == 0 {
        '0'
    } else if d == 1 {
        '1'
    } else if d == 2 {
        '2'
    } else if d == 3 {
        '3'
    } else if d == 4 {
        '4'
    } else if d == 5 {
        '5'
    } else if d == 6 {
        '6'
    } else if d == 7 {
        '7'
    } else if d == 8 {
        '8'
    } else {
        '9'
    }
}

/// `n` written in decimal, without leading zeros.
pub open spec fn decimal(n: nat) -> Seq<char>
    decreases n,
{
    if n < 10 {
        seq![digit(n)]
    } else {
        decimal(n / 10).push(digit(n % 10))
    }
}

/// The line that shows the score: `Score: ` and the number.
pub open spec fn score_line(score: u32) -> Seq<char> {
    seq!['S', 'c', 'o', 'r', 'e', ':', ' '] + decimal(score as nat)
}

/// The line that shows the best score: `Best Score: ` and the number.
pub open spec fn best_score_line(best_score: u32) -> Seq<char> {
    seq!['B', 'e', 's', 't', ' ', 'S', 'c', 'o', 'r', 'e', ':', ' '] + decimal(best_score as nat)
}

/// A single digit as text.
fn digit_str(d: u32) -> (s: &'static str)
    requires
        d < 10,
    ensures
        s@ == seq![digit(d as nat)],
{
    proof {
        reveal_strlit("0");
        reveal_strlit("1");
        reveal_strlit("2");
        reveal_strlit("3");
        reveal_strlit("4");
        reveal_strlit("5");
        reveal_strlit("6");
        reveal_strlit("7");
        reveal_strlit("8");
        reveal_strlit("9");
    }
    match d {
        0 => "0",
        1 => "1",
        2 => "2",
        3 => "3",
        4 => "4",
        5 => "5",
        6 => "6",
        7 => "7",
        8 => "8",
        _ => "9",
    }
}

/// `n` written in decimal, appended to `text`.
pub fn append_decimal(text: &mut String, n: u32)
    ensures
        final(text)@ == old(text)@ + decimal(n as nat),
    decreases n,
{
    if n >= 10 {
        append_decimal(text, n / 10);
    }
    text.append(digit_str(n % 10));
}

/// Current and best score.
#[derive(Clone, Copy, Debug, PartialEq, Eq)]
pub struct Scores {
    /// Bounces since the last miss.
    pub score: u32,
    /// The highest score seen at the end of any frame.
    pub best_score: u32,
}

impl Scores {
    /// Nothing scored yet.
    pub fn new() -> (scores: Scores)
        ensures
            scores.score == 0,
            scores.best_score == 0,
    {
        Scores { score: 0, best_score: 0 }
    }

    /// `text` shows these scores in the viewport `game_area`.
    pub open spec fn shown_as(&self, game_area: GameArea, text: ScoreText) -> bool {
        &&& text.score_line@ == score_line(self.score)
        &&& text.best_score_line@ == best_score_line(self.best_score)
        &&& text.score_at.x == game_area.screen_x(TEXT_X as int)
        &&& text.score_at.y == game_area.screen_y(SCORE_Y as int)
        &&& text.best_score_at.x == game_area.screen_x(TEXT_X as int)
        &&& text.best_score_at.y == game_area.screen_y(BEST_SCORE_Y as int)
        &&& text.font_size == game_area.scale_x(TEXT_SIZE as int)
        &&& text.color == TextColor::Black
    }

    /// What to write on the screen, and where.
    pub fn draw_text(&self, game_area: &GameArea) -> (text: ScoreText)
        requires
            game_area.wf(),
        ensures
            self.shown_as(*game_area, text),
    {
        let score_text_area: Vec2 = game_area.game_to_screen(
            Vec2 { x: TEXT_X, y: SCORE_Y },
            TranslateType::Normal,
        );
        let text_size: Vec2 = game_area.game_to_screen(
            Vec2 { x: TEXT_SIZE, y: TEXT_SIZE },
            TranslateType::JustScale,
        );
        let best_score_text_area: Vec2 = game_area.game_to_screen(
            Vec2 { x: TEXT_X, y: BEST_SCORE_Y },
            TranslateType::Normal,
        );
        proof {
            reveal_strlit("Score: ");
            reveal_strlit("Best Score: ");
        }
        let mut score_line: String = String::from_str("Score: ");
        append_decimal(&mut score_line, self.score);
        let mut best_score_line: String = String::from_str("Best Score: ");
        append_decimal(&mut best_score_line, self.best_score);
        assert(score_line@ =~= self::score_line(self.score));
        assert(best_score_line@ =~= self::best_score_line(self.best_score));
        ScoreText {
            score_line,
            score_at: score_text_area,
            best_score_line,
            best_score_at: best_score_text_area,
            font_size: text_size.x,
            color: TextColor::Black,
        }
    }

    /// Raises the best score to the current one where that is higher. The
    /// best score never goes down, whatever the current score does.
    pub fn update(&mut self)
        ensures
            final(self).score == old(self).score,
            final(self).best_score == if old(self).score > old(self).best_score {
                old(self).score
            } else {
                old(self).best_score
            },
            final(self).best_score >= old(self).best_score,
            final(self).best_score >= final(self).score,
    {
        if self.score > self.best_score {
            self.best_score = self.score
        }
    }
}

} // verus!
