//! The rules of a small touch-controlled arcade game: two paws keep a ball in
//! the air inside a square arena. Every bounce scores a point and makes the
//! ball faster; a miss ends the round.
//!
//! The library counts in whole numbers. Game space is 100 by 100 units of 3000
//! sub-units each, the screen is measured in whatever unit the host chooses,
//! and every rule says which way it rounds. The same inputs therefore give the
//! same game on every host, and the contracts are exact.
//!
//! The library draws nothing and reads nothing. Once per frame a host hands
//! [`game::Game::checked_frame`] the size of its window and the active
//! touches, and draws the [`game::Frame`] that it gets back.
//!
//! - [`geometry`]: coordinates, rectangles and rounding.
//! - [`game_area`]: the viewport and the transforms between game space and
//!   the screen.
//! - [`paw`]: the paws and how touches steer them.
//! - [`ball`]: the ball, its bounces and the miss.
//! - [`scores`]: the score, the best score, and the text that shows them.
//! - [`game`]: the frame as a whole, and what holds of every session.

pub mod ball;
pub mod game;
pub mod game_area;
pub mod geometry;
pub mod paw;
pub mod scores;
