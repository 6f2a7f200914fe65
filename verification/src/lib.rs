//! A two-player game of marks on a rectangular board.
//!
//! The players take turns placing their mark on an empty square. A player
//! wins by owning every square of a row or of a column; the game is drawn
//! once no square is empty.

pub mod board;
pub mod entry;
pub mod game;
pub mod lines;
pub mod session;
pub mod square;

pub use entry::{parse_size, parse_square, size_from, square_from, validate_size, SizeError};
pub use game::{Game, GameView, MoveError};
pub use lines::{check_all_cols, check_all_rows, check_row};
pub use session::{play_line, play_turn};
pub use square::{Player, Square};
