//! What a session does with the game: what one turn says and when it ends
//! play.

use vstd::prelude::*;
use vstd::string::*;
use crate::board::{board_text, is_full, winner};
use crate::entry::{parse_square, square_entered};
use crate::game::{error_text, judge_move, Game, GameView, MoveError};
use crate::square::{player_text, Square};

verus! {

/// The line that says how a move went.
pub open spec fn move_text(outcome: Result<(), MoveError>) -> Seq<char> {
    match outcome {
        Ok(_) => "Move made"@,
        Err(e) => error_text(e),
    }
}

/// What is said of a winner: nothing if there is none, else the winner's
/// name and the final board.
pub open spec fn winner_text(grid: Seq<Seq<Square>>) -> Seq<char> {
    match winner(grid) {
        Some(p) => "Player "@ + player_text(p) + " wins!\n"@ + board_text(grid),
        None => Seq::empty(),
    }
}

/// What is said of a draw: nothing if a square is empty, else the verdict
/// and the final board.
pub open spec fn draw_text(grid: Seq<Seq<Square>>) -> Seq<char> {
    if is_full(grid) {
        "It's a draw!\n"@ + board_text(grid)
    } else {
        Seq::empty()
    }
}

/// Everything a turn at (`row`, `col`) prints: how the move went, then the
/// winner if there is one, then the draw if the board is full.
pub open spec fn turn_text(game: GameView, row: nat, col: nat) -> Seq<char> {
    let grid = game.after_move(row, col).grid;
    move_text(judge_move(game.grid, row, col)) + "\n"@ + winner_text(grid) + draw_text(grid)
}

/// The game after a turn at (`row`, `col`): the move is made if it is
/// accepted, and play ends if there is a winner or the board is full.
pub open spec fn after_turn(game: GameView, row: nat, col: nat) -> GameView {
    let moved = game.after_move(row, col);
    if winner(moved.grid) is Some || is_full(moved.grid) {
        GameView { playing: false, ..moved }
    } else {
        moved
    }
}

/// Plays one turn at (`row`, `col`), counted from zero, and returns the
/// text to print. A refused move is said so and costs nothing; the board
/// is judged after every attempt.
pub fn play_turn(game: &mut Game, row: usize, col: usize) -> (shown: String)
    ensures
        shown@ == turn_text(old(game)@, row as nat, col as nat),
        final(game)@ == after_turn(old(game)@, row as nat, col as nat),
        final(game)@.wf(),
{
    let mut shown = String::new();
    match game.make_move(row, col) {
        Ok(_) => shown.append("Move made"),
        Err(error) => shown.append(error.message()),
    }
    shown.append("\n");
    match game.check_winner() {
        None => (),
        Some(player) => {
            shown.append("Player ");
            shown.append(player.as_str());
            shown.append(" wins!\n");
            let board = game.end();
            shown.append(board.as_str());
        },
    }
    if game.check_draw() {
        shown.append("It's a draw!\n");
        let board = game.end();
        shown.append(board.as_str());
    }
    shown
}

/// Everything printed for an entered `line`: what the turn prints if the
/// line names a square, else a reminder of the format.
pub open spec fn line_text(game: GameView, line: Seq<char>) -> Seq<char> {
    match square_entered(line) {
        Some((row, col)) => turn_text(game, row as nat, col as nat),
        None => "Please your square in the format: ROW,COLUMN\n"@,
    }
}

/// The game after an entered `line`: a turn has been played if the line
/// names a square, else nothing has changed.
pub open spec fn after_line(game: GameView, line: Seq<char>) -> GameView {
    match square_entered(line) {
        Some((row, col)) => after_turn(game, row as nat, col as nat),
        None => game,
    }
}

/// Plays the turn that an entered `line` asks for and returns the text to
/// print. A line that names no square costs nothing.
pub fn play_line(game: &mut Game, line: &str) -> (shown: String)
    ensures
        shown@ == line_text(old(game)@, line@),
        final(game)@ == after_line(old(game)@, line@),
{
    match parse_square(line) {
        Some((row, col)) => play_turn(game, row, col),
        None => String::from_str("Please your square in the format: ROW,COLUMN\n"),
    }
}

} // verus!
