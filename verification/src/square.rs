//! The two players and the squares they claim.

use vstd::prelude::*;
use vstd::string::*;

verus! {

/// One of the two players. `X` moves first.
#[derive(Copy, Clone, PartialEq, Eq, Structural, Debug)]
pub enum Player {
    X,
    O,
}

/// One cell of the board.
#[derive(Copy, Clone, PartialEq, Eq, Structural, Debug)]
pub enum Square {
    Occupied(Player),
    Empty,
}

/// The player who moves after `p`.
pub open spec fn opponent(p: Player) -> Player {
    match p {
        Player::X => Player::O,
        Player::O => Player::X,
    }
}

/// The text a player is shown as.
pub open spec fn player_text(p: Player) -> Seq<char> {
    match p {
        Player::X => seq!['X'],
        Player::O => seq!['O'],
    }
}

/// The three-character glyph a square is shown as.
pub open spec fn square_text(s: Square) -> Seq<char> {
    match s {
        Square::Occupied(p) => seq!['['] + player_text(p) + seq![']'],
        Square::Empty => seq!['[', ' ', ']'],
    }
}

impl Player {
    /// The player's mark as text: `"X"` or `"O"`.
    pub fn as_str(self) -> (r: &'static str)
        ensures
            r@ == player_text(self),
    {
        proof {
            reveal_strlit("X");
            reveal_strlit("O");
        }
        match self {
            Player::X => "X",
            Player::O => "O",
        }
    }
}

impl Square {
    /// The square's glyph as text: `"[X]"`, `"[O]"` or `"[ ]"`.
    pub fn as_str(self) -> (r: &'static str)
        ensures
            r@ == square_text(self),
    {
        proof {
            reveal_strlit("[X]");
            reveal_strlit("[O]");
            reveal_strlit("[ ]");
        }
        match self {
            Square::Occupied(Player::X) => "[X]",
            Square::Occupied(Player::O) => "[O]",
            Square::Empty => "[ ]",
        }
    }
}

} // verus!
