//! The game: a board, the player to move, and the rules of a move.

use vstd::prelude::*;
use vstd::string::*;
use crate::board::{
    all_empty, board_text, has_shape, has_won, is_full, lemma_winner_has_won, place, rows_text,
    squares_text, winner,
};
use crate::lines::{check_all_cols, check_all_rows, grid_of};
use crate::square::{opponent, Player, Square};

verus! {

/// Why a move was refused.
#[derive(Copy, Clone, PartialEq, Eq, Structural, Debug)]
pub enum MoveError {
    /// The row lies outside the board.
    InvalidRow,
    /// The column lies outside the board.
    InvalidColumn,
    /// The square is already occupied.
    IllegalMove,
}

/// The text shown for a refused move.
pub open spec fn error_text(e: MoveError) -> Seq<char> {
    match e {
        MoveError::InvalidRow => "Invalid row"@,
        MoveError::InvalidColumn => "Invalid column"@,
        MoveError::IllegalMove => "Illegal move"@,
    }
}

impl MoveError {
    /// The message for this error.
    pub fn message(self) -> (r: &'static str)
        ensures
            r@ == error_text(self),
    {
        match self {
            MoveError::InvalidRow => "Invalid row",
            MoveError::InvalidColumn => "Invalid column",
            MoveError::IllegalMove => "Illegal move",
        }
    }
}

/// What becomes of a move to (`row`, `col`) on `grid`: the first rule it
/// breaks, or `Ok` if it breaks none.
pub open spec fn judge_move(grid: Seq<Seq<Square>>, row: nat, col: nat) -> Result<(), MoveError> {
    if row >= grid.len() {
        Err(MoveError::InvalidRow)
    } else if col >= grid[row as int].len() {
        Err(MoveError::InvalidColumn)
    } else if grid[row as int][col as int] != Square::Empty {
        Err(MoveError::IllegalMove)
    } else {
        Ok(())
    }
}

/// What a game is, as plain values.
pub struct GameView {
    /// Whether the game is being played.
    pub playing: bool,
    /// The player to move.
    pub player: Player,
    /// The number of rows.
    pub width: nat,
    /// The number of squares in each row.
    pub height: nat,
    /// The board, row by row.
    pub grid: Seq<Seq<Square>>,
}

impl GameView {
    /// The board has the dimensions the game was made with.
    pub open spec fn wf(self) -> bool {
        has_shape(self.grid, self.width, self.height)
    }

    /// The game after the player to move has tried (`row`, `col`): the
    /// square is theirs and the turn has passed, or nothing has changed.
    pub open spec fn after_move(self, row: nat, col: nat) -> GameView {
        if judge_move(self.grid, row, col) is Ok {
            GameView {
                player: opponent(self.player),
                grid: place(self.grid, row as int, col as int, self.player),
                ..self
            }
        } else {
            self
        }
    }
}

/// Puts `square` at (`row`, `col`) of `board`.
fn set_square(board: &mut Vec<Vec<Square>>, row: usize, col: usize, square: Square)
    requires
        row < old(board).len(),
        col < old(board)[row as int].len(),
    ensures
        grid_of(*final(board)) == grid_of(*old(board)).update(
            row as int,
            grid_of(*old(board))[row as int].update(col as int, square),
        ),
    no_unwind
{
    board[row][col] = square;
    assert(grid_of(*board) =~~= grid_of(*old(board)).update(
        row as int,
        grid_of(*old(board))[row as int].update(col as int, square),
    ));
}

/// A game in progress.
pub struct Game {
    playing: bool,
    player: Player,
    board_size: (usize, usize),
    board: Vec<Vec<Square>>,
}

impl View for Game {
    type V = GameView;

    closed spec fn view(&self) -> GameView {
        GameView {
            playing: self.playing,
            player: self.player,
            width: self.board_size.0 as nat,
            height: self.board_size.1 as nat,
            grid: grid_of(self.board),
        }
    }
}

impl Game {
    /// The board has as many rows, and each row as many squares, as the
    /// game was made with.
    #[verifier::type_invariant]
    spec fn inv(&self) -> bool {
        has_shape(grid_of(self.board), self.board_size.0 as nat, self.board_size.1 as nat)
    }

    /// A game on an empty board of `width` rows and `height` columns, not
    /// yet started, with `X` to move.
    pub fn new(width: usize, height: usize) -> (game: Game)
        ensures
            game@.wf(),
            game@.width == width,
            game@.height == height,
            all_empty(game@.grid),
            game@.player == Player::X,
            !game@.playing,
    {
        let game = Game {
            playing: false,
            player: Player::X,
            board_size: (width, height),
            board: vec![vec![Square::Empty; height]; width],
        };
        game
    }

    /// Whether the game is being played.
    pub fn playing(&self) -> (r: bool)
        ensures
            r == self@.playing,
    {
        self.playing
    }

    /// The player to move.
    pub fn player(&self) -> (r: Player)
        ensures
            r == self@.player,
    {
        self.player
    }

    /// The number of rows and the number of columns.
    pub fn size(&self) -> (r: (usize, usize))
        ensures
            r.0 == self@.width,
            r.1 == self@.height,
            self@.wf(),
    {
        proof {
            use_type_invariant(self);
        }
        self.board_size
    }

    /// The square at (`row`, `col`), if the board has one there.
    pub fn square(&self, row: usize, col: usize) -> (r: Option<Square>)
        ensures
            r == if row < self@.grid.len() && col < self@.grid[row as int].len() {
                Some(self@.grid[row as int][col as int])
            } else {
                None
            },
    {
        if row < self.board.len() && col < self.board[row].len() {
            Some(self.board[row][col])
        } else {
            None
        }
    }

    /// Starts play.
    pub fn start(&mut self)
        ensures
            final(self)@ == (GameView { playing: true, ..old(self)@ }),
            final(self)@.wf(),
    {
        proof {
            use_type_invariant(&*self);
        }
        self.playing = true;
    }

    /// Ends play and returns the text of the final board.
    pub fn end(&mut self) -> (shown: String)
        ensures
            shown@ == board_text(old(self)@.grid),
            final(self)@ == (GameView { playing: false, ..old(self)@ }),
            final(self)@.wf(),
    {
        let shown = self.show_board();
        proof {
            use_type_invariant(&*self);
        }
        self.playing = false;
        shown
    }

    /// The text of the board: each square as a bracketed glyph, each row on
    /// a line of its own.
    pub fn show_board(&self) -> (shown: String)
        ensures
            shown@ == board_text(self@.grid),
    {
        let mut shown = String::new();
        let mut i: usize = 0;
        while i < self.board.len()
            invariant
                i <= self.board.len(),
                shown@ == rows_text(self@.grid, i as int),
            decreases self.board.len() - i,
        {
            let ghost before = shown@;
            let mut j: usize = 0;
            while j < self.board[i].len()
                invariant
                    i < self.board.len(),
                    j <= self.board[i as int].len(),
                    shown@ == before + squares_text(self@.grid[i as int], j as int),
                decreases self.board[i as int].len() - j,
            {
                shown.append(self.board[i][j].as_str());
                j += 1;
            }
            proof {
                reveal_strlit("\n");
            }
            shown.append("\n");
            i += 1;
        }
        shown
    }

    /// Places the mark of the player to move on the square at (`row`,
    /// `col`) and passes the turn, or refuses the move and changes nothing.
    pub fn make_move(&mut self, row: usize, col: usize) -> (r: Result<(), MoveError>)
        ensures
            r == judge_move(old(self)@.grid, row as nat, col as nat),
            final(self)@ == old(self)@.after_move(row as nat, col as nat),
            final(self)@.wf(),
    {
        proof {
            use_type_invariant(&*self);
        }
        if row >= self.board_size.0 {
            return Err(MoveError::InvalidRow);
        }
        if col >= self.board_size.1 {
            return Err(MoveError::InvalidColumn);
        }
        match self.board[row][col] {
            Square::Occupied(_) => Err(MoveError::IllegalMove),
            Square::Empty => {
                set_square(&mut self.board, row, col, Square::Occupied(self.player));
                self.switch_players();
                Ok(())
            },
        }
    }

    /// The winner, if a row or a column is wholly one player's. Rows are
    /// looked at before columns, and the first won line decides.
    pub fn check_winner(&self) -> (r: Option<Player>)
        ensures
            r == winner(self@.grid),
            r is None <==> !has_won(Player::X, self@.grid) && !has_won(Player::O, self@.grid),
            r matches Some(p) ==> has_won(p, self@.grid),
    {
        proof {
            use_type_invariant(self);
            lemma_winner_has_won(self@.grid);
        }
        let rows = self.board.clone();
        assert(grid_of(rows) =~~= self@.grid);
        let winner_row = check_all_rows(rows);
        let rows = self.board.clone();
        assert(grid_of(rows) =~~= self@.grid);
        let winner_col = check_all_cols(rows);
        match (winner_row, winner_col) {
            (Some(winner), _) => Some(winner),
            (_, Some(winner)) => Some(winner),
            _ => None,
        }
    }

    /// Whether no square is empty.
    pub fn check_draw(&self) -> (r: bool)
        ensures
            r == is_full(self@.grid),
    {
        let mut i: usize = 0;
        while i < self.board.len()
            invariant
                i <= self.board.len(),
                forall|a: int, b: int|
                    0 <= a < i && 0 <= b < self@.grid[a].len() ==> #[trigger] self@.grid[a][b]
                        != Square::Empty,
            decreases self.board.len() - i,
        {
            let mut j: usize = 0;
            while j < self.board[i].len()
                invariant
                    i < self.board.len(),
                    j <= self.board[i as int].len(),
                    forall|b: int|
                        0 <= b < j ==> #[trigger] self@.grid[i as int][b] != Square::Empty,
                decreases self.board[i as int].len() - j,
            {
                if self.board[i][j] == Square::Empty {
                    return false;
                }
                j += 1;
            }
            i += 1;
        }
        true
    }

    fn switch_players(&mut self)
        ensures
            final(self)@ == (GameView { player: opponent(old(self)@.player), ..old(self)@ }),
    {
        proof {
            use_type_invariant(&*self);
        }
        self.player = match self.player {
            Player::O => Player::X,
            Player::X => Player::O,
        }
    }
}

/// The turn alternates: the opponent's opponent is the player, and never
/// the opponent.
pub proof fn lemma_turns_alternate(p: Player)
    ensures
        opponent(p) != p,
        opponent(opponent(p)) == p,
{
}

/// A move whose row or column is at or beyond the board's dimensions is
/// refused, the row being looked at first, and leaves the game as it was.
pub proof fn lemma_move_off_board_refused(game: GameView, row: nat, col: nat)
    requires
        game.wf(),
        row >= game.width || col >= game.height,
    ensures
        row >= game.width ==> judge_move(game.grid, row, col) == Err::<(), MoveError>(
            MoveError::InvalidRow,
        ),
        row < game.width ==> judge_move(game.grid, row, col) == Err::<(), MoveError>(
            MoveError::InvalidColumn,
        ),
        game.after_move(row, col) == game,
{
}

/// A move to an occupied square is refused as illegal and leaves the game
/// as it was.
pub proof fn lemma_move_to_occupied_refused(game: GameView, row: nat, col: nat)
    requires
        row < game.grid.len(),
        col < game.grid[row as int].len(),
        game.grid[row as int][col as int] is Occupied,
    ensures
        judge_move(game.grid, row, col) == Err::<(), MoveError>(MoveError::IllegalMove),
        game.after_move(row, col) == game,
{
}

/// A move is accepted exactly when it names an empty square of the board.
pub proof fn lemma_move_accepted_iff_empty_square(game: GameView, row: nat, col: nat)
    ensures
        judge_move(game.grid, row, col) is Ok <==> {
            &&& row < game.grid.len()
            &&& col < game.grid[row as int].len()
            &&& game.grid[row as int][col as int] == Square::Empty
        },
{
}

/// An accepted move gives the square to the player who moved, passes the
/// turn to the opponent, and changes nothing else: every other square, the
/// board's dimensions and the playing flag stay as they were.
pub proof fn lemma_accepted_move_effect(game: GameView, row: nat, col: nat)
    requires
        game.wf(),
        judge_move(game.grid, row, col) is Ok,
    ensures
        row < game.width && col < game.height,
        game.grid[row as int][col as int] == Square::Empty,
        game.after_move(row, col).grid[row as int][col as int] == Square::Occupied(game.player),
        game.after_move(row, col).player == opponent(game.player),
        game.after_move(row, col).playing == game.playing,
        game.after_move(row, col).width == game.width,
        game.after_move(row, col).height == game.height,
        game.after_move(row, col).wf(),
        forall|i: int, j: int|
            0 <= i < game.width && 0 <= j < game.height && !(i == row && j == col)
                ==> #[trigger] game.after_move(row, col).grid[i][j] == game.grid[i][j],
{
}

/// Winner and draw are read off the board alone: two games with the same
/// board give the same answers, whoever is to move and whether or not play
/// is on, so asking again without a move in between changes nothing.
pub proof fn lemma_verdicts_depend_on_board_only(a: GameView, b: GameView)
    requires
        a.grid == b.grid,
    ensures
        winner(a.grid) == winner(b.grid),
        is_full(a.grid) == is_full(b.grid),
{
}

} // verus!
