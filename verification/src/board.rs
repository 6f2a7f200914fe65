//! The board as a grid of squares: its shape, who has won on it, whether it
//! is full, and how it is shown.

use vstd::prelude::*;
use crate::lines::{
    column, columns, first_winner, has_empty_square, lemma_empty_square_blocks_line,
    lemma_line_winner_is_owner, lemma_no_winner_iff_no_line_won, lemma_winner_is_earliest,
    line_winner, owns_line,
};
use crate::square::{square_text, Player, Square};

verus! {

/// `grid` has `width` rows of `height` squares each.
pub open spec fn has_shape(grid: Seq<Seq<Square>>, width: nat, height: nat) -> bool {
    &&& grid.len() == width
    &&& forall|i: int| 0 <= i < grid.len() ==> (#[trigger] grid[i]).len() == height
}

/// Every square of `grid` is empty.
pub open spec fn all_empty(grid: Seq<Seq<Square>>) -> bool {
    forall|i: int, j: int|
        0 <= i < grid.len() && 0 <= j < grid[i].len() ==> #[trigger] grid[i][j] == Square::Empty
}

/// No square of `grid` is empty.
pub open spec fn is_full(grid: Seq<Seq<Square>>) -> bool {
    forall|i: int, j: int|
        0 <= i < grid.len() && 0 <= j < grid[i].len() ==> #[trigger] grid[i][j] != Square::Empty
}

/// `grid` with the square at (`row`, `col`) given to `p`.
pub open spec fn place(grid: Seq<Seq<Square>>, row: int, col: int, p: Player) -> Seq<Seq<Square>> {
    grid.update(row, grid[row].update(col, Square::Occupied(p)))
}

/// The winner on `grid`: the owner of the first won row, or else of the
/// first won column.
pub open spec fn winner(grid: Seq<Seq<Square>>) -> Option<Player> {
    match first_winner(grid) {
        Some(p) => Some(p),
        None => first_winner(columns(grid)),
    }
}

/// The text of the first `n` squares of `row`, left to right.
pub open spec fn squares_text(row: Seq<Square>, n: int) -> Seq<char>
    decreases n,
{
    if n <= 0 {
        Seq::empty()
    } else {
        squares_text(row, n - 1) + square_text(row[n - 1])
    }
}

/// The text of one row: its squares, then a line break.
pub open spec fn row_text(row: Seq<Square>) -> Seq<char> {
    squares_text(row, row.len() as int) + seq!['\n']
}

/// The text of the first `n` rows of `grid`, top to bottom.
pub open spec fn rows_text(grid: Seq<Seq<Square>>, n: int) -> Seq<char>
    decreases n,
{
    if n <= 0 {
        Seq::empty()
    } else {
        rows_text(grid, n - 1) + row_text(grid[n - 1])
    }
}

/// The text of the whole board.
pub open spec fn board_text(grid: Seq<Seq<Square>>) -> Seq<char> {
    rows_text(grid, grid.len() as int)
}

/// Player `p` owns a row or a column of `grid`.
pub open spec fn has_won(p: Player, grid: Seq<Seq<Square>>) -> bool {
    ||| exists|i: int| 0 <= i < grid.len() && owns_line(p, #[trigger] grid[i])
    ||| exists|j: int| 0 <= j < columns(grid).len() && owns_line(p, #[trigger] column(grid, j))
}

/// There is no winner exactly when neither player owns a row or a column,
/// and a winner owns one.
pub proof fn lemma_winner_has_won(grid: Seq<Seq<Square>>)
    ensures
        winner(grid) is None <==> !has_won(Player::X, grid) && !has_won(Player::O, grid),
        forall|p: Player| winner(grid) == Some(p) ==> has_won(p, grid),
{
    let cols = columns(grid);
    lemma_no_winner_iff_no_line_won(grid);
    lemma_no_winner_iff_no_line_won(cols);
    assert forall|i: int, p: Player| 0 <= i < grid.len() implies (line_winner(grid[i]) == Some(p)
        <==> #[trigger] owns_line(p, grid[i])) by {
        lemma_line_winner_is_owner(grid[i], p);
    }
    assert forall|j: int, p: Player| 0 <= j < cols.len() implies (line_winner(cols[j]) == Some(p)
        <==> #[trigger] owns_line(p, column(grid, j))) by {
        lemma_line_winner_is_owner(cols[j], p);
    }
    assert forall|p: Player| winner(grid) == Some(p) implies has_won(p, grid) by {
        lemma_rows_decide_before_columns(grid, p);
    }
    if winner(grid) is None {
        assert forall|p: Player| !has_won(p, grid) by {
            if has_won(p, grid) {
                if exists|i: int| 0 <= i < grid.len() && owns_line(p, #[trigger] grid[i]) {
                    let i = choose|i: int| 0 <= i < grid.len() && owns_line(p, #[trigger] grid[i]);
                    assert(line_winner(grid[i]) == Some(p));
                } else {
                    let j = choose|j: int|
                        0 <= j < cols.len() && owns_line(p, #[trigger] column(grid, j));
                    assert(line_winner(cols[j]) == Some(p));
                }
            }
        }
    }
}

/// A winner owns a row, or no row is owned and the winner owns a column.
pub proof fn lemma_rows_decide_before_columns(grid: Seq<Seq<Square>>, p: Player)
    requires
        winner(grid) == Some(p),
    ensures
        (exists|i: int| 0 <= i < grid.len() && owns_line(p, #[trigger] grid[i])) || {
            &&& forall|i: int| 0 <= i < grid.len() ==> line_winner(#[trigger] grid[i]) is None
            &&& exists|j: int|
                0 <= j < columns(grid).len() && owns_line(p, #[trigger] column(grid, j))
        },
{
    let cols = columns(grid);
    if first_winner(grid) is Some {
        lemma_winner_is_earliest(grid, p);
    } else {
        lemma_no_winner_iff_no_line_won(grid);
        lemma_winner_is_earliest(cols, p);
        let j = choose|j: int| 0 <= j < cols.len() && owns_line(p, #[trigger] cols[j]);
        assert(owns_line(p, column(grid, j)));
    }
}

/// A board on which every row and every column has an empty square has no
/// winner.
pub proof fn lemma_open_lines_have_no_winner(grid: Seq<Seq<Square>>)
    requires
        forall|i: int| 0 <= i < grid.len() ==> has_empty_square(#[trigger] grid[i]),
        forall|j: int|
            0 <= j < columns(grid).len() ==> has_empty_square(#[trigger] column(grid, j)),
    ensures
        winner(grid) is None,
{
    let cols = columns(grid);
    lemma_no_winner_iff_no_line_won(grid);
    lemma_no_winner_iff_no_line_won(cols);
    assert forall|i: int| 0 <= i < grid.len() implies line_winner(#[trigger] grid[i])
        is None by {
        lemma_empty_square_blocks_line(grid[i]);
    }
    assert forall|j: int| 0 <= j < cols.len() implies line_winner(#[trigger] cols[j])
        is None by {
        lemma_empty_square_blocks_line(cols[j]);
    }
}

/// A board with only empty squares has no winner, and is full only if it
/// has no square at all.
pub proof fn lemma_empty_board_has_no_winner(grid: Seq<Seq<Square>>, width: nat, height: nat)
    requires
        has_shape(grid, width, height),
        all_empty(grid),
    ensures
        winner(grid) is None,
        is_full(grid) <==> width == 0 || height == 0,
{
    let cols = columns(grid);
    lemma_no_winner_iff_no_line_won(grid);
    lemma_no_winner_iff_no_line_won(cols);
    assert forall|i: int| 0 <= i < grid.len() implies line_winner(#[trigger] grid[i])
        is None by {
        if grid[i].len() > 0 {
            assert(grid[i][0] == Square::Empty);
        }
    }
    assert forall|j: int| 0 <= j < cols.len() implies line_winner(#[trigger] cols[j])
        is None by {
        assert(cols[j][0] == Square::Empty);
    }
    if width > 0 && height > 0 {
        assert(grid[0][0] == Square::Empty);
    }
}

} // verus!
