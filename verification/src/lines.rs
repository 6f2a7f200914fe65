//! Lines of squares and who has won them.
//!
//! A line is won by the player whose mark is on every one of its squares.
//! Among several lines the earliest won line decides.

use vstd::prelude::*;
use crate::square::{Player, Square};

verus! {

/// Player `p` has a mark on every square of the non-empty `line`.
pub open spec fn owns_line(p: Player, line: Seq<Square>) -> bool {
    &&& line.len() > 0
    &&& forall|i: int| 0 <= i < line.len() ==> line[i] == Square::Occupied(p)
}

/// Some square of `line` is empty.
pub open spec fn has_empty_square(line: Seq<Square>) -> bool {
    exists|i: int| 0 <= i < line.len() && line[i] == Square::Empty
}

/// The player who owns `line`, if one does.
pub open spec fn line_winner(line: Seq<Square>) -> Option<Player> {
    if owns_line(Player::X, line) {
        Some(Player::X)
    } else if owns_line(Player::O, line) {
        Some(Player::O)
    } else {
        None
    }
}

/// The winner of the first won line among `lines[start..]`.
pub open spec fn first_winner_from(lines: Seq<Seq<Square>>, start: int) -> Option<Player>
    decreases lines.len() - start,
{
    if start < 0 || start >= lines.len() {
        None
    } else {
        match line_winner(lines[start]) {
            Some(p) => Some(p),
            None => first_winner_from(lines, start + 1),
        }
    }
}

/// The winner of the first won line among `lines`.
pub open spec fn first_winner(lines: Seq<Seq<Square>>) -> Option<Player> {
    first_winner_from(lines, 0)
}

/// The rows of a board held as a vector of vectors.
pub open spec fn grid_of(rows: Vec<Vec<Square>>) -> Seq<Seq<Square>> {
    Seq::new(rows@.len(), |i: int| rows@[i]@)
}

/// Column `j` of `grid`, top to bottom.
pub open spec fn column(grid: Seq<Seq<Square>>, j: int) -> Seq<Square> {
    Seq::new(grid.len(), |i: int| grid[i][j])
}

/// The columns of `grid`, left to right; the first row says how many there are.
pub open spec fn columns(grid: Seq<Seq<Square>>) -> Seq<Seq<Square>> {
    if grid.len() == 0 {
        Seq::empty()
    } else {
        Seq::new(grid[0].len(), |j: int| column(grid, j))
    }
}

/// No row of `grid` is shorter than the first.
pub open spec fn spans_first_row(grid: Seq<Seq<Square>>) -> bool {
    forall|i: int| 0 <= i < grid.len() ==> (#[trigger] grid[i]).len() >= grid[0].len()
}

/// The winner of a single line: the player who occupies all of it.
pub fn check_row(row: Vec<Square>) -> (r: Option<Player>)
    ensures
        r == line_winner(row@),
{
    if row.len() == 0 {
        return None;
    }
    let first = row[0];
    match first {
        Square::Empty => None,
        Square::Occupied(player) => {
            let mut i: usize = 1;
            while i < row.len()
                invariant
                    1 <= i <= row.len(),
                    first == Square::Occupied(player),
                    row[0] == first,
                    forall|k: int| 0 <= k < i ==> row[k] == Square::Occupied(player),
                decreases row.len() - i,
            {
                if row[i] != first {
                    return None;
                }
                i += 1;
            }
            Some(player)
        },
    }
}

/// The winner of the first won row.
pub fn check_all_rows(rows: Vec<Vec<Square>>) -> (r: Option<Player>)
    ensures
        r == first_winner(grid_of(rows)),
{
    let ghost grid = grid_of(rows);
    let mut i: usize = 0;
    while i < rows.len()
        invariant
            i <= rows.len(),
            grid == grid_of(rows),
            first_winner(grid) == first_winner_from(grid, i as int),
        decreases rows.len() - i,
    {
        let row = rows[i].clone();
        if let Some(winner) = check_row(row) {
            return Some(winner);
        }
        i += 1;
    }
    None
}

/// The winner of the first won column.
pub fn check_all_cols(rows: Vec<Vec<Square>>) -> (r: Option<Player>)
    requires
        spans_first_row(grid_of(rows)),
    ensures
        r == first_winner(columns(grid_of(rows))),
{
    if rows.len() == 0 {
        return None;
    }
    let ghost grid = grid_of(rows);
    let ghost cols = columns(grid);
    let num_cols = rows[0].len();
    let mut j: usize = 0;
    while j < num_cols
        invariant
            j <= num_cols,
            rows.len() > 0,
            num_cols == rows[0].len(),
            grid == grid_of(rows),
            cols == columns(grid),
            spans_first_row(grid),
            first_winner(cols) == first_winner_from(cols, j as int),
        decreases num_cols - j,
    {
        let first = rows[0][j];
        if let Square::Occupied(winner) = first {
            assert(column(grid, j as int)[0] == first);
            let mut i: usize = 1;
            let mut uniform = true;
            while uniform && i < rows.len()
                invariant
                    1 <= i <= rows.len(),
                    j < num_cols,
                    num_cols == rows[0].len(),
                    grid == grid_of(rows),
                    spans_first_row(grid),
                    first == Square::Occupied(winner),
                    uniform ==> forall|k: int| 0 <= k < i ==> column(grid, j as int)[k] == first,
                    !uniform ==> exists|k: int|
                        0 <= k < rows.len() && column(grid, j as int)[k] != first,
                decreases rows.len() - i + (if uniform { 1int } else { 0int }),
            {
                if rows[i][j] != first {
                    assert(column(grid, j as int)[i as int] != first);
                    uniform = false;
                } else {
                    i += 1;
                }
            }
            if uniform {
                return Some(winner);
            }
        }
        j += 1;
    }
    None
}

/// A line is won by `p` exactly when `p` owns it: no line has two owners,
/// and a line with an empty square has none.
pub proof fn lemma_line_winner_is_owner(line: Seq<Square>, p: Player)
    ensures
        line_winner(line) == Some(p) <==> owns_line(p, line),
{
    if owns_line(Player::X, line) && owns_line(Player::O, line) {
        assert(line[0] == Square::Occupied(Player::O));
    }
}

/// A line with an empty square has no winner.
pub proof fn lemma_empty_square_blocks_line(line: Seq<Square>)
    requires
        has_empty_square(line),
    ensures
        line_winner(line) is None,
{
    let i = choose|i: int| 0 <= i < line.len() && line[i] == Square::Empty;
    assert(line[i] == Square::Empty);
}

/// Scanning from `start` finds no winner exactly when none of the lines
/// from `start` on is won; a winner it finds is the winner of the earliest
/// won line.
pub proof fn lemma_first_winner_from(lines: Seq<Seq<Square>>, start: int)
    requires
        0 <= start,
    ensures
        first_winner_from(lines, start) is None <==> forall|i: int|
            start <= i < lines.len() ==> line_winner(#[trigger] lines[i]) is None,
        first_winner_from(lines, start) is Some ==> exists|i: int|
            {
                &&& start <= i < lines.len()
                &&& line_winner(#[trigger] lines[i]) == first_winner_from(lines, start)
                &&& forall|k: int| start <= k < i ==> line_winner(#[trigger] lines[k]) is None
            },
    decreases lines.len() - start,
{
    if start < lines.len() {
        lemma_first_winner_from(lines, start + 1);
        if line_winner(lines[start]) is None && first_winner_from(lines, start) is Some {
            let i = choose|i: int|
                {
                    &&& start + 1 <= i < lines.len()
                    &&& line_winner(#[trigger] lines[i]) == first_winner_from(lines, start + 1)
                    &&& forall|k: int|
                        start + 1 <= k < i ==> line_winner(#[trigger] lines[k]) is None
                };
            assert(line_winner(lines[i]) == first_winner_from(lines, start));
        }
    }
}

/// Scanning from `start`, the owner of a line before which no line is won
/// is the winner.
pub proof fn lemma_earliest_won_line_decides(
    lines: Seq<Seq<Square>>,
    start: int,
    i: int,
    p: Player,
)
    requires
        0 <= start <= i < lines.len(),
        owns_line(p, lines[i]),
        forall|k: int| start <= k < i ==> line_winner(#[trigger] lines[k]) is None,
    ensures
        first_winner_from(lines, start) == Some(p),
    decreases i - start,
{
    if start < i {
        lemma_earliest_won_line_decides(lines, start + 1, i, p);
    } else {
        lemma_line_winner_is_owner(lines[i], p);
    }
}

/// Among `lines` there is no winner exactly when no line is won.
pub proof fn lemma_no_winner_iff_no_line_won(lines: Seq<Seq<Square>>)
    ensures
        first_winner(lines) is None <==> forall|i: int|
            0 <= i < lines.len() ==> line_winner(#[trigger] lines[i]) is None,
{
    lemma_first_winner_from(lines, 0);
}

/// The winner among `lines` is the winner of the earliest won line.
pub proof fn lemma_winner_is_earliest(lines: Seq<Seq<Square>>, p: Player)
    requires
        first_winner(lines) == Some(p),
    ensures
        exists|i: int|
            {
                &&& 0 <= i < lines.len()
                &&& owns_line(p, #[trigger] lines[i])
                &&& forall|k: int| 0 <= k < i ==> line_winner(#[trigger] lines[k]) is None
            },
{
    lemma_first_winner_from(lines, 0);
    let i = choose|i: int|
        {
            &&& 0 <= i < lines.len()
            &&& line_winner(#[trigger] lines[i]) == first_winner_from(lines, 0)
            &&& forall|k: int| 0 <= k < i ==> line_winner(#[trigger] lines[k]) is None
        };
    lemma_line_winner_is_owner(lines[i], p);
}

} // verus!
