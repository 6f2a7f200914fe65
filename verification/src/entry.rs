//! What the players type: a board size and squares, each as a line of
//! numbers with a comma between them.

use vstd::prelude::*;
use vstd::string::*;

verus! {

/// The smallest number of rows or columns of a board.
pub const MIN_SIZE: usize = 3;

/// One more than the largest number of rows.
pub const WIDTH_LIMIT: usize = 2004;

/// One more than the largest number of columns.
pub const HEIGHT_LIMIT: usize = 1446;

/// A board of `width` rows and `height` columns may be played on.
pub open spec fn valid_size(width: nat, height: nat) -> bool {
    MIN_SIZE <= width < WIDTH_LIMIT && MIN_SIZE <= height < HEIGHT_LIMIT
}

/// Whether a board of `x` rows and `y` columns may be played on.
pub fn validate_size(x: usize, y: usize) -> (ok: bool)
    ensures
        ok == valid_size(x as nat, y as nat),
{
    MIN_SIZE <= x && x < WIDTH_LIMIT && MIN_SIZE <= y && y < HEIGHT_LIMIT
}

/// `text` without the whitespace at its start and at its end, as
/// `str::trim` returns it.
pub uninterp spec fn trimmed(text: Seq<char>) -> Seq<char>;

/// The number that `text` is read as by `u8::from_str`, if it is read as
/// one.
pub uninterp spec fn parsed_u8(text: Seq<char>) -> Option<u8>;

/// The number that `text` is read as by `u64::from_str`, if it is read as
/// one.
pub uninterp spec fn parsed_u64(text: Seq<char>) -> Option<u64>;

/// Calls `str::trim`. The result is a function of the text alone; it is
/// given the name `trimmed` and nothing more is claimed of it.
#[verifier::external_body]
fn trim<'a>(text: &'a str) -> (r: &'a str)
    ensures
        r@ == trimmed(text@),
{
    text.trim()
}

/// Calls `str::parse` for `u8`, with a failure of any kind as `None`. The
/// result is a function of the text alone; it is given the name
/// `parsed_u8` and nothing more is claimed of it.
#[verifier::external_body]
fn parse_u8(text: &str) -> (r: Option<u8>)
    ensures
        r == parsed_u8(text@),
{
    text.parse::<u8>().ok()
}

/// Calls `str::parse` for `u64`, with a failure of any kind as `None`. The
/// result is a function of the text alone; it is given the name
/// `parsed_u64` and nothing more is claimed of it.
#[verifier::external_body]
fn parse_u64(text: &str) -> (r: Option<u64>)
    ensures
        r == parsed_u64(text@),
{
    text.parse::<u64>().ok()
}

/// Why a line does not give a board size.
#[derive(Copy, Clone, PartialEq, Eq, Structural, Debug)]
pub enum SizeError {
    /// The line does not hold two numbers with a comma between them.
    Malformed,
    /// The numbers are not the dimensions of a board that can be played on.
    OutOfRange,
}

/// The text shown for a refused board size.
pub open spec fn size_error_text(e: SizeError) -> Seq<char> {
    match e {
        SizeError::Malformed => "Please enter board size in the correct format"@,
        SizeError::OutOfRange => "Board size is invalid!"@,
    }
}

impl SizeError {
    /// The message for this error.
    pub fn message(self) -> (r: &'static str)
        ensures
            r@ == size_error_text(self),
    {
        match self {
            SizeError::Malformed => "Please enter board size in the correct format",
            SizeError::OutOfRange => "Board size is invalid!",
        }
    }
}

/// The position of the first comma of `text` at or after `from`, or the
/// length of `text` if there is none.
pub open spec fn next_comma(text: Seq<char>, from: int) -> int
    decreases text.len() - from,
{
    if from < 0 || from >= text.len() || text[from] == ',' {
        from
    } else {
        next_comma(text, from + 1)
    }
}

/// The board size that two numbers stand for: both must have been read,
/// and together be a valid size.
pub open spec fn chosen_size(x: Option<u64>, y: Option<u64>) -> Result<(usize, usize), SizeError> {
    match (x, y) {
        (Some(width), Some(height)) => if valid_size(width as nat, height as nat) {
            Ok((width as usize, height as usize))
        } else {
            Err(SizeError::OutOfRange)
        },
        _ => Err(SizeError::Malformed),
    }
}

/// The board size that `line` gives: its first two fields, trimmed and
/// read as numbers. Fields after the second are not looked at.
pub open spec fn size_entered(line: Seq<char>) -> Result<(usize, usize), SizeError> {
    let first = next_comma(line, 0);
    if first < line.len() {
        let second = next_comma(line, first + 1);
        chosen_size(
            parsed_u64(trimmed(line.subrange(0, first))),
            parsed_u64(trimmed(line.subrange(first + 1, second))),
        )
    } else {
        Err(SizeError::Malformed)
    }
}

/// The square that a row and a column counted from one stand for: both
/// must have been read, and neither be zero.
pub open spec fn numbered_square(row: Option<u8>, col: Option<u8>) -> Option<(usize, usize)> {
    match (row, col) {
        (Some(r), Some(c)) => if r >= 1 && c >= 1 {
            Some(((r - 1) as usize, (c - 1) as usize))
        } else {
            None
        },
        _ => None,
    }
}

/// The square that `line` names: it must have exactly two fields, which
/// are trimmed and read as row and column, counted from one.
pub open spec fn square_entered(line: Seq<char>) -> Option<(usize, usize)> {
    let first = next_comma(line, 0);
    if first < line.len() && next_comma(line, first + 1) == line.len() {
        numbered_square(
            parsed_u8(trimmed(line.subrange(0, first))),
            parsed_u8(trimmed(line.subrange(first + 1, line.len() as int))),
        )
    } else {
        None
    }
}

/// The next comma lies between `from` and the end of the text, with no
/// comma before it.
pub proof fn lemma_next_comma(text: Seq<char>, from: int)
    requires
        0 <= from <= text.len(),
    ensures
        from <= next_comma(text, from) <= text.len(),
        next_comma(text, from) < text.len() ==> text[next_comma(text, from)] == ',',
        forall|k: int| from <= k < next_comma(text, from) ==> text[k] != ',',
    decreases text.len() - from,
{
    if from < text.len() && text[from] != ',' {
        lemma_next_comma(text, from + 1);
    }
}

/// The position of the first comma of `line` at or after `from`, or the
/// length of `line`.
fn find_comma(line: &str, from: usize) -> (at: usize)
    requires
        from <= line@.len(),
    ensures
        at == next_comma(line@, from as int),
        from <= at <= line@.len(),
{
    let len = line.unicode_len();
    let mut at: usize = from;
    while at < len && line.get_char(at) != ','
        invariant
            from <= at <= len,
            len == line@.len(),
            next_comma(line@, from as int) == next_comma(line@, at as int),
        decreases len - at,
    {
        at += 1;
    }
    at
}

/// The board size for the numbers read from a line.
pub fn size_from(x: Option<u64>, y: Option<u64>) -> (r: Result<(usize, usize), SizeError>)
    ensures
        r == chosen_size(x, y),
{
    match (x, y) {
        (Some(width), Some(height)) => {
            if width < WIDTH_LIMIT as u64 && height < HEIGHT_LIMIT as u64 && validate_size(
                width as usize,
                height as usize,
            ) {
                Ok((width as usize, height as usize))
            } else {
                Err(SizeError::OutOfRange)
            }
        },
        _ => Err(SizeError::Malformed),
    }
}

/// Reads a board size from a line of the form `WIDTH,HEIGHT`.
pub fn parse_size(line: &str) -> (r: Result<(usize, usize), SizeError>)
    ensures
        r == size_entered(line@),
{
    let len = line.unicode_len();
    let first = find_comma(line, 0);
    if first >= len {
        return Err(SizeError::Malformed);
    }
    let second = find_comma(line, first + 1);
    let x = parse_u64(trim(line.substring_char(0, first)));
    let y = parse_u64(trim(line.substring_char(first + 1, second)));
    size_from(x, y)
}

/// The square for the row and column read from a line.
pub fn square_from(row: Option<u8>, col: Option<u8>) -> (r: Option<(usize, usize)>)
    ensures
        r == numbered_square(row, col),
{
    match (row, col) {
        (Some(r), Some(c)) => {
            if r >= 1 && c >= 1 {
                Some(((r - 1) as usize, (c - 1) as usize))
            } else {
                None
            }
        },
        _ => None,
    }
}

/// Reads a square from a line of the form `ROW,COLUMN`.
pub fn parse_square(line: &str) -> (r: Option<(usize, usize)>)
    ensures
        r == square_entered(line@),
{
    let len = line.unicode_len();
    let first = find_comma(line, 0);
    if first >= len {
        return None;
    }
    if find_comma(line, first + 1) != len {
        return None;
    }
    let row = parse_u8(trim(line.substring_char(0, first)));
    let col = parse_u8(trim(line.substring_char(first + 1, len)));
    square_from(row, col)
}

} // verus!
