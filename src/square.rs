//! Square addressing: grid coordinates and their algebraic names.
//!
//! Column 0 is file `a` and column 7 file `h`; row 0 is rank 8 and row 7
//! rank 1.

use vstd::prelude::*;
use crate::error::MoveError;

verus! {

/// The character that notation writes for an unknown file or rank.
pub const UNKNOWN: char = 'x';

/// Whether `x` is a valid column or row index.
pub fn coord_valid(x: i32) -> (r: bool)
    ensures
        r == (0 <= x < 8),
{
    x >= 0 && x < 8
}

pub open spec fn on_board(x: int, y: int) -> bool {
    0 <= x < 8 && 0 <= y < 8
}

/// Whether `(x, y)` lies on the board.
pub fn is_valid(x: i32, y: i32) -> (r: bool)
    ensures
        r == on_board(x as int, y as int),
{
    coord_valid(x) && coord_valid(y)
}

pub open spec fn is_file(c: char) -> bool {
    'a' as u32 <= c as u32 <= 'h' as u32
}

pub open spec fn is_rank(c: char) -> bool {
    '1' as u32 <= c as u32 <= '8' as u32
}

/// Column of a file letter.
pub open spec fn file_index(c: char) -> int {
    c as u32 - 'a' as u32
}

/// Row of a rank digit: rank 8 is row 0.
pub open spec fn rank_index(c: char) -> int {
    8 - (c as u32 - '0' as u32)
}

pub open spec fn indexes_spec(file: char, rank: char) -> Result<(usize, usize), MoveError> {
    if is_file(file) && is_rank(rank) {
        Ok((file_index(file) as usize, rank_index(rank) as usize))
    } else {
        Err(MoveError::InvalidSquare)
    }
}

/// Grid coordinates of the square named by `file` and `rank`.
pub fn square_to_indexes(file: char, rank: char) -> (r: Result<(usize, usize), MoveError>)
    ensures
        r == indexes_spec(file, rank),
        r matches Ok((x, y)) ==> x < 8 && y < 8,
{
    if 'a' <= file && file <= 'h' && '1' <= rank && rank <= '8' {
        let x = (file as u32 - 'a' as u32) as usize;
        let y = (8 - (rank as u32 - '0' as u32)) as usize;
        Ok((x, y))
    } else {
        Err(MoveError::InvalidSquare)
    }
}

pub open spec fn maybe_index_spec(c: char, rank: bool) -> Result<Option<usize>, MoveError> {
    if c == UNKNOWN {
        Ok(None)
    } else if rank && is_rank(c) {
        Ok(Some(rank_index(c) as usize))
    } else if !rank && is_file(c) {
        Ok(Some(file_index(c) as usize))
    } else {
        Err(MoveError::InvalidSquare)
    }
}

pub open spec fn maybe_indexes_spec(file: char, rank: char) -> Result<
    (Option<usize>, Option<usize>),
    MoveError,
> {
    match (maybe_index_spec(file, false), maybe_index_spec(rank, true)) {
        (Ok(x), Ok(y)) => Ok((x, y)),
        _ => Err(MoveError::InvalidSquare),
    }
}

/// Grid coordinates of a partially named square, where either part may be
/// `UNKNOWN` and then gives `None`.
pub fn square_to_maybe_indexes(file: char, rank: char) -> (r: Result<
    (Option<usize>, Option<usize>),
    MoveError,
>)
    ensures
        r == maybe_indexes_spec(file, rank),
        r matches Ok((x, y)) ==> (x matches Some(x) ==> x < 8) && (y matches Some(y) ==> y < 8),
{
    let x = if file == UNKNOWN {
        None
    } else if 'a' <= file && file <= 'h' {
        Some((file as u32 - 'a' as u32) as usize)
    } else {
        return Err(MoveError::InvalidSquare);
    };
    let y = if rank == UNKNOWN {
        None
    } else if '1' <= rank && rank <= '8' {
        Some((8 - (rank as u32 - '0' as u32)) as usize)
    } else {
        return Err(MoveError::InvalidSquare);
    };
    Ok((x, y))
}

} // verus!
