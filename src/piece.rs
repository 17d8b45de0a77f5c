//! Colors and piece kinds.

use vstd::prelude::*;

verus! {

/// The side a piece belongs to.
#[derive(PartialEq, Eq, Structural, Clone, Copy, Debug)]
pub enum Color {
    Black,
    White,
}

/// The kind of a chess piece.
#[derive(PartialEq, Eq, Structural, Clone, Copy, Debug)]
pub enum Piece {
    Pawn,
    Knight,
    Bishop,
    Rook,
    Queen,
    King,
}

/// What stands on a square: nothing, or a piece of some color.
pub type Occupant = Option<(Color, Piece)>;

pub open spec fn opposite_spec(c: Color) -> Color {
    match c {
        Color::Black => Color::White,
        Color::White => Color::Black,
    }
}

/// The other side.
pub fn opposite(color: &Color) -> (r: Color)
    ensures
        r == opposite_spec(*color),
        r != *color,
{
    match *color {
        Color::Black => Color::White,
        Color::White => Color::Black,
    }
}

} // verus!
