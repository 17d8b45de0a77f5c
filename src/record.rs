//! A game record as a notation parser hands it over: tags, numbered and
//! annotated moves, comments and variations.

use vstd::prelude::*;
use crate::moves::NotationMove;

verus! {

/// The number printed before a move: `n.` for White, `n...` for Black.
#[derive(PartialEq, Eq, Structural, Clone, Copy, Debug)]
pub enum MoveNumber {
    White(u32),
    Black(u32),
}

/// A move's quality mark.
#[derive(PartialEq, Eq, Structural, Clone, Copy, Debug)]
pub enum AnnotationSymbol {
    Blunder,
    Brilliant,
    Dubious,
    Good,
    Interesting,
    Mistake,
}

/// A move with its annotation and check marks.
#[derive(PartialEq, Eq, Structural, Clone, Copy, Debug)]
pub struct AnnotatedMove {
    pub move_: NotationMove,
    pub annotation_symbol: Option<AnnotationSymbol>,
    pub is_check: bool,
    pub is_checkmate: bool,
}

/// One move of a game, with what the record says around it.
pub struct GameMove {
    pub number: Option<MoveNumber>,
    pub move_: AnnotatedMove,
    pub comment: Option<String>,
    /// Alternative lines that replace this move.
    pub variations: Vec<Variation>,
}

/// An alternative line of moves.
pub struct Variation {
    pub moves: Vec<GameMove>,
}

/// A game: its tag pairs and its main line.
pub struct Game {
    pub tags: Vec<(String, String)>,
    pub moves: Vec<GameMove>,
}

} // verus!
