//! Notation moves, their resolution to exact squares, and their effect on
//! the game state.

use vstd::prelude::*;
use crate::error::MoveError;
use crate::game::{idx, is_king_of, ChessGame, GameModel};
use crate::piece::{opposite, opposite_spec, Color, Occupant, Piece};
use crate::search::{
    behind, behind_step, can_move, king_origin, knight_origin, lemma_leap_scan_sound, lemma_slider_origin_sound,
    pawn_origin, slider_origin,
};
use crate::square::{
    indexes_spec, is_valid, maybe_indexes_spec, on_board, square_to_indexes,
    square_to_maybe_indexes,
};

verus! {

/// A square as notation writes it: a file letter and a rank digit. In an
/// origin hint either may be [`crate::square::UNKNOWN`].
#[derive(PartialEq, Eq, Structural, Clone, Copy, Debug)]
pub struct Square {
    pub file: char,
    pub rank: char,
}

/// A move as the notation gives it.
#[derive(PartialEq, Eq, Structural, Clone, Copy, Debug)]
pub enum NotationMove {
    BasicMove {
        from: Square,
        is_capture: bool,
        piece: Piece,
        promoted_to: Option<Piece>,
        to: Square,
    },
    CastleKingside,
    CastleQueenside,
}

/// A move with its exact origin square found; castling is made by the side
/// to move.
#[derive(Clone, Copy, Debug)]
pub enum ResolvedMove {
    BasicMove {
        from: (usize, usize),
        to: (usize, usize),
        piece: Piece,
        is_capture: bool,
        promoted_to: Option<Piece>,
    },
    CastleKingside,
    CastleQueenside,
}

/// Where a `piece` of `color` that moved to `(tx, ty)` came from.
pub open spec fn origin_of(
    g: GameModel,
    piece: Piece,
    tx: int,
    ty: int,
    hx: Option<usize>,
    hy: Option<usize>,
    is_capture: bool,
    color: Color,
) -> Option<(int, int)> {
    match piece {
        Piece::Pawn => pawn_origin(g, tx, ty, hx, is_capture, color),
        Piece::Knight => knight_origin(g, tx, ty, color, hx, hy),
        Piece::King => king_origin(g, tx, ty, color),
        _ => slider_origin(g, tx, ty, color, piece, hx, hy),
    }
}

/// The resolved form of `m` in state `g`, or why there is none.
pub open spec fn resolve_spec(g: GameModel, m: NotationMove) -> Result<ResolvedMove, MoveError> {
    match m {
        NotationMove::BasicMove { from, is_capture, piece, promoted_to, to } => {
            match maybe_indexes_spec(from.file, from.rank) {
                Err(e) => Err(e),
                Ok((hx, hy)) => match indexes_spec(to.file, to.rank) {
                    Err(e) => Err(e),
                    Ok((tx, ty)) => match origin_of(
                        g,
                        piece,
                        tx as int,
                        ty as int,
                        hx,
                        hy,
                        is_capture,
                        g.turn,
                    ) {
                        None => Err(MoveError::UnresolvedMove),
                        Some(o) => Ok(
                            ResolvedMove::BasicMove {
                                from: (o.0 as usize, o.1 as usize),
                                to: (tx, ty),
                                piece,
                                is_capture,
                                promoted_to,
                            },
                        ),
                    },
                },
            }
        },
        NotationMove::CastleKingside => Ok(ResolvedMove::CastleKingside),
        NotationMove::CastleQueenside => Ok(ResolvedMove::CastleQueenside),
    }
}

/// Row of `c`'s back rank.
pub open spec fn back_rank(c: Color) -> int {
    match c {
        Color::White => 7,
        Color::Black => 0,
    }
}

pub open spec fn put(b: Seq<Occupant>, x: int, y: int, o: Occupant) -> Seq<Occupant> {
    b.update(idx(x, y), o)
}

/// The piece that stands on the destination after a basic move.
pub open spec fn result_piece(piece: Piece, promoted_to: Option<Piece>) -> Piece {
    match promoted_to {
        Some(p) => p,
        None => piece,
    }
}

/// A pawn capture onto an empty square takes en passant.
pub open spec fn is_en_passant(g: GameModel, to: (usize, usize), piece: Piece, is_capture: bool) -> bool {
    &&& piece == Piece::Pawn
    &&& is_capture
    &&& g.at(to.0 as int, to.1 as int) is None
    &&& on_board(to.0 as int, to.1 + behind(g.turn))
}

/// Both squares of a basic move are on the board.
pub open spec fn move_on_board(m: ResolvedMove) -> bool {
    m matches ResolvedMove::BasicMove { from, to, .. } ==> from.0 < 8 && from.1 < 8 && to.0 < 8
        && to.1 < 8
}

/// The board after castling on row `l`: the king goes from column 4 to
/// `king_to`, the rook from `rook_from` to `rook_to`.
pub open spec fn castled(
    b: Seq<Occupant>,
    c: Color,
    l: int,
    king_to: int,
    rook_from: int,
    rook_to: int,
) -> Seq<Occupant> {
    put(
        put(put(put(b, king_to, l, Some((c, Piece::King))), 4, l, None), rook_to, l, Some((c, Piece::Rook))),
        rook_from,
        l,
        None,
    )
}

/// The state after the side to move plays `m`.
pub open spec fn apply_spec(g: GameModel, m: ResolvedMove) -> GameModel {
    let c = g.turn;
    let after = match m {
        ResolvedMove::BasicMove { from, to, piece, is_capture, promoted_to } => {
            let b1 = if is_en_passant(g, to, piece, is_capture) {
                put(g.board, to.0 as int, to.1 + behind(c), None)
            } else {
                g.board
            };
            let b2 = put(
                put(b1, to.0 as int, to.1 as int, Some((c, result_piece(piece, promoted_to)))),
                from.0 as int,
                from.1 as int,
                None,
            );
            let moved = GameModel { board: b2, ..g };
            if piece == Piece::King {
                moved.with_king(c, (to.0 as int, to.1 as int))
            } else {
                moved
            }
        },
        ResolvedMove::CastleKingside => GameModel {
            board: castled(g.board, c, back_rank(c), 6, 7, 5),
            ..g
        }.with_king(c, (6, back_rank(c))),
        ResolvedMove::CastleQueenside => GameModel {
            board: castled(g.board, c, back_rank(c), 2, 0, 3),
            ..g
        }.with_king(c, (2, back_rank(c))),
    };
    GameModel { turn: opposite_spec(c), ..after }
}

impl ChessGame {
    /// Finds the exact origin of `m`, leaving the state as it was.
    pub(crate) fn resolve(&mut self, m: &NotationMove) -> (r: Result<ResolvedMove, MoveError>)
        requires
            old(self)@.wf(),
        ensures
            final(self)@ == old(self)@,
            r == resolve_spec(old(self)@, *m),
            r matches Ok(rm) ==> move_on_board(rm),
    {
        match *m {
            NotationMove::BasicMove { from, is_capture, piece, promoted_to, to } => {
                let (hx, hy) = match square_to_maybe_indexes(from.file, from.rank) {
                    Ok(h) => h,
                    Err(e) => return Err(e),
                };
                let (tx, ty) = match square_to_indexes(to.file, to.rank) {
                    Ok(t) => t,
                    Err(e) => return Err(e),
                };
                let color = self.side_to_move();
                let found = match piece {
                    Piece::Pawn => self.find_pawn(tx, ty, hx, is_capture, color),
                    Piece::Knight => self.find_knight(tx, ty, color, hx, hy),
                    Piece::King => self.find_king(tx, ty, color),
                    _ => self.find_slider(tx, ty, color, piece, hx, hy),
                };
                match found {
                    None => Err(MoveError::UnresolvedMove),
                    Some(o) => Ok(
                        ResolvedMove::BasicMove { from: o, to: (tx, ty), piece, is_capture, promoted_to },
                    ),
                }
            },
            NotationMove::CastleKingside => Ok(ResolvedMove::CastleKingside),
            NotationMove::CastleQueenside => Ok(ResolvedMove::CastleQueenside),
        }
    }
}


/// The outcome of playing `m` in state `g`: the next state, or why the move
/// was refused. A refused move leaves the state as it was.
pub open spec fn play_spec(g: GameModel, m: NotationMove) -> Result<GameModel, MoveError> {
    match resolve_spec(g, m) {
        Err(e) => Err(e),
        Ok(rm) => if apply_spec(g, rm).wf() {
            Ok(apply_spec(g, rm))
        } else {
            Err(MoveError::UnsupportedMove)
        },
    }
}

/// Row of `color`'s back rank.
fn back_rank_row(color: Color) -> (r: usize)
    ensures
        r as int == back_rank(color),
{
    match color {
        Color::White => 7,
        Color::Black => 0,
    }
}

impl ChessGame {
    fn en_passant(&self, to: (usize, usize), piece: Piece, is_capture: bool) -> (r: bool)
        requires
            self@.board.len() == 64,
            to.0 < 8,
            to.1 < 8,
        ensures
            r == is_en_passant(self@, to, piece, is_capture),
    {
        let delta = behind_step(self.side_to_move());
        piece == Piece::Pawn && is_capture && self.occupant(to.0, to.1).is_none() && is_valid(
            to.0 as i32,
            to.1 as i32 + delta,
        )
    }

    /// What would stand on `(x, y)` after `rm`.
    fn occupant_after(&self, rm: &ResolvedMove, x: usize, y: usize) -> (r: Occupant)
        requires
            self@.wf(),
            move_on_board(*rm),
            x < 8,
            y < 8,
        ensures
            r == apply_spec(self@, *rm).at(x as int, y as int),
    {
        let c = self.side_to_move();
        let line = back_rank_row(c);
        match *rm {
            ResolvedMove::BasicMove { from, to, piece, is_capture, promoted_to } => {
                let delta = behind_step(c);
                if x == from.0 && y == from.1 {
                    None
                } else if x == to.0 && y == to.1 {
                    match promoted_to {
                        Some(p) => Some((c, p)),
                        None => Some((c, piece)),
                    }
                } else if self.en_passant(to, piece, is_capture) && x == to.0 && y as i32 == to.1
                    as i32 + delta {
                    None
                } else {
                    self.occupant(x, y)
                }
            },
            ResolvedMove::CastleKingside => {
                if y == line && (x == 7 || x == 4) {
                    None
                } else if y == line && x == 5 {
                    Some((c, Piece::Rook))
                } else if y == line && x == 6 {
                    Some((c, Piece::King))
                } else {
                    self.occupant(x, y)
                }
            },
            ResolvedMove::CastleQueenside => {
                if y == line && (x == 0 || x == 4) {
                    None
                } else if y == line && x == 3 {
                    Some((c, Piece::Rook))
                } else if y == line && x == 2 {
                    Some((c, Piece::King))
                } else {
                    self.occupant(x, y)
                }
            },
        }
    }

    /// Where `color`'s king would be cached after `rm`.
    fn king_after(&self, rm: &ResolvedMove, color: Color) -> (r: (usize, usize))
        requires
            self@.wf(),
            move_on_board(*rm),
        ensures
            (r.0 as int, r.1 as int) == apply_spec(self@, *rm).king(color),
            r.0 < 8,
            r.1 < 8,
    {
        let c = self.side_to_move();
        let line = back_rank_row(c);
        if color != c {
            return self.king_square(color);
        }
        match *rm {
            ResolvedMove::BasicMove { to, piece, .. } => {
                if piece == Piece::King {
                    to
                } else {
                    self.king_square(color)
                }
            },
            ResolvedMove::CastleKingside => (6, line),
            ResolvedMove::CastleQueenside => (2, line),
        }
    }

    /// Castles on row `line`: king from column 4 to `king_to`, rook from
    /// `rook_from` to `rook_to`.
    fn castle(&mut self, line: usize, king_to: usize, rook_from: usize, rook_to: usize)
        requires
            old(self)@.board.len() == 64,
            line < 8,
            king_to < 8,
            rook_from < 8,
            rook_to < 8,
        ensures
            final(self)@ == (GameModel {
                board: castled(
                    old(self)@.board,
                    old(self)@.turn,
                    line as int,
                    king_to as int,
                    rook_from as int,
                    rook_to as int,
                ),
                ..old(self)@
            }).with_king(old(self)@.turn, (king_to as int, line as int)),
    {
        let c = self.side_to_move();
        self.set_king(c, (king_to, line));
        self.set_square(king_to, line, Some((c, Piece::King)));
        self.set_square(4, line, None);
        self.set_square(rook_to, line, Some((c, Piece::Rook)));
        self.set_square(rook_from, line, None);
    }

    /// Carries out `rm` for the side to move and hands the move over.
    fn commit(&mut self, rm: &ResolvedMove)
        requires
            old(self)@.board.len() == 64,
            move_on_board(*rm),
        ensures
            final(self)@ == apply_spec(old(self)@, *rm),
    {
        let c = self.side_to_move();
        let line = back_rank_row(c);
        match *rm {
            ResolvedMove::BasicMove { from, to, piece, is_capture, promoted_to } => {
                let new_piece = match promoted_to {
                    Some(p) => p,
                    None => piece,
                };
                if self.en_passant(to, piece, is_capture) {
                    let captured = match c {
                        Color::White => to.1 + 1,
                        Color::Black => to.1 - 1,
                    };
                    self.set_square(to.0, captured, None);
                }
                self.set_square(to.0, to.1, Some((c, new_piece)));
                self.set_square(from.0, from.1, None);
                if piece == Piece::King {
                    self.set_king(c, to);
                }
            },
            ResolvedMove::CastleKingside => self.castle(line, 6, 7, 5),
            ResolvedMove::CastleQueenside => self.castle(line, 2, 0, 3),
        }
        self.set_turn(opposite(&c));
    }

    /// Plays one notation move for the side to move: finds its origin,
    /// moves the piece (with castling, en passant and promotion), and hands
    /// the move to the other side. On error nothing changes.
    pub fn play(&mut self, game_move: &NotationMove) -> (r: Result<(), MoveError>)
        requires
            old(self)@.wf(),
        ensures
            final(self)@.wf(),
            match play_spec(old(self)@, *game_move) {
                Ok(next) => r is Ok && final(self)@ == next,
                Err(e) => r == Err::<(), MoveError>(e) && final(self)@ == old(self)@,
            },
    {
        let rm = match self.resolve(game_move) {
            Ok(rm) => rm,
            Err(e) => return Err(e),
        };
        let white = self.king_after(&rm, Color::White);
        let black = self.king_after(&rm, Color::Black);
        if !is_king_of(self.occupant_after(&rm, white.0, white.1), Color::White) || !is_king_of(
            self.occupant_after(&rm, black.0, black.1),
            Color::Black,
        ) {
            return Err(MoveError::UnsupportedMove);
        }
        self.commit(&rm);
        Ok(())
    }
}

/// Both squares of a resolved move are on the board.
pub proof fn lemma_resolved_on_board(g: GameModel, m: NotationMove)
    requires
        resolve_spec(g, m) is Ok,
    ensures
        move_on_board(resolve_spec(g, m)->Ok_0),
{
    if let NotationMove::BasicMove { from, is_capture, piece, promoted_to, to } = m {
        let (hx, hy) = maybe_indexes_spec(from.file, from.rank)->Ok_0;
        let (tx, ty) = indexes_spec(to.file, to.rank)->Ok_0;
        let c = g.turn;
        match piece {
            Piece::Pawn => {},
            Piece::Knight => {
                if !(hx is Some && hy is Some) {
                    lemma_leap_scan_sound(g, tx as int, ty as int, c, piece, hx, hy, true, 0);
                }
            },
            Piece::King => {
                lemma_leap_scan_sound(g, tx as int, ty as int, c, piece, None, None, false, 0);
            },
            _ => {
                if !(hx is Some && hy is Some) {
                    lemma_slider_origin_sound(g, tx as int, ty as int, c, piece, hx, hy);
                }
            },
        }
    }
}

/// Whether the origin hint of `m` names a whole square.
pub open spec fn names_origin(m: NotationMove) -> bool {
    m matches NotationMove::BasicMove { from, .. } && maybe_indexes_spec(from.file, from.rank) matches Ok(
        (Some(_), Some(_)),
    )
}

/// Disambiguation picks a real, unpinned piece: unless a knight, bishop,
/// rook or queen move names its whole origin, the square a move is resolved
/// to holds a piece of the moving kind and color, and for every kind but
/// the king, taking it off that square uncovers no slider's line to its own
/// king.
pub proof fn lemma_resolved_origin_holds_piece(g: GameModel, m: NotationMove)
    requires
        resolve_spec(g, m) matches Ok(ResolvedMove::BasicMove { piece, .. }) && (piece
            == Piece::Pawn || piece == Piece::King || !names_origin(m)),
    ensures
        ({
            let rm = resolve_spec(g, m)->Ok_0;
            let from = rm->BasicMove_from;
            let piece = rm->BasicMove_piece;
            &&& g.at(from.0 as int, from.1 as int) == Some((g.turn, piece))
            &&& piece != Piece::King ==> can_move(g, from.0 as int, from.1 as int, g.turn)
        }),
{
    if let NotationMove::BasicMove { from, is_capture, piece, promoted_to, to } = m {
        let (hx, hy) = maybe_indexes_spec(from.file, from.rank)->Ok_0;
        let (tx, ty) = indexes_spec(to.file, to.rank)->Ok_0;
        let c = g.turn;
        match piece {
            Piece::Pawn => {},
            Piece::Knight => {
                lemma_leap_scan_sound(g, tx as int, ty as int, c, piece, hx, hy, true, 0);
            },
            Piece::King => {
                lemma_leap_scan_sound(g, tx as int, ty as int, c, piece, None, None, false, 0);
            },
            _ => {
                lemma_slider_origin_sound(g, tx as int, ty as int, c, piece, hx, hy);
            },
        }
    }
}

/// A basic move whose origin and destination differ keeps material: the
/// origin is left empty, the destination holds the moved piece (or what it
/// was promoted to), and no other square changes, save that en passant also
/// empties the square of the captured pawn, one row behind the destination.
pub proof fn lemma_basic_move_effect(g: GameModel, m: NotationMove)
    requires
        g.wf(),
        play_spec(g, m) is Ok,
        resolve_spec(g, m) matches Ok(ResolvedMove::BasicMove { from, to, .. }) && from != to,
    ensures
        ({
            let n = play_spec(g, m)->Ok_0;
            let rm = resolve_spec(g, m)->Ok_0;
            let from = rm->BasicMove_from;
            let to = rm->BasicMove_to;
            let ep = is_en_passant(g, to, rm->BasicMove_piece, rm->BasicMove_is_capture);
            let captured = (to.0 as int, to.1 + behind(g.turn));
            &&& n.at(from.0 as int, from.1 as int) is None
            &&& n.at(to.0 as int, to.1 as int) == Some(
                (g.turn, result_piece(rm->BasicMove_piece, rm->BasicMove_promoted_to)),
            )
            &&& ep ==> n.at(captured.0, captured.1) is None
            &&& forall|x: int, y: int|
                on_board(x, y) && (x, y) != (from.0 as int, from.1 as int) && (x, y) != (
                    to.0 as int,
                    to.1 as int,
                ) && !(ep && (x, y) == captured) ==> #[trigger] n.at(x, y) == g.at(x, y)
        }),
{
    let rm = resolve_spec(g, m)->Ok_0;
    lemma_resolved_on_board(g, m);
    assert(play_spec(g, m)->Ok_0 == apply_spec(g, rm));
    if let ResolvedMove::BasicMove { from, to, piece, is_capture, promoted_to } = rm {
        lemma_apply_basic(g, from, to, piece, is_capture, promoted_to);
    }
}

proof fn lemma_apply_basic(
    g: GameModel,
    from: (usize, usize),
    to: (usize, usize),
    piece: Piece,
    is_capture: bool,
    promoted_to: Option<Piece>,
)
    requires
        g.wf(),
        from.0 < 8 && from.1 < 8 && to.0 < 8 && to.1 < 8,
        from != to,
    ensures
        ({
            let n = apply_spec(g, ResolvedMove::BasicMove { from, to, piece, is_capture, promoted_to });
            let ep = is_en_passant(g, to, piece, is_capture);
            let captured = (to.0 as int, to.1 + behind(g.turn));
            &&& n.at(from.0 as int, from.1 as int) is None
            &&& n.at(to.0 as int, to.1 as int) == Some((g.turn, result_piece(piece, promoted_to)))
            &&& ep ==> n.at(captured.0, captured.1) is None
            &&& forall|x: int, y: int|
                on_board(x, y) && (x, y) != (from.0 as int, from.1 as int) && (x, y) != (
                    to.0 as int,
                    to.1 as int,
                ) && !(ep && (x, y) == captured) ==> #[trigger] n.at(x, y) == g.at(x, y)
        }),
{
    let n = apply_spec(g, ResolvedMove::BasicMove { from, to, piece, is_capture, promoted_to });
    let ep = is_en_passant(g, to, piece, is_capture);
    let captured = (to.0 as int, to.1 + behind(g.turn));
    assert(idx(from.0 as int, from.1 as int) != idx(to.0 as int, to.1 as int));
    assert forall|x: int, y: int|
        on_board(x, y) && (x, y) != (from.0 as int, from.1 as int) && (x, y) != (
            to.0 as int,
            to.1 as int,
        ) && !(ep && (x, y) == captured) implies #[trigger] n.at(x, y) == g.at(x, y) by {
        assert(idx(x, y) != idx(from.0 as int, from.1 as int));
        assert(idx(x, y) != idx(to.0 as int, to.1 as int));
        if ep {
            assert(idx(x, y) != idx(captured.0, captured.1));
        }
    }
}

/// White castling kingside moves the king from e1 to g1 and the rook from
/// h1 to f1 in one move, caches g1 as the White king's square, leaves e1
/// and h1 empty, and hands the move to Black.
pub proof fn lemma_white_castles_kingside(g: GameModel)
    requires
        g.wf(),
        g.turn == Color::White,
        play_spec(g, NotationMove::CastleKingside) is Ok,
    ensures
        ({
            let n = play_spec(g, NotationMove::CastleKingside)->Ok_0;
            &&& n.at(6, 7) == Some((Color::White, Piece::King))
            &&& n.at(5, 7) == Some((Color::White, Piece::Rook))
            &&& n.at(4, 7) is None
            &&& n.at(7, 7) is None
            &&& n.white_king == (6int, 7int)
            &&& n.turn == Color::Black
        }),
{
}

/// En passant: a pawn capture onto an empty square also empties the square
/// one row behind the destination, on the row the capturing pawn came from.
pub proof fn lemma_en_passant(g: GameModel, m: NotationMove)
    requires
        g.wf(),
        play_spec(g, m) is Ok,
        resolve_spec(g, m) matches Ok(ResolvedMove::BasicMove { to, piece, is_capture, .. })
            && piece == Piece::Pawn && is_capture && g.at(to.0 as int, to.1 as int) is None
            && on_board(to.0 as int, to.1 + behind(g.turn)),
    ensures
        ({
            let n = play_spec(g, m)->Ok_0;
            let rm = resolve_spec(g, m)->Ok_0;
            let to = rm->BasicMove_to;
            &&& rm->BasicMove_from.1 == to.1 + behind(g.turn)
            &&& n.at(to.0 as int, to.1 + behind(g.turn)) is None
            &&& n.at(to.0 as int, to.1 as int) == Some(
                (g.turn, result_piece(Piece::Pawn, rm->BasicMove_promoted_to)),
            )
        }),
{
}

/// The outcome of playing `ms` in order from `g`: the final state, or the
/// error of the first move that could not be played.
pub open spec fn replay(g: GameModel, ms: Seq<NotationMove>) -> Result<GameModel, MoveError>
    decreases ms.len(),
{
    if ms.len() == 0 {
        Ok(g)
    } else {
        match play_spec(g, ms[0]) {
            Ok(n) => replay(n, ms.drop_first()),
            Err(e) => Err(e),
        }
    }
}

} // verus!
