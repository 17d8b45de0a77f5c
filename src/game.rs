//! The game state: board, cached king squares and side to move.

use vstd::prelude::*;
use crate::piece::{Color, Occupant, Piece};
use crate::square::on_board;

verus! {

/// Position of square `(x, y)` in the row-major board sequence.
pub open spec fn idx(x: int, y: int) -> int {
    8 * y + x
}

/// The mathematical model of a [`ChessGame`].
pub struct GameModel {
    /// The 64 squares, row by row from rank 8 down to rank 1.
    pub board: Seq<Occupant>,
    pub white_king: (int, int),
    pub black_king: (int, int),
    pub turn: Color,
}

impl GameModel {
    pub open spec fn at(self, x: int, y: int) -> Occupant {
        self.board[idx(x, y)]
    }

    pub open spec fn king(self, c: Color) -> (int, int) {
        match c {
            Color::White => self.white_king,
            Color::Black => self.black_king,
        }
    }

    /// The same state with `color`'s king cached at `k`.
    pub open spec fn with_king(self, c: Color, k: (int, int)) -> GameModel {
        match c {
            Color::White => GameModel { white_king: k, ..self },
            Color::Black => GameModel { black_king: k, ..self },
        }
    }

    /// Each cached king square is on the board and holds that color's king.
    pub open spec fn wf(self) -> bool {
        &&& self.board.len() == 64
        &&& on_board(self.white_king.0, self.white_king.1)
        &&& on_board(self.black_king.0, self.black_king.1)
        &&& self.at(self.white_king.0, self.white_king.1) == Some((Color::White, Piece::King))
        &&& self.at(self.black_king.0, self.black_king.1) == Some((Color::Black, Piece::King))
    }
}

/// The piece that starts on column `x` of a back rank.
pub open spec fn back_rank_piece(x: int) -> Piece {
    if x == 0 || x == 7 {
        Piece::Rook
    } else if x == 1 || x == 6 {
        Piece::Knight
    } else if x == 2 || x == 5 {
        Piece::Bishop
    } else if x == 3 {
        Piece::Queen
    } else {
        Piece::King
    }
}

/// The standard starting position.
pub open spec fn initial_at(x: int, y: int) -> Occupant {
    if y == 0 {
        Some((Color::Black, back_rank_piece(x)))
    } else if y == 1 {
        Some((Color::Black, Piece::Pawn))
    } else if y == 6 {
        Some((Color::White, Piece::Pawn))
    } else if y == 7 {
        Some((Color::White, back_rank_piece(x)))
    } else {
        None
    }
}

/// Whether some square of `b` holds `c`'s king.
pub open spec fn has_king(b: Seq<Occupant>, c: Color) -> bool {
    exists|i: int| 0 <= i < b.len() && b[i] == Some((c, Piece::King))
}

/// `k` is the first square, in row order from rank 8, that holds `c`'s king.
pub open spec fn first_king_at(b: Seq<Occupant>, c: Color, k: (int, int)) -> bool {
    &&& on_board(k.0, k.1)
    &&& b[idx(k.0, k.1)] == Some((c, Piece::King))
    &&& forall|j: int| 0 <= j < idx(k.0, k.1) ==> b[j] != Some((c, Piece::King))
}

pub(crate) fn is_king_of(o: Occupant, color: Color) -> (r: bool)
    ensures
        r == (o == Some((color, Piece::King))),
{
    match o {
        Some((c, Piece::King)) => c == color,
        _ => false,
    }
}

fn first_king(board: &Vec<Occupant>, color: Color) -> (r: Option<(usize, usize)>)
    requires
        board@.len() == 64,
    ensures
        match r {
            Some(k) => first_king_at(board@, color, (k.0 as int, k.1 as int)),
            None => !has_king(board@, color),
        },
{
    let mut y: usize = 0;
    while y < 8
        invariant
            board@.len() == 64,
            y <= 8,
            forall|j: int| 0 <= j < 8 * y ==> board@[j] != Some((color, Piece::King)),
        decreases 8 - y,
    {
        let mut x: usize = 0;
        while x < 8
            invariant
                board@.len() == 64,
                y < 8,
                x <= 8,
                forall|j: int| 0 <= j < 8 * y + x ==> board@[j] != Some((color, Piece::King)),
            decreases 8 - x,
        {
            if is_king_of(board[y * 8 + x], color) {
                return Some((x, y));
            }
            x += 1;
        }
        y += 1;
    }
    None
}

/// The state a game starts from: the standard position, White to move.
pub open spec fn initial_model() -> GameModel {
    GameModel {
        board: Seq::new(64, |i: int| initial_at(i % 8, i / 8)),
        white_king: (4, 7),
        black_king: (4, 0),
        turn: Color::White,
    }
}

/// A game being replayed.
pub struct ChessGame {
    black_king: (usize, usize),
    board: Vec<Occupant>,
    turn: Color,
    white_king: (usize, usize),
}

impl View for ChessGame {
    type V = GameModel;

    closed spec fn view(&self) -> GameModel {
        GameModel {
            board: self.board@,
            white_king: (self.white_king.0 as int, self.white_king.1 as int),
            black_king: (self.black_king.0 as int, self.black_king.1 as int),
            turn: self.turn,
        }
    }
}

fn back_rank_piece_at(x: usize) -> (r: Piece)
    ensures
        r == back_rank_piece(x as int),
{
    if x == 0 || x == 7 {
        Piece::Rook
    } else if x == 1 || x == 6 {
        Piece::Knight
    } else if x == 2 || x == 5 {
        Piece::Bishop
    } else if x == 3 {
        Piece::Queen
    } else {
        Piece::King
    }
}

fn initial_occupant(x: usize, y: usize) -> (r: Occupant)
    ensures
        r == initial_at(x as int, y as int),
{
    if y == 0 {
        Some((Color::Black, back_rank_piece_at(x)))
    } else if y == 1 {
        Some((Color::Black, Piece::Pawn))
    } else if y == 6 {
        Some((Color::White, Piece::Pawn))
    } else if y == 7 {
        Some((Color::White, back_rank_piece_at(x)))
    } else {
        None
    }
}

impl ChessGame {
    /// The standard starting position, White to move.
    pub fn initial() -> (r: Self)
        ensures
            r@.wf(),
            forall|x: int, y: int| on_board(x, y) ==> #[trigger] r@.at(x, y) == initial_at(x, y),
            r@.turn == Color::White,
            r@.white_king == (4int, 7int),
            r@.black_king == (4int, 0int),
            r@ == initial_model(),
    {
        let mut board: Vec<Occupant> = Vec::new();
        let mut y: usize = 0;
        while y < 8
            invariant
                y <= 8,
                board@.len() == 8 * y,
                forall|a: int, b: int|
                    0 <= a < 8 && 0 <= b < y ==> #[trigger] board@[idx(a, b)] == initial_at(a, b),
            decreases 8 - y,
        {
            let mut x: usize = 0;
            while x < 8
                invariant
                    y < 8,
                    x <= 8,
                    board@.len() == 8 * y + x,
                    forall|a: int, b: int|
                        0 <= a < 8 && 0 <= b < y ==> #[trigger] board@[idx(a, b)] == initial_at(a, b),
                    forall|a: int| 0 <= a < x ==> #[trigger] board@[idx(a, y as int)] == initial_at(a, y as int),
                decreases 8 - x,
            {
                board.push(initial_occupant(x, y));
                x += 1;
            }
            y += 1;
        }
        let r = ChessGame { black_king: (4, 0), board, turn: Color::White, white_king: (4, 7) };
        assert forall|i: int| 0 <= i < 64 implies #[trigger] r@.board[i] == initial_model().board[i] by {
            assert(idx(i % 8, i / 8) == i);
        }
        assert(r@.board =~= initial_model().board);
        r
    }

    /// A game from a given position: the 64 squares row by row from rank 8
    /// (column `x` of row `y` at `8 * y + x`), and the side to move. `None`
    /// unless there are 64 squares and both colors have a king; each king is
    /// cached at its first square in that order.
    pub fn from_board(board: Vec<Occupant>, turn: Color) -> (r: Option<Self>)
        ensures
            r is Some <==> board@.len() == 64 && has_king(board@, Color::White) && has_king(
                board@,
                Color::Black,
            ),
            r matches Some(g) ==> {
                &&& g@.wf()
                &&& g@.board == board@
                &&& g@.turn == turn
                &&& first_king_at(board@, Color::White, g@.white_king)
                &&& first_king_at(board@, Color::Black, g@.black_king)
            },
    {
        if board.len() != 64 {
            return None;
        }
        let white_king = match first_king(&board, Color::White) {
            Some(k) => k,
            None => return None,
        };
        let black_king = match first_king(&board, Color::Black) {
            Some(k) => k,
            None => return None,
        };
        Some(ChessGame { black_king, board, turn, white_king })
    }

    /// What stands on square `(x, y)`.
    pub fn occupant(&self, x: usize, y: usize) -> (r: Occupant)
        requires
            self@.board.len() == 64,
            x < 8,
            y < 8,
        ensures
            r == self@.at(x as int, y as int),
    {
        self.board[y * 8 + x]
    }

    /// The cached square of `color`'s king.
    pub fn king_square(&self, color: Color) -> (r: (usize, usize))
        ensures
            (r.0 as int, r.1 as int) == self@.king(color),
    {
        match color {
            Color::White => self.white_king,
            Color::Black => self.black_king,
        }
    }

    /// Puts `o` on square `(x, y)`, leaving everything else as it was.
    pub(crate) fn set_square(&mut self, x: usize, y: usize, o: Occupant)
        requires
            old(self)@.board.len() == 64,
            x < 8,
            y < 8,
        ensures
            final(self)@ == (GameModel {
                board: old(self)@.board.update(idx(x as int, y as int), o),
                ..old(self)@
            }),
    {
        self.board.set(y * 8 + x, o);
    }

    /// Caches `k` as the square of `color`'s king.
    pub(crate) fn set_king(&mut self, color: Color, k: (usize, usize))
        ensures
            final(self)@ == old(self)@.with_king(color, (k.0 as int, k.1 as int)),
    {
        match color {
            Color::White => self.white_king = k,
            Color::Black => self.black_king = k,
        }
    }

    /// Hands the move to `color`.
    pub(crate) fn set_turn(&mut self, color: Color)
        ensures
            final(self)@ == (GameModel { turn: color, ..old(self)@ }),
    {
        self.turn = color;
    }

    /// The side whose turn it is.
    pub fn side_to_move(&self) -> (r: Color)
        ensures
            r == self@.turn,
    {
        self.turn
    }
}

} // verus!
