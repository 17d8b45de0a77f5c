//! Candidate search: which square a piece of a given kind and color could
//! have come from to reach a target square, and the pin filter that rejects
//! candidates whose departure would uncover their own king.

use vstd::prelude::*;
use crate::game::{idx, ChessGame, GameModel};
use crate::piece::{opposite, opposite_spec, Color, Occupant, Piece};
use crate::square::{is_valid, on_board};

verus! {

/// The eight sliding directions: the four diagonals, then the four
/// orthogonals.
pub open spec fn dir(i: int) -> (int, int) {
    if i == 0 {
        (1, 1)
    } else if i == 1 {
        (1, -1)
    } else if i == 2 {
        (-1, 1)
    } else if i == 3 {
        (-1, -1)
    } else if i == 4 {
        (1, 0)
    } else if i == 5 {
        (0, 1)
    } else if i == 6 {
        (-1, 0)
    } else {
        (0, -1)
    }
}

/// Whether a piece of kind `p` slides along direction `i`.
pub open spec fn slides_along(p: Piece, i: int) -> bool {
    p == Piece::Queen || (p == Piece::Bishop && i < 4) || (p == Piece::Rook && 4 <= i)
}

/// Coordinates as mathematical integers.
pub open spec fn coords(o: Option<(usize, usize)>) -> Option<(int, int)> {
    match o {
        Some((x, y)) => Some((x as int, y as int)),
        None => None,
    }
}

/// The first occupied square met when walking from `(x, y)` in steps of
/// `(dx, dy)`, looking at no more than `fuel` squares.
pub open spec fn first_occupied(
    b: Seq<Occupant>,
    x: int,
    y: int,
    dx: int,
    dy: int,
    fuel: nat,
) -> Option<(int, int)>
    decreases fuel,
{
    if fuel == 0 || !on_board(x, y) {
        None
    } else if b[idx(x, y)] is Some {
        Some((x, y))
    } else {
        first_occupied(b, x + dx, y + dy, dx, dy, (fuel - 1) as nat)
    }
}

/// Whether the nearest piece seen from `k` along direction `i` is a piece of
/// `enemy` that slides along that direction.
pub open spec fn attacks_along(b: Seq<Occupant>, k: (int, int), enemy: Color, i: int) -> bool {
    let d = dir(i);
    match first_occupied(b, k.0 + d.0, k.1 + d.1, d.0, d.1, 8) {
        Some(s) => match b[idx(s.0, s.1)] {
            Some((c, p)) => c == enemy && slides_along(p, i),
            None => false,
        },
        None => false,
    }
}

/// Whether square `k` is attacked by a bishop, rook or queen of `enemy`
/// over an unobstructed line.
pub open spec fn exposed(b: Seq<Occupant>, k: (int, int), enemy: Color) -> bool {
    exists|i: int| 0 <= i < 8 && #[trigger] attacks_along(b, k, enemy, i)
}

/// The pin filter: emptying square `(x, y)` leaves `color`'s king out of
/// reach of the opposing sliders.
pub open spec fn can_move(g: GameModel, x: int, y: int, color: Color) -> bool {
    g.at(x, y) is None || !exposed(
        g.board.update(idx(x, y), None),
        g.king(color),
        opposite_spec(color),
    )
}

/// Whether `(x, y)` agrees with a partial origin: the file when one is
/// given, else the rank when one is given.
pub open spec fn hint_ok(x: int, y: int, hx: Option<usize>, hy: Option<usize>) -> bool {
    match hx {
        Some(fx) => x == fx,
        None => match hy {
            Some(fy) => y == fy,
            None => true,
        },
    }
}

/// Walks from `(x, y)` in steps of `(dx, dy)` looking for a `piece` of
/// `color` that agrees with the hint and passes the pin filter. Other such
/// pieces are passed over; any other piece blocks the walk.
pub open spec fn slide_ray(
    g: GameModel,
    x: int,
    y: int,
    dx: int,
    dy: int,
    color: Color,
    piece: Piece,
    hx: Option<usize>,
    hy: Option<usize>,
    fuel: nat,
) -> Option<(int, int)>
    decreases fuel,
{
    if fuel == 0 || !on_board(x, y) {
        None
    } else {
        match g.at(x, y) {
            None => slide_ray(g, x + dx, y + dy, dx, dy, color, piece, hx, hy, (fuel - 1) as nat),
            Some((c, p)) => if c == color && p == piece {
                if hint_ok(x, y, hx, hy) && can_move(g, x, y, color) {
                    Some((x, y))
                } else {
                    slide_ray(g, x + dx, y + dy, dx, dy, color, piece, hx, hy, (fuel - 1) as nat)
                }
            } else {
                None
            },
        }
    }
}

/// The first candidate found along directions `i`, `i + 1`, ... up to `end`
/// (exclusive), walking outwards from the target `(tx, ty)`.
pub open spec fn slide_scan(
    g: GameModel,
    tx: int,
    ty: int,
    color: Color,
    piece: Piece,
    hx: Option<usize>,
    hy: Option<usize>,
    i: int,
    end: int,
) -> Option<(int, int)>
    decreases end - i,
{
    if i >= end {
        None
    } else {
        let d = dir(i);
        match slide_ray(g, tx + d.0, ty + d.1, d.0, d.1, color, piece, hx, hy, 8) {
            Some(s) => Some(s),
            None => slide_scan(g, tx, ty, color, piece, hx, hy, i + 1, end),
        }
    }
}

/// The directions a slider walks: the diagonals for a bishop, the
/// orthogonals for a rook, all eight for a queen.
pub open spec fn dir_range(p: Piece) -> (int, int) {
    match p {
        Piece::Bishop => (0, 4),
        Piece::Rook => (4, 8),
        _ => (0, 8),
    }
}

/// Origin of a bishop, rook or queen move: the hint when it names the whole
/// square, else the first candidate in direction order.
pub open spec fn slider_origin(
    g: GameModel,
    tx: int,
    ty: int,
    color: Color,
    piece: Piece,
    hx: Option<usize>,
    hy: Option<usize>,
) -> Option<(int, int)> {
    match (hx, hy) {
        (Some(fx), Some(fy)) => Some((fx as int, fy as int)),
        _ => slide_scan(g, tx, ty, color, piece, hx, hy, dir_range(piece).0, dir_range(piece).1),
    }
}

/// The offsets a knight (any other kind: a king) may have come from.
pub open spec fn leap(p: Piece, i: int) -> (int, int) {
    if p == Piece::Knight {
        if i == 0 {
            (-1, -2)
        } else if i == 1 {
            (-2, -1)
        } else if i == 2 {
            (1, -2)
        } else if i == 3 {
            (2, -1)
        } else if i == 4 {
            (-1, 2)
        } else if i == 5 {
            (-2, 1)
        } else if i == 6 {
            (1, 2)
        } else {
            (2, 1)
        }
    } else {
        if i == 0 {
            (-1, -1)
        } else if i == 1 {
            (0, -1)
        } else if i == 2 {
            (1, -1)
        } else if i == 3 {
            (-1, 0)
        } else if i == 4 {
            (1, 0)
        } else if i == 5 {
            (-1, 1)
        } else if i == 6 {
            (0, 1)
        } else {
            (1, 1)
        }
    }
}

pub open spec fn leap_candidate(
    g: GameModel,
    x: int,
    y: int,
    color: Color,
    piece: Piece,
    hx: Option<usize>,
    hy: Option<usize>,
    pin: bool,
) -> bool {
    &&& on_board(x, y)
    &&& g.at(x, y) == Some((color, piece))
    &&& hint_ok(x, y, hx, hy)
    &&& (pin ==> can_move(g, x, y, color))
}

/// The first candidate among the offsets `i`, `i + 1`, ... of `piece`.
pub open spec fn leap_scan(
    g: GameModel,
    tx: int,
    ty: int,
    color: Color,
    piece: Piece,
    hx: Option<usize>,
    hy: Option<usize>,
    pin: bool,
    i: int,
) -> Option<(int, int)>
    decreases 8 - i,
{
    if i >= 8 {
        None
    } else {
        let d = leap(piece, i);
        if leap_candidate(g, tx + d.0, ty + d.1, color, piece, hx, hy, pin) {
            Some((tx + d.0, ty + d.1))
        } else {
            leap_scan(g, tx, ty, color, piece, hx, hy, pin, i + 1)
        }
    }
}

/// Origin of a knight move: the hint when it names the whole square, else
/// the first knight in offset order that agrees with it and is not pinned.
pub open spec fn knight_origin(
    g: GameModel,
    tx: int,
    ty: int,
    color: Color,
    hx: Option<usize>,
    hy: Option<usize>,
) -> Option<(int, int)> {
    match (hx, hy) {
        (Some(fx), Some(fy)) => Some((fx as int, fy as int)),
        _ => leap_scan(g, tx, ty, color, Piece::Knight, hx, hy, true, 0),
    }
}

/// Origin of a king move: the first adjacent square holding the king.
pub open spec fn king_origin(g: GameModel, tx: int, ty: int, color: Color) -> Option<(int, int)> {
    leap_scan(g, tx, ty, color, Piece::King, None, None, false, 0)
}

/// The row step from a pawn's destination back towards where it came from.
pub open spec fn behind(c: Color) -> int {
    match c {
        Color::White => 1,
        Color::Black => -1,
    }
}

pub open spec fn pawn_at(g: GameModel, x: int, y: int, color: Color) -> bool {
    on_board(x, y) && g.at(x, y) == Some((color, Piece::Pawn)) && can_move(g, x, y, color)
}

/// Origin of a pawn move. A capture comes diagonally from the hinted file,
/// or else from the left, then the right; a plain move comes from one
/// square behind, or two when the square between is empty.
pub open spec fn pawn_origin(
    g: GameModel,
    tx: int,
    ty: int,
    hx: Option<usize>,
    is_capture: bool,
    color: Color,
) -> Option<(int, int)> {
    let y1 = ty + behind(color);
    let y2 = ty + 2 * behind(color);
    if !(0 <= y1 < 8) {
        None
    } else if is_capture {
        match hx {
            Some(fx) => if pawn_at(g, fx as int, y1, color) {
                Some((fx as int, y1))
            } else {
                None
            },
            None => if pawn_at(g, tx - 1, y1, color) {
                Some((tx - 1, y1))
            } else if pawn_at(g, tx + 1, y1, color) {
                Some((tx + 1, y1))
            } else {
                None
            },
        }
    } else if pawn_at(g, tx, y1, color) {
        Some((tx, y1))
    } else if g.at(tx, y1) is None && pawn_at(g, tx, y2, color) {
        Some((tx, y2))
    } else {
        None
    }
}

/// Hints that name a column or row of the board.
pub open spec fn hints_valid(hx: Option<usize>, hy: Option<usize>) -> bool {
    (hx matches Some(v) ==> v < 8) && (hy matches Some(v) ==> v < 8)
}

pub open spec fn found_on_board(r: Option<(usize, usize)>) -> bool {
    r matches Some(s) ==> s.0 < 8 && s.1 < 8
}

/// The row step from a pawn's destination back to its origin.
pub(crate) fn behind_step(color: Color) -> (r: i32)
    ensures
        r as int == behind(color),
{
    match color {
        Color::White => 1,
        Color::Black => -1,
    }
}

fn hint_matches(x: usize, y: usize, hx: Option<usize>, hy: Option<usize>) -> (r: bool)
    ensures
        r == hint_ok(x as int, y as int, hx, hy),
{
    match hx {
        Some(fx) => x == fx,
        None => match hy {
            Some(fy) => y == fy,
            None => true,
        },
    }
}

fn leap_offset(p: Piece, i: usize) -> (r: (i32, i32))
    requires
        i < 8,
    ensures
        (r.0 as int, r.1 as int) == leap(p, i as int),
{
    if p == Piece::Knight {
        if i == 0 {
            (-1, -2)
        } else if i == 1 {
            (-2, -1)
        } else if i == 2 {
            (1, -2)
        } else if i == 3 {
            (2, -1)
        } else if i == 4 {
            (-1, 2)
        } else if i == 5 {
            (-2, 1)
        } else if i == 6 {
            (1, 2)
        } else {
            (2, 1)
        }
    } else {
        if i == 0 {
            (-1, -1)
        } else if i == 1 {
            (0, -1)
        } else if i == 2 {
            (1, -1)
        } else if i == 3 {
            (-1, 0)
        } else if i == 4 {
            (1, 0)
        } else if i == 5 {
            (-1, 1)
        } else if i == 6 {
            (0, 1)
        } else {
            (1, 1)
        }
    }
}


proof fn lemma_slide_ray_sound(
    g: GameModel,
    x: int,
    y: int,
    dx: int,
    dy: int,
    color: Color,
    piece: Piece,
    hx: Option<usize>,
    hy: Option<usize>,
    fuel: nat,
)
    requires
        slide_ray(g, x, y, dx, dy, color, piece, hx, hy, fuel) is Some,
    ensures
        ({
            let s = slide_ray(g, x, y, dx, dy, color, piece, hx, hy, fuel)->Some_0;
            &&& on_board(s.0, s.1)
            &&& g.at(s.0, s.1) == Some((color, piece))
            &&& hint_ok(s.0, s.1, hx, hy)
            &&& can_move(g, s.0, s.1, color)
        }),
    decreases fuel,
{
    if fuel > 0 && on_board(x, y) {
        let found_here = g.at(x, y) == Some((color, piece)) && hint_ok(x, y, hx, hy) && can_move(
            g,
            x,
            y,
            color,
        );
        if !found_here {
            lemma_slide_ray_sound(g, x + dx, y + dy, dx, dy, color, piece, hx, hy, (fuel - 1) as nat);
        }
    }
}

proof fn lemma_slide_scan_sound(
    g: GameModel,
    tx: int,
    ty: int,
    color: Color,
    piece: Piece,
    hx: Option<usize>,
    hy: Option<usize>,
    i: int,
    end: int,
)
    requires
        slide_scan(g, tx, ty, color, piece, hx, hy, i, end) is Some,
    ensures
        ({
            let s = slide_scan(g, tx, ty, color, piece, hx, hy, i, end)->Some_0;
            &&& on_board(s.0, s.1)
            &&& g.at(s.0, s.1) == Some((color, piece))
            &&& hint_ok(s.0, s.1, hx, hy)
            &&& can_move(g, s.0, s.1, color)
        }),
    decreases end - i,
{
    if i < end {
        let d = dir(i);
        if slide_ray(g, tx + d.0, ty + d.1, d.0, d.1, color, piece, hx, hy, 8) is Some {
            lemma_slide_ray_sound(g, tx + d.0, ty + d.1, d.0, d.1, color, piece, hx, hy, 8);
        } else {
            lemma_slide_scan_sound(g, tx, ty, color, piece, hx, hy, i + 1, end);
        }
    }
}

/// Disambiguation of a bishop, rook or queen move that does not name its
/// whole origin: the square found holds a piece of the required kind and
/// color, lies on the hinted file (or, with no file, the hinted rank), and
/// passes the pin filter. So of two rooks that reach the destination, a
/// file hint picks the one on that file, and with no hint a pinned rook is
/// never picked.
pub proof fn lemma_slider_origin_sound(
    g: GameModel,
    tx: int,
    ty: int,
    color: Color,
    piece: Piece,
    hx: Option<usize>,
    hy: Option<usize>,
)
    requires
        !(hx is Some && hy is Some),
        slider_origin(g, tx, ty, color, piece, hx, hy) is Some,
    ensures
        ({
            let s = slider_origin(g, tx, ty, color, piece, hx, hy)->Some_0;
            &&& on_board(s.0, s.1)
            &&& g.at(s.0, s.1) == Some((color, piece))
            &&& hint_ok(s.0, s.1, hx, hy)
            &&& can_move(g, s.0, s.1, color)
        }),
{
    lemma_slide_scan_sound(g, tx, ty, color, piece, hx, hy, dir_range(piece).0, dir_range(piece).1);
}

/// A knight or king search that does not take the origin from a full hint
/// returns only a square holding a piece of the required kind and color
/// that agrees with the hint and, when `pin` is set, passes the pin filter.
pub proof fn lemma_leap_scan_sound(
    g: GameModel,
    tx: int,
    ty: int,
    color: Color,
    piece: Piece,
    hx: Option<usize>,
    hy: Option<usize>,
    pin: bool,
    i: int,
)
    requires
        leap_scan(g, tx, ty, color, piece, hx, hy, pin, i) is Some,
    ensures
        ({
            let s = leap_scan(g, tx, ty, color, piece, hx, hy, pin, i)->Some_0;
            leap_candidate(g, s.0, s.1, color, piece, hx, hy, pin)
        }),
    decreases 8 - i,
{
    if i < 8 {
        let d = leap(piece, i);
        if !leap_candidate(g, tx + d.0, ty + d.1, color, piece, hx, hy, pin) {
            lemma_leap_scan_sound(g, tx, ty, color, piece, hx, hy, pin, i + 1);
        }
    }
}

fn direction(i: usize) -> (r: (i32, i32))
    requires
        i < 8,
    ensures
        (r.0 as int, r.1 as int) == dir(i as int),
{
    if i == 0 {
        (1, 1)
    } else if i == 1 {
        (1, -1)
    } else if i == 2 {
        (-1, 1)
    } else if i == 3 {
        (-1, -1)
    } else if i == 4 {
        (1, 0)
    } else if i == 5 {
        (0, 1)
    } else if i == 6 {
        (-1, 0)
    } else {
        (0, -1)
    }
}

fn slides(p: Piece, i: usize) -> (r: bool)
    ensures
        r == slides_along(p, i as int),
{
    match p {
        Piece::Queen => true,
        Piece::Bishop => i < 4,
        Piece::Rook => 4 <= i,
        _ => false,
    }
}

impl ChessGame {
    /// Walks from `(x, y)` in steps of `(dx, dy)` to the first occupied
    /// square. A walk leaves the board within eight steps.
    fn nearest_occupied(&self, x: i32, y: i32, dx: i32, dy: i32) -> (r: Option<(usize, usize)>)
        requires
            self@.board.len() == 64,
            -1 <= x <= 8,
            -1 <= y <= 8,
            -1 <= dx <= 1,
            -1 <= dy <= 1,
        ensures
            coords(r) == first_occupied(self@.board, x as int, y as int, dx as int, dy as int, 8),
            r matches Some(s) ==> s.0 < 8 && s.1 < 8,
    {
        let mut cx = x;
        let mut cy = y;
        let mut fuel: usize = 8;
        while fuel > 0
            invariant
                self@.board.len() == 64,
                -1 <= cx <= 8,
                -1 <= cy <= 8,
                -1 <= dx <= 1,
                -1 <= dy <= 1,
                fuel <= 8,
                first_occupied(self@.board, x as int, y as int, dx as int, dy as int, 8)
                    == first_occupied(
                    self@.board,
                    cx as int,
                    cy as int,
                    dx as int,
                    dy as int,
                    fuel as nat,
                ),
            decreases fuel,
        {
            if !is_valid(cx, cy) {
                return None;
            }
            if self.occupant(cx as usize, cy as usize).is_some() {
                return Some((cx as usize, cy as usize));
            }
            cx = cx + dx;
            cy = cy + dy;
            fuel = fuel - 1;
        }
        None
    }

    /// Whether square `k` is attacked by a slider of `enemy`.
    fn attacked(&self, k: (usize, usize), enemy: Color) -> (r: bool)
        requires
            self@.board.len() == 64,
            k.0 < 8,
            k.1 < 8,
        ensures
            r == exposed(self@.board, (k.0 as int, k.1 as int), enemy),
    {
        let ghost kk = (k.0 as int, k.1 as int);
        let mut i: usize = 0;
        while i < 8
            invariant
                self@.board.len() == 64,
                k.0 < 8,
                k.1 < 8,
                i <= 8,
                kk == (k.0 as int, k.1 as int),
                forall|j: int| 0 <= j < i ==> !#[trigger] attacks_along(self@.board, kk, enemy, j),
            decreases 8 - i,
        {
            let d = direction(i);
            let sx = k.0 as i32 + d.0;
            let sy = k.1 as i32 + d.1;
            let s = self.nearest_occupied(sx, sy, d.0, d.1);
            if let Some(s) = s {
                if let Some((c, p)) = self.occupant(s.0, s.1) {
                    if c == enemy && slides(p, i) {
                        assert(attacks_along(self@.board, kk, enemy, i as int));
                        return true;
                    }
                }
            }
            i += 1;
        }
        false
    }

    /// The pin filter. Takes the piece off `(x, y)`, looks for an opposing
    /// slider that now reaches `color`'s king, and puts the piece back.
    pub(crate) fn piece_can_move(&mut self, x: usize, y: usize, color: Color) -> (r: bool)
        requires
            old(self)@.wf(),
            x < 8,
            y < 8,
        ensures
            final(self)@ == old(self)@,
            r == can_move(old(self)@, x as int, y as int, color),
    {
        let piece = self.occupant(x, y);
        if piece.is_none() {
            return true;
        }
        self.set_square(x, y, None);
        let king = self.king_square(color);
        let exposed = self.attacked(king, opposite(&color));
        self.set_square(x, y, piece);
        assert(self@.board =~= old(self)@.board);
        !exposed
    }
}


impl ChessGame {
    /// One direction of a slider search, from `(x, y)` outwards.
    fn slide_ray_origin(
        &mut self,
        x: i32,
        y: i32,
        dx: i32,
        dy: i32,
        color: Color,
        piece: Piece,
        hx: Option<usize>,
        hy: Option<usize>,
    ) -> (r: Option<(usize, usize)>)
        requires
            old(self)@.wf(),
            -1 <= x <= 8,
            -1 <= y <= 8,
            -1 <= dx <= 1,
            -1 <= dy <= 1,
        ensures
            final(self)@ == old(self)@,
            coords(r) == slide_ray(old(self)@, x as int, y as int, dx as int, dy as int, color, piece, hx, hy, 8),
            found_on_board(r),
    {
        let mut cx = x;
        let mut cy = y;
        let mut fuel: usize = 8;
        while fuel > 0
            invariant
                self@ == old(self)@,
                old(self)@.wf(),
                -1 <= cx <= 8,
                -1 <= cy <= 8,
                -1 <= dx <= 1,
                -1 <= dy <= 1,
                fuel <= 8,
                slide_ray(old(self)@, x as int, y as int, dx as int, dy as int, color, piece, hx, hy, 8)
                    == slide_ray(
                    old(self)@,
                    cx as int,
                    cy as int,
                    dx as int,
                    dy as int,
                    color,
                    piece,
                    hx,
                    hy,
                    fuel as nat,
                ),
            decreases fuel,
        {
            if !is_valid(cx, cy) {
                return None;
            }
            let ux = cx as usize;
            let uy = cy as usize;
            match self.occupant(ux, uy) {
                None => {},
                Some((c, p)) => {
                    if c == color && p == piece {
                        if hint_matches(ux, uy, hx, hy) && self.piece_can_move(ux, uy, color) {
                            return Some((ux, uy));
                        }
                    } else {
                        return None;
                    }
                },
            }
            cx = cx + dx;
            cy = cy + dy;
            fuel = fuel - 1;
        }
        None
    }

    /// Where a bishop, rook or queen of `color` that moved to `(tx, ty)`
    /// came from.
    pub(crate) fn find_slider(
        &mut self,
        tx: usize,
        ty: usize,
        color: Color,
        piece: Piece,
        hx: Option<usize>,
        hy: Option<usize>,
    ) -> (r: Option<(usize, usize)>)
        requires
            old(self)@.wf(),
            tx < 8,
            ty < 8,
            hints_valid(hx, hy),
        ensures
            final(self)@ == old(self)@,
            coords(r) == slider_origin(old(self)@, tx as int, ty as int, color, piece, hx, hy),
            found_on_board(r),
    {
        if let (Some(fx), Some(fy)) = (hx, hy) {
            return Some((fx, fy));
        }
        let (start, end): (usize, usize) = match piece {
            Piece::Bishop => (0, 4),
            Piece::Rook => (4, 8),
            _ => (0, 8),
        };
        let ghost g = old(self)@;
        assert(slider_origin(g, tx as int, ty as int, color, piece, hx, hy)
            == slide_scan(g, tx as int, ty as int, color, piece, hx, hy, start as int, end as int));
        let mut i: usize = start;
        while i < end
            invariant
                self@ == g,
                g == old(self)@,
                g.wf(),
                tx < 8,
                ty < 8,
                start <= i <= end,
                end <= 8,
                start as int == dir_range(piece).0,
                end as int == dir_range(piece).1,
                slider_origin(g, tx as int, ty as int, color, piece, hx, hy)
                    == slide_scan(g, tx as int, ty as int, color, piece, hx, hy, i as int, end as int),
            decreases end - i,
        {
            let d = direction(i);
            let found = self.slide_ray_origin(tx as i32 + d.0, ty as i32 + d.1, d.0, d.1, color, piece, hx, hy);
            if found.is_some() {
                return found;
            }
            i += 1;
        }
        None
    }

    /// Where a knight (`pin` set, hints honored) or a king (`pin` unset, no
    /// hints) of `color` that moved to `(tx, ty)` came from, scanning the
    /// offsets from `0`.
    fn leap_origin(
        &mut self,
        tx: usize,
        ty: usize,
        color: Color,
        piece: Piece,
        hx: Option<usize>,
        hy: Option<usize>,
        pin: bool,
    ) -> (r: Option<(usize, usize)>)
        requires
            old(self)@.wf(),
            tx < 8,
            ty < 8,
        ensures
            final(self)@ == old(self)@,
            coords(r) == leap_scan(old(self)@, tx as int, ty as int, color, piece, hx, hy, pin, 0),
            found_on_board(r),
    {
        let ghost g = old(self)@;
        let mut i: usize = 0;
        while i < 8
            invariant
                self@ == g,
                g == old(self)@,
                g.wf(),
                tx < 8,
                ty < 8,
                i <= 8,
                leap_scan(g, tx as int, ty as int, color, piece, hx, hy, pin, 0)
                    == leap_scan(g, tx as int, ty as int, color, piece, hx, hy, pin, i as int),
            decreases 8 - i,
        {
            let d = leap_offset(piece, i);
            let x = tx as i32 + d.0;
            let y = ty as i32 + d.1;
            if is_valid(x, y) {
                let ux = x as usize;
                let uy = y as usize;
                if let Some((c, p)) = self.occupant(ux, uy) {
                    if c == color && p == piece && hint_matches(ux, uy, hx, hy) {
                        if !pin || self.piece_can_move(ux, uy, color) {
                            return Some((ux, uy));
                        }
                    }
                }
            }
            i += 1;
        }
        None
    }

    /// Where a knight of `color` that moved to `(tx, ty)` came from.
    pub(crate) fn find_knight(
        &mut self,
        tx: usize,
        ty: usize,
        color: Color,
        hx: Option<usize>,
        hy: Option<usize>,
    ) -> (r: Option<(usize, usize)>)
        requires
            old(self)@.wf(),
            tx < 8,
            ty < 8,
            hints_valid(hx, hy),
        ensures
            final(self)@ == old(self)@,
            coords(r) == knight_origin(old(self)@, tx as int, ty as int, color, hx, hy),
            found_on_board(r),
    {
        if let (Some(fx), Some(fy)) = (hx, hy) {
            return Some((fx, fy));
        }
        self.leap_origin(tx, ty, color, Piece::Knight, hx, hy, true)
    }

    /// Where the king of `color` that moved to `(tx, ty)` came from.
    pub(crate) fn find_king(&mut self, tx: usize, ty: usize, color: Color) -> (r: Option<(usize, usize)>)
        requires
            old(self)@.wf(),
            tx < 8,
            ty < 8,
        ensures
            final(self)@ == old(self)@,
            coords(r) == king_origin(old(self)@, tx as int, ty as int, color),
            found_on_board(r),
    {
        self.leap_origin(tx, ty, color, Piece::King, None, None, false)
    }

    /// Whether `(x, y)` holds an unpinned pawn of `color`.
    fn pawn_here(&mut self, x: i32, y: i32, color: Color) -> (r: bool)
        requires
            old(self)@.wf(),
        ensures
            final(self)@ == old(self)@,
            r == pawn_at(old(self)@, x as int, y as int, color),
    {
        if !is_valid(x, y) {
            return false;
        }
        match self.occupant(x as usize, y as usize) {
            Some((c, Piece::Pawn)) => c == color && self.piece_can_move(x as usize, y as usize, color),
            _ => false,
        }
    }

    /// Where a pawn of `color` that moved to `(tx, ty)` came from.
    pub(crate) fn find_pawn(
        &mut self,
        tx: usize,
        ty: usize,
        hx: Option<usize>,
        is_capture: bool,
        color: Color,
    ) -> (r: Option<(usize, usize)>)
        requires
            old(self)@.wf(),
            tx < 8,
            ty < 8,
            hints_valid(hx, None),
        ensures
            final(self)@ == old(self)@,
            coords(r) == pawn_origin(old(self)@, tx as int, ty as int, hx, is_capture, color),
            found_on_board(r),
    {
        let delta = behind_step(color);
        let x = tx as i32;
        let y1 = ty as i32 + delta;
        let y2 = ty as i32 + 2 * delta;
        if !(0 <= y1 && y1 < 8) {
            return None;
        }
        if is_capture {
            match hx {
                Some(fx) => {
                    if self.pawn_here(fx as i32, y1, color) {
                        Some((fx, y1 as usize))
                    } else {
                        None
                    }
                },
                None => {
                    if self.pawn_here(x - 1, y1, color) {
                        Some(((x - 1) as usize, y1 as usize))
                    } else if self.pawn_here(x + 1, y1, color) {
                        Some(((x + 1) as usize, y1 as usize))
                    } else {
                        None
                    }
                },
            }
        } else if self.pawn_here(x, y1, color) {
            Some((tx, y1 as usize))
        } else if self.occupant(tx, y1 as usize).is_none() && self.pawn_here(x, y2, color) {
            Some((tx, y2 as usize))
        } else {
            None
        }
    }
}

} // verus!
