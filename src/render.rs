//! The board diagram: one character entity per square, with rank and file
//! borders and a marker beside the side to move.

use vstd::prelude::*;
use crate::game::{ChessGame, GameModel};
use crate::piece::{Color, Occupant, Piece};
use crate::text::{decimal, push_decimal};

verus! {

/// Distance of a piece's glyph from its color's king glyph.
pub open spec fn glyph_offset(p: Piece) -> nat {
    match p {
        Piece::King => 0,
        Piece::Queen => 1,
        Piece::Rook => 2,
        Piece::Bishop => 3,
        Piece::Knight => 4,
        Piece::Pawn => 5,
    }
}

/// Code point of the glyph for occupant `o` on a light (`light`) or dark
/// square.
pub open spec fn glyph(o: Occupant, light: bool) -> nat {
    match o {
        Some((c, p)) => {
            let king: nat = match (c, light) {
                (Color::White, true) => 0x2654,
                (Color::Black, true) => 0x265A,
                (Color::White, false) => 0xE154,
                (Color::Black, false) => 0xE15A,
            };
            king + glyph_offset(p)
        },
        None => if light {
            0xA0
        } else {
            0xE100
        },
    }
}

/// The character entity `&#n;`.
pub open spec fn entity(n: nat) -> Seq<char> {
    seq!['&', '#'] + decimal(n) + seq![';']
}

/// Whether square `(x, y)` is light.
pub open spec fn is_light(x: int, y: int) -> bool {
    (x + y) % 2 == 0
}

/// The glyphs of the first `n` squares of row `y`.
pub open spec fn row_squares(g: GameModel, y: int, n: int) -> Seq<char>
    decreases n,
{
    if n <= 0 {
        seq![]
    } else {
        row_squares(g, y, n - 1) + entity(glyph(g.at(n - 1, y), is_light(n - 1, y)))
    }
}

/// The turn marker on row `y`: on the top row when Black is to move, on
/// the bottom row when White is.
pub open spec fn marker(g: GameModel, y: int) -> Seq<char> {
    if y == 0 && g.turn == Color::Black {
        "icon:circle[size=70%]"@
    } else if y == 7 && g.turn == Color::White {
        "icon:circle-thin[size=70%]"@
    } else {
        seq![]
    }
}

/// Row `y`: the left rank border, the eight squares, the right rank border
/// and the marker.
pub open spec fn row(g: GameModel, y: int) -> Seq<char> {
    let border = (7 - y + 0xE310) as nat;
    entity(border) + row_squares(g, y, 8) + entity(border + 0x10) + marker(g, y) + " +\n"@
}

/// The first `n` rows.
pub open spec fn rows(g: GameModel, n: int) -> Seq<char>
    decreases n,
{
    if n <= 0 {
        seq![]
    } else {
        rows(g, n - 1) + row(g, n - 1)
    }
}

pub open spec fn top_border() -> Seq<char> {
    "&#58120;&#58152;&#58153;&#58154;&#58155;&#58156;&#58157;&#58158;&#58159;&#58121; +\n"@
}

pub open spec fn bottom_border() -> Seq<char> {
    "&#58122;&#58136;&#58137;&#58138;&#58139;&#58140;&#58141;&#58142;&#58143;&#58123; +"@
}

/// The whole diagram of `g`.
pub open spec fn diagram(g: GameModel) -> Seq<char> {
    top_border() + rows(g, 8) + bottom_border()
}

/// Rendering is a function of the state alone: two renderings of the same
/// state, with no move played between them, are the same text.
pub proof fn lemma_render_idempotent(a: GameModel, b: GameModel)
    requires
        a == b,
    ensures
        diagram(a) == diagram(b),
{
}

fn glyph_offset_of(p: Piece) -> (r: u32)
    ensures
        r as nat == glyph_offset(p),
{
    match p {
        Piece::King => 0,
        Piece::Queen => 1,
        Piece::Rook => 2,
        Piece::Bishop => 3,
        Piece::Knight => 4,
        Piece::Pawn => 5,
    }
}

/// Code point of the glyph for `square` on a light or dark square.
fn piece_to_num(square: &Occupant, white_square: bool) -> (r: u32)
    ensures
        r as nat == glyph(*square, white_square),
{
    match *square {
        Some((c, p)) => {
            let king: u32 = match (c, white_square) {
                (Color::White, true) => 0x2654,
                (Color::Black, true) => 0x265A,
                (Color::White, false) => 0xE154,
                (Color::Black, false) => 0xE15A,
            };
            king + glyph_offset_of(p)
        },
        None => if white_square {
            0xA0
        } else {
            0xE100
        },
    }
}

fn push_entity(s: &mut String, n: u32)
    ensures
        final(s)@ == old(s)@ + entity(n as nat),
{
    proof {
        reveal_strlit("&#");
        reveal_strlit(";");
    }
    s.append("&#");
    push_decimal(s, n as u128);
    s.append(";");
    assert(final(s)@ =~= old(s)@ + entity(n as nat));
}

impl ChessGame {
    fn push_row_squares(&self, s: &mut String, y: usize)
        requires
            self@.board.len() == 64,
            y < 8,
        ensures
            final(s)@ == old(s)@ + row_squares(self@, y as int, 8),
    {
        let ghost start = s@;
        let mut x: usize = 0;
        while x < 8
            invariant
                self@.board.len() == 64,
                y < 8,
                x <= 8,
                s@ == start + row_squares(self@, y as int, x as int),
            decreases 8 - x,
        {
            let light = (x + y) % 2 == 0;
            let num = piece_to_num(&self.occupant(x, y), light);
            push_entity(s, num);
            assert(s@ =~= start + row_squares(self@, y as int, x + 1));
            x += 1;
        }
    }

    fn push_marker(&self, s: &mut String, y: usize)
        ensures
            final(s)@ == old(s)@ + marker(self@, y as int),
    {
        if y == 0 && self.side_to_move() == Color::Black {
            s.append("icon:circle[size=70%]");
        } else if y == 7 && self.side_to_move() == Color::White {
            s.append("icon:circle-thin[size=70%]");
        } else {
            assert(s@ =~= old(s)@ + marker(self@, y as int));
        }
    }

    fn push_row(&self, s: &mut String, y: usize)
        requires
            self@.board.len() == 64,
            y < 8,
        ensures
            final(s)@ == old(s)@ + row(self@, y as int),
    {
        let border: u32 = (7 - y) as u32 + 0xE310;
        push_entity(s, border);
        self.push_row_squares(s, y);
        push_entity(s, border + 0x10);
        self.push_marker(s, y);
        s.append(" +\n");
        assert(s@ =~= old(s)@ + row(self@, y as int));
    }

    /// Renders the board as a diagram. The state is not changed.
    pub fn show(&self) -> (r: String)
        requires
            self@.board.len() == 64,
        ensures
            r@ == diagram(self@),
    {
        let mut string = String::from_str(
            "&#58120;&#58152;&#58153;&#58154;&#58155;&#58156;&#58157;&#58158;&#58159;&#58121; +\n",
        );
        let mut y: usize = 0;
        while y < 8
            invariant
                self@.board.len() == 64,
                y <= 8,
                string@ == top_border() + rows(self@, y as int),
            decreases 8 - y,
        {
            self.push_row(&mut string, y);
            assert(string@ =~= top_border() + rows(self@, y + 1));
            y += 1;
        }
        string.append(
            "&#58122;&#58136;&#58137;&#58138;&#58139;&#58140;&#58141;&#58142;&#58143;&#58123; +",
        );
        string
    }
}

} // verus!
