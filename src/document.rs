//! The text of the document around the diagram: moves in notation,
//! numbered comments, the title, and the error for an unreadable record.

use vstd::prelude::*;
use crate::error::MoveError;
use crate::game::{initial_model, ChessGame, GameModel};
use crate::moves::{replay, NotationMove, Square};
use crate::render::diagram;
use crate::piece::Piece;
use crate::record::{AnnotationSymbol, Game, GameMove, MoveNumber, Variation};
use crate::square::UNKNOWN;
use crate::text::{decimal, join, join_strings, push_char, push_decimal, views};

verus! {

/// Whether a move is written with its number.
#[derive(PartialEq, Eq, Structural, Clone, Copy, Debug)]
pub enum ShowMoveOptions {
    Normal,
    WithoutNum,
}

/// A game record that could not be read.
#[derive(Debug)]
pub struct ParseError {
    error: String,
}

impl View for ParseError {
    type V = Seq<char>;

    closed spec fn view(&self) -> Seq<char> {
        self.error@
    }
}

impl ParseError {
    /// An error with message `error`.
    pub fn new(error: &str) -> (r: Self)
        ensures
            r@ == error@,
    {
        ParseError { error: String::from_str(error) }
    }

    /// The message.
    pub fn message(&self) -> (r: String)
        ensures
            r@ == self@,
    {
        self.error.clone()
    }
}

/// The letter of a piece in the document's notation; a pawn has none.
pub open spec fn piece_text(p: Piece) -> Seq<char> {
    match p {
        Piece::Bishop => seq!['F'],
        Piece::King => seq!['R'],
        Piece::Knight => seq!['C'],
        Piece::Pawn => seq![],
        Piece::Queen => seq!['D'],
        Piece::Rook => seq!['T'],
    }
}

/// The letter of a piece in the document's notation.
pub fn piece_to_string(piece: &Piece) -> (r: &'static str)
    ensures
        r@ == piece_text(*piece),
{
    proof {
        reveal_strlit("F");
        reveal_strlit("R");
        reveal_strlit("C");
        reveal_strlit("");
        reveal_strlit("D");
        reveal_strlit("T");
    }
    match *piece {
        Piece::Bishop => "F",
        Piece::King => "R",
        Piece::Knight => "C",
        Piece::Pawn => "",
        Piece::Queen => "D",
        Piece::Rook => "T",
    }
}

/// The known parts of a square's name.
pub open spec fn square_text(s: Square) -> Seq<char> {
    (if s.file == UNKNOWN {
        seq![]
    } else {
        seq![s.file]
    }) + (if s.rank == UNKNOWN {
        seq![]
    } else {
        seq![s.rank]
    })
}

/// The known parts of a square's name.
pub fn square_to_string(square: &Square) -> (r: String)
    ensures
        r@ == square_text(*square),
{
    let mut r = String::new();
    if square.file != UNKNOWN {
        push_char(&mut r, square.file);
    }
    if square.rank != UNKNOWN {
        push_char(&mut r, square.rank);
    }
    assert(r@ =~= square_text(*square));
    r
}

/// The notation of a move itself, without number or marks.
pub open spec fn move_body(m: NotationMove) -> Seq<char> {
    match m {
        NotationMove::BasicMove { from, is_capture, piece, promoted_to, to } => piece_text(piece)
            + square_text(from) + (if is_capture {
            "x"@
        } else {
            ""@
        }) + square_text(to) + match promoted_to {
            Some(p) => "="@ + piece_text(p),
            None => seq![],
        },
        NotationMove::CastleKingside => "O-O"@,
        NotationMove::CastleQueenside => "O-O-O"@,
    }
}

pub open spec fn annotation_text(a: AnnotationSymbol) -> Seq<char> {
    match a {
        AnnotationSymbol::Blunder => "??"@,
        AnnotationSymbol::Brilliant => "!!"@,
        AnnotationSymbol::Dubious => "?!"@,
        AnnotationSymbol::Good => "!"@,
        AnnotationSymbol::Interesting => "!?"@,
        AnnotationSymbol::Mistake => "?"@,
    }
}

/// `n.` before a White move, unless numbers are left out.
pub open spec fn number_text(m: GameMove, options: ShowMoveOptions) -> Seq<char> {
    match m.number {
        Some(MoveNumber::White(n)) => if options != ShowMoveOptions::WithoutNum {
            decimal(n as nat) + "."@
        } else {
            seq![]
        },
        _ => seq![],
    }
}

/// The marks after a move: annotation, then `+` for check or else `#` for
/// mate.
pub open spec fn marks_text(m: GameMove) -> Seq<char> {
    (match m.move_.annotation_symbol {
        Some(a) => annotation_text(a),
        None => seq![],
    }) + (if m.move_.is_check {
        "+"@
    } else if m.move_.is_checkmate {
        "#"@
    } else {
        seq![]
    })
}

/// `s` with each line break turned into a space.
pub open spec fn one_line(s: Seq<char>) -> Seq<char> {
    s.map_values(|c: char| if c == '\n' { ' ' } else { c })
}

/// The reference `^n^` to the `n`-th comment.
pub open spec fn note_ref(n: nat) -> Seq<char> {
    "^"@ + decimal(n) + "^"@
}

/// A move as the document writes it, when `n_comments` comments were
/// collected before it. A comment of the move is referred to by its number.
pub open spec fn move_text(m: GameMove, options: ShowMoveOptions, n_comments: nat) -> Seq<char> {
    number_text(m, options) + move_body(m.move_.move_) + marks_text(m) + match m.comment {
        Some(_) => note_ref(n_comments + 1),
        None => seq![],
    }
}

/// The comments collected after writing move `m`.
pub open spec fn comments_after(m: GameMove, before: Seq<Seq<char>>) -> Seq<Seq<char>> {
    match m.comment {
        Some(c) => before.push(one_line(c@)),
        None => before,
    }
}

fn annotation_to_string(a: AnnotationSymbol) -> (r: &'static str)
    ensures
        r@ == annotation_text(a),
{
    match a {
        AnnotationSymbol::Blunder => "??",
        AnnotationSymbol::Brilliant => "!!",
        AnnotationSymbol::Dubious => "?!",
        AnnotationSymbol::Good => "!",
        AnnotationSymbol::Interesting => "!?",
        AnnotationSymbol::Mistake => "?",
    }
}

/// `s` on one line: each line break becomes a space.
fn without_line_breaks(s: &String) -> (r: String)
    ensures
        r@ == one_line(s@),
{
    let text = s.as_str();
    let n = text.unicode_len();
    let mut r = String::new();
    let mut i: usize = 0;
    while i < n
        invariant
            text@ == s@,
            n == s@.len(),
            i <= n,
            r@ == one_line(s@.subrange(0, i as int)),
        decreases n - i,
    {
        let c = text.get_char(i);
        if c == '\n' {
            push_char(&mut r, ' ');
        } else {
            push_char(&mut r, c);
        }
        assert(r@ =~= one_line(s@.subrange(0, i + 1)));
        i += 1;
    }
    assert(s@.subrange(0, n as int) =~= s@);
    r
}

fn push_promotion(s: &mut String, promoted_to: Option<Piece>)
    ensures
        final(s)@ == old(s)@ + match promoted_to {
            Some(p) => "="@ + piece_text(p),
            None => seq![],
        },
{
    if let Some(p) = promoted_to {
        s.append("=");
        s.append(piece_to_string(&p));
    }
    assert(final(s)@ =~= old(s)@ + match promoted_to {
        Some(p) => "="@ + piece_text(p),
        None => seq![],
    });
}

fn push_move_body(s: &mut String, m: &NotationMove)
    ensures
        final(s)@ == old(s)@ + move_body(*m),
{
    match *m {
        NotationMove::BasicMove { from, is_capture, piece, promoted_to, to } => {
            let ghost s0 = s@;
            s.append(piece_to_string(&piece));
            s.append(square_to_string(&from).as_str());
            let ghost s1 = s@;
            if is_capture {
                s.append("x");
            } else {
                s.append("");
            }
            let ghost s2 = s@;
            s.append(square_to_string(&to).as_str());
            let ghost s3 = s@;
            push_promotion(s, promoted_to);
            assert(s1 =~= s0 + piece_text(piece) + square_text(from));
            assert(s3 =~= s2 + square_text(to));
            assert(final(s)@ =~= old(s)@ + move_body(*m));
        },
        NotationMove::CastleKingside => s.append("O-O"),
        NotationMove::CastleQueenside => s.append("O-O-O"),
    }
}

fn push_marks(s: &mut String, game_move: &GameMove)
    ensures
        final(s)@ == old(s)@ + marks_text(*game_move),
{
    if let Some(annotation) = game_move.move_.annotation_symbol {
        s.append(annotation_to_string(annotation));
    }
    if game_move.move_.is_check {
        s.append("+");
    } else if game_move.move_.is_checkmate {
        s.append("#");
    }
    assert(final(s)@ =~= old(s)@ + marks_text(*game_move));
}

fn push_number(s: &mut String, game_move: &GameMove, options: ShowMoveOptions)
    ensures
        final(s)@ == old(s)@ + number_text(*game_move, options),
{
    if options != ShowMoveOptions::WithoutNum {
        if let Some(MoveNumber::White(number)) = game_move.number {
            push_decimal(s, number as u128);
            s.append(".");
        }
    }
    assert(final(s)@ =~= old(s)@ + number_text(*game_move, options));
}

/// Writes a move, collecting its comment, if any, into `comments`.
pub fn move_to_string(
    game_move: &GameMove,
    options: ShowMoveOptions,
    comments: &mut Vec<String>,
) -> (r: String)
    ensures
        r@ == move_text(*game_move, options, old(comments)@.len()),
        views(final(comments)@) == comments_after(*game_move, views(old(comments)@)),
{
    let mut string = String::new();
    push_number(&mut string, game_move, options);
    push_move_body(&mut string, &game_move.move_.move_);
    push_marks(&mut string, game_move);
    let ghost before = string@;
    if let Some(comment) = &game_move.comment {
        comments.push(without_line_breaks(comment));
        string.append("^");
        push_decimal(&mut string, comments.len() as u128);
        string.append("^");
        assert(string@ =~= before + note_ref(old(comments)@.len() + 1));
    }
    assert(views(final(comments)@) =~= comments_after(*game_move, views(old(comments)@)));
    assert(string@ =~= move_text(*game_move, options, old(comments)@.len()));
    string
}

/// Whether the record numbers the move as White's.
pub fn is_white_move(game_move: &GameMove) -> (r: bool)
    ensures
        r == (game_move.number matches Some(MoveNumber::White(_))),
{
    if let Some(MoveNumber::White(_)) = game_move.number {
        return true;
    }
    false
}

pub open spec fn comment_block(n: nat, c: Seq<char>) -> Seq<char> {
    "\n[cols=\"1,24\"]\n|===\n|^"@ + decimal(n) + "^\n|"@ + c + "\n|===\n                     "@
}

/// The table rows of the comments, numbered from 1.
pub open spec fn comment_blocks(cs: Seq<Seq<char>>) -> Seq<Seq<char>> {
    Seq::new(cs.len(), |i: int| comment_block((i + 1) as nat, cs[i]))
}

/// The comments as numbered tables, one after another; nothing when there
/// are none.
pub fn format_comments(comments: Vec<String>) -> (r: String)
    ensures
        r@ == join(comment_blocks(views(comments@)), "\n"@),
{
    let mut blocks: Vec<String> = Vec::new();
    let mut i: usize = 0;
    while i < comments.len()
        invariant
            i <= comments@.len(),
            views(blocks@) =~= comment_blocks(views(comments@)).subrange(0, i as int),
        decreases comments@.len() - i,
    {
        let mut block = String::from_str("\n[cols=\"1,24\"]\n|===\n|^");
        push_decimal(&mut block, i as u128 + 1);
        block.append("^\n|");
        block.append(comments[i].as_str());
        block.append("\n|===\n                     ");
        assert(block@ =~= comment_block((i + 1) as nat, comments@[i as int]@));
        let ghost before = blocks@;
        blocks.push(block);
        assert(views(blocks@) =~= views(before).push(block@));
        i += 1;
    }
    assert(comment_blocks(views(comments@)).subrange(0, comments@.len() as int) =~= comment_blocks(
        views(comments@),
    ));
    join_strings(&blocks, "\n")
}

/// The value of the last tag named `key`.
pub open spec fn tag_value(tags: Seq<(String, String)>, key: Seq<char>) -> Option<Seq<char>>
    decreases tags.len(),
{
    if tags.len() == 0 {
        None
    } else if tags.last().0@ == key {
        Some(tags.last().1@)
    } else {
        tag_value(tags.drop_last(), key)
    }
}

/// The title: both players as `White - Black`, or the one that is named.
pub open spec fn title(tags: Seq<(String, String)>) -> Seq<char> {
    match (tag_value(tags, "White"@), tag_value(tags, "Black"@)) {
        (Some(w), Some(b)) => w + " - "@ + b,
        (None, Some(n)) => n,
        (Some(n), None) => n,
        (None, None) => seq![],
    }
}

fn find_tag(tags: &Vec<(String, String)>, key: &str) -> (r: Option<String>)
    ensures
        match r {
            Some(v) => tag_value(tags@, key@) == Some(v@),
            None => tag_value(tags@, key@) is None,
        },
{
    let key = String::from_str(key);
    let mut found: Option<String> = None;
    let mut i: usize = 0;
    while i < tags.len()
        invariant
            i <= tags@.len(),
            match found {
                Some(v) => tag_value(tags@.subrange(0, i as int), key@) == Some(v@),
                None => tag_value(tags@.subrange(0, i as int), key@) is None,
            },
        decreases tags@.len() - i,
    {
        let ghost prefix = tags@.subrange(0, i as int);
        let tag = &tags[i];
        if tag.0 == key {
            found = Some(tag.1.clone());
        }
        assert(tags@.subrange(0, i + 1).drop_last() =~= prefix);
        i += 1;
    }
    assert(tags@.subrange(0, tags@.len() as int) =~= tags@);
    found
}

/// The title of a game, from its `White` and `Black` tags.
pub fn get_title(game: &Game) -> (r: String)
    ensures
        r@ == title(game.tags@),
{
    match (find_tag(&game.tags, "White"), find_tag(&game.tags, "Black")) {
        (Some(white), Some(black)) => {
            let mut r = white;
            r.append(" - ");
            r.append(black.as_str());
            r
        },
        (None, Some(name)) => name,
        (Some(name), None) => name,
        (None, None) => String::new(),
    }
}

/// The number of moves before the first one that has variations.
pub open spec fn is_initial_count(moves: Seq<GameMove>, k: int) -> bool {
    &&& 0 <= k <= moves.len()
    &&& forall|j: int| 0 <= j < k ==> (#[trigger] moves[j]).variations@.len() == 0
    &&& k < moves.len() ==> moves[k].variations@.len() > 0
}

/// The moves of the main line before the first one that has variations.
pub fn get_initial_moves(game: &Game) -> (r: Vec<&GameMove>)
    ensures
        is_initial_count(game.moves@, r@.len() as int),
        forall|i: int| 0 <= i < r@.len() ==> *r@[i] == game.moves@[i],
{
    let mut r: Vec<&GameMove> = Vec::new();
    let mut i: usize = 0;
    while i < game.moves.len()
        invariant
            i <= game.moves@.len(),
            r@.len() == i,
            forall|j: int| 0 <= j < i ==> (#[trigger] game.moves@[j]).variations@.len() == 0,
            forall|j: int| 0 <= j < r@.len() ==> *r@[j] == game.moves@[j],
        decreases game.moves@.len() - i,
    {
        let game_move = &game.moves[i];
        if game_move.variations.len() > 0 {
            return r;
        }
        r.push(game_move);
        i += 1;
    }
    r
}

/// The notation moves of a line of game moves.
pub open spec fn notation_of(moves: Seq<&GameMove>) -> Seq<NotationMove> {
    moves.map_values(|m: &GameMove| m.move_.move_)
}

/// The diagram of the position after playing `moves` from the start, or
/// the error of the first move that could not be played.
pub fn get_diagram(moves: &[&GameMove]) -> (r: Result<String, MoveError>)
    ensures
        match replay(initial_model(), notation_of(moves@)) {
            Ok(g) => r matches Ok(s) && s@ == diagram(g),
            Err(e) => r == Err::<String, MoveError>(e),
        },
{
    let ghost all = notation_of(moves@);
    let mut game = ChessGame::initial();
    let mut i: usize = 0;
    assert(all.subrange(0, all.len() as int) =~= all);
    while i < moves.len()
        invariant
            i <= moves@.len(),
            all == notation_of(moves@),
            game@.wf(),
            replay(initial_model(), all) == replay(game@, all.subrange(i as int, all.len() as int)),
        decreases moves@.len() - i,
    {
        let ghost rest = all.subrange(i as int, all.len() as int);
        assert(rest[0] == moves@[i as int].move_.move_);
        assert(rest.drop_first() =~= all.subrange(i + 1, all.len() as int));
        match game.play(&moves[i].move_.move_) {
            Ok(()) => {},
            Err(e) => return Err(e),
        }
        i += 1;
    }
    assert(all.subrange(i as int, all.len() as int) =~= Seq::<NotationMove>::empty());
    Ok(game.show())
}

/// How many moves of each color a variation table shows in full.
pub const MOVES_TO_SHOW: usize = 9;

pub open spec fn is_white(m: GameMove) -> bool {
    m.number matches Some(MoveNumber::White(_))
}

/// Where the shown part of a line ends: just after its ninth Black move,
/// or at its end. `count` Black moves were seen before move `i`.
pub open spec fn head_len_from(moves: Seq<GameMove>, i: int, count: int) -> int
    decreases moves.len() - i,
{
    if i >= moves.len() {
        moves.len() as int
    } else {
        let c = if is_white(moves[i]) {
            count
        } else {
            count + 1
        };
        if c >= MOVES_TO_SHOW {
            i + 1
        } else {
            head_len_from(moves, i + 1, c)
        }
    }
}

/// The White column, the Black column and the comments, after writing the
/// first `n` moves of a line without numbers, starting from comments `cs`.
pub open spec fn columns(moves: Seq<GameMove>, n: int, cs: Seq<Seq<char>>) -> (
    Seq<Seq<char>>,
    Seq<Seq<char>>,
    Seq<Seq<char>>,
)
    decreases n,
{
    if n <= 0 {
        (seq![], seq![], cs)
    } else {
        let prev = columns(moves, n - 1, cs);
        let m = moves[n - 1];
        let t = move_text(m, ShowMoveOptions::WithoutNum, prev.2.len());
        if is_white(m) {
            (prev.0.push(t), prev.1, comments_after(m, prev.2))
        } else {
            (prev.0, prev.1.push(t), comments_after(m, prev.2))
        }
    }
}

/// The moves after the shown part, numbered, each written as if no comment
/// had been collected before it.
pub open spec fn rest_text(moves: Seq<GameMove>, k: int) -> Seq<char> {
    join(
        Seq::new(
            (moves.len() - k) as nat,
            |j: int| move_text(moves[k + j], ShowMoveOptions::Normal, 0),
        ),
        " "@,
    )
}

/// `n` empty table cells, or none when `n` is not positive.
pub open spec fn bars(n: int) -> Seq<Seq<char>> {
    Seq::new(if n > 0 { n as nat } else { 0 }, |i: int| "|"@)
}

/// The two table rows of one line, and the comments after writing them.
/// The moves past the shown part become one more comment, referred to from
/// the last Black move shown; a line that starts with Black gets an
/// ellipsis in its White column.
pub open spec fn extract_spec(moves: Seq<GameMove>, cs: Seq<Seq<char>>) -> (Seq<char>, Seq<Seq<char>>) {
    let k = head_len_from(moves, 0, 0);
    let cols = columns(moves, k, cs);
    let v = rest_text(moves, k);
    let black = if v.len() > 0 {
        cols.1.update(cols.1.len() - 1, cols.1.last() + note_ref(cols.2.len() + 1))
    } else {
        cols.1
    };
    let comments = if v.len() > 0 {
        cols.2.push(v)
    } else {
        cols.2
    };
    let white = if !is_white(moves[0]) {
        seq!["\u{2026}"@] + cols.0
    } else {
        cols.0
    };
    (
        "| "@ + join(white, "\n| "@) + "\n"@ + join(bars(MOVES_TO_SHOW - white.len()), "\n"@)
            + "\n| | "@ + join(black, "\n| "@) + "\n"@ + join(
            bars(MOVES_TO_SHOW - black.len()),
            "\n"@,
        ) + "\n"@,
        comments,
    )
}

/// `n` empty table cells.
fn bar_cells(n: usize) -> (r: Vec<String>)
    ensures
        views(r@) == bars(n as int),
{
    let mut r: Vec<String> = Vec::new();
    let mut i: usize = 0;
    while i < n
        invariant
            i <= n,
            views(r@) =~= bars(i as int),
        decreases n - i,
    {
        let ghost before = r@;
        r.push(String::from_str("|"));
        assert(views(r@) =~= views(before).push("|"@));
        i += 1;
    }
    r
}

/// Writes the shown part of a line into its two columns.
fn fill_columns(
    moves: &[GameMove],
    comments: &mut Vec<String>,
    white: &mut Vec<String>,
    black: &mut Vec<String>,
) -> (k: usize)
    requires
        old(white)@.len() == 0,
        old(black)@.len() == 0,
    ensures
        k as int == head_len_from(moves@, 0, 0),
        k <= moves@.len(),
        (views(final(white)@), views(final(black)@), views(final(comments)@)) == columns(
            moves@,
            k as int,
            views(old(comments)@),
        ),
        k < moves@.len() ==> final(black)@.len() == MOVES_TO_SHOW,
{
    let ghost cs0 = views(comments@);
    let mut move_num: usize = 0;
    let mut i: usize = 0;
    while i < moves.len() && move_num < MOVES_TO_SHOW
        invariant
            i <= moves@.len(),
            move_num <= MOVES_TO_SHOW,
            black@.len() == move_num,
            cs0 == views(old(comments)@),
            (views(white@), views(black@), views(comments@)) == columns(moves@, i as int, cs0),
            head_len_from(moves@, 0, 0) == if move_num >= MOVES_TO_SHOW {
                i as int
            } else {
                head_len_from(moves@, i as int, move_num as int)
            },
        decreases moves@.len() - i,
    {
        let ghost prev = columns(moves@, i as int, cs0);
        let game_move = &moves[i];
        if is_white_move(game_move) {
            let t = move_to_string(game_move, ShowMoveOptions::WithoutNum, comments);
            let ghost w = white@;
            white.push(t);
            assert(views(white@) =~= views(w).push(t@));
        } else {
            let t = move_to_string(game_move, ShowMoveOptions::WithoutNum, comments);
            let ghost b = black@;
            black.push(t);
            assert(views(black@) =~= views(b).push(t@));
            move_num += 1;
        }
        i += 1;
    }
    i
}

/// The table rows of one line of moves, collecting its comments.
pub fn extract_variations(moves: &[GameMove], comments: &mut Vec<String>) -> (r: String)
    requires
        moves@.len() > 0,
    ensures
        (r@, views(final(comments)@)) == extract_spec(moves@, views(old(comments)@)),
{
    let first_move_is_black = !is_white_move(&moves[0]);
    let mut white: Vec<String> = Vec::new();
    let mut black: Vec<String> = Vec::new();
    let k = fill_columns(moves, comments, &mut white, &mut black);
    let ghost cols = columns(moves@, k as int, views(old(comments)@));
    let mut parts: Vec<String> = Vec::new();
    let mut i: usize = k;
    while i < moves.len()
        invariant
            k <= i <= moves@.len(),
            views(parts@) =~= Seq::new(
                (i - k) as nat,
                |j: int| move_text(moves@[k + j], ShowMoveOptions::Normal, 0),
            ),
        decreases moves@.len() - i,
    {
        let mut fresh: Vec<String> = Vec::new();
        let t = move_to_string(&moves[i], ShowMoveOptions::Normal, &mut fresh);
        let ghost before = parts@;
        parts.push(t);
        assert(views(parts@) =~= views(before).push(t@));
        i += 1;
    }
    let variation = join_strings(&parts, " ");
    if variation.as_str().unicode_len() > 0 {
        let ghost b = views(black@);
        assert(comments@.len() == cols.2.len());
        let mut last = black.pop().unwrap();
        let ghost popped = black@;
        assert(views(popped) =~= b.drop_last());
        let ghost last0 = last@;
        comments.push(variation);
        last.append("^");
        push_decimal(&mut last, comments.len() as u128);
        last.append("^");
        assert(last@ =~= last0 + note_ref(cols.2.len() + 1));
        black.push(last);
        assert(views(black@) =~= views(popped).push(last@));
        assert(views(black@) =~= b.update(b.len() - 1, b.last() + note_ref(cols.2.len() + 1)));
    }
    if first_move_is_black {
        let ghost w = views(white@);
        white.insert(0, String::from_str("\u{2026}"));
        assert(views(white@) =~= seq!["\u{2026}"@] + w);
    }
    let remaining_white = if white.len() < MOVES_TO_SHOW {
        MOVES_TO_SHOW - white.len()
    } else {
        0
    };
    let remaining_black = if black.len() < MOVES_TO_SHOW {
        MOVES_TO_SHOW - black.len()
    } else {
        0
    };
    let mut r = String::from_str("| ");
    r.append(join_strings(&white, "\n| ").as_str());
    r.append("\n");
    r.append(join_strings(&bar_cells(remaining_white), "\n").as_str());
    r.append("\n| | ");
    r.append(join_strings(&black, "\n| ").as_str());
    r.append("\n");
    r.append(join_strings(&bar_cells(remaining_black), "\n").as_str());
    r.append("\n");
    assert(bars(remaining_white as int) =~= bars(MOVES_TO_SHOW - white@.len()));
    assert(bars(remaining_black as int) =~= bars(MOVES_TO_SHOW - black@.len()));
    r
}

/// The header cells `|n ` of a variation table, for the `n` moves that
/// follow move `start - 1`.
pub open spec fn header_cells(start: int, n: int) -> Seq<char>
    decreases n,
{
    if n <= 0 {
        seq![]
    } else {
        header_cells(start, n - 1) + "|"@ + decimal((start + n - 2) as nat) + " "@
    }
}

/// The line between two variation blocks.
pub open spec fn separator() -> Seq<char> {
    "|{nbsp}"@ + join(bars(MOVES_TO_SHOW as int), ""@) + "\n"@
}

/// The lines of a variation table: the main line from move `start` on,
/// then each variation of that move.
pub open spec fn variation_lines(moves: Seq<GameMove>, start: int) -> Seq<Seq<GameMove>> {
    seq![moves.subrange(start, moves.len() as int)] + moves[start].variations@.map_values(
        |v: Variation| v.moves@,
    )
}

/// The numbered blocks of the first `n` lines, and the comments after
/// writing them.
pub open spec fn blocks(lines: Seq<Seq<GameMove>>, n: int, cs: Seq<Seq<char>>) -> (
    Seq<Seq<char>>,
    Seq<Seq<char>>,
)
    decreases n,
{
    if n <= 0 {
        (seq![], cs)
    } else {
        let prev = blocks(lines, n - 1, cs);
        let e = extract_spec(lines[n - 1], prev.1);
        (prev.0.push("| *"@ + decimal(n as nat) + "*\n"@ + e.0), e.1)
    }
}

/// The variation table at move `start`, and the comments after writing it;
/// nothing when that move has no variations.
pub open spec fn variations_spec(moves: Seq<GameMove>, start: int, cs: Seq<Seq<char>>) -> (
    Seq<char>,
    Seq<Seq<char>>,
) {
    if 0 <= start < moves.len() && moves[start].variations@.len() > 0 {
        let ls = variation_lines(moves, start);
        let bs = blocks(ls, ls.len() as int, cs);
        (
            "[cols=\"1, "@ + decimal(MOVES_TO_SHOW as nat) + "*3\"]\n|===\n| "@ + header_cells(
                start,
                MOVES_TO_SHOW as int,
            ) + "\n\n"@ + join(bs.0, separator()) + "|==="@,
            bs.1,
        )
    } else {
        (seq![], cs)
    }
}

/// What the table at move `start` needs: a move before it, and at least
/// one move in each variation.
pub open spec fn variations_ok(moves: Seq<GameMove>, start: int) -> bool {
    0 <= start < moves.len() && moves[start].variations@.len() > 0 ==> {
        &&& start >= 1
        &&& start + MOVES_TO_SHOW <= usize::MAX
        &&& forall|i: int|
            0 <= i < moves[start].variations@.len() ==> (#[trigger] moves[start].variations@[i]).moves@.len()
                > 0
    }
}

fn push_header_cells(s: &mut String, start: usize)
    requires
        start >= 1,
        start + MOVES_TO_SHOW <= usize::MAX,
    ensures
        final(s)@ == old(s)@ + header_cells(start as int, MOVES_TO_SHOW as int),
{
    let mut num: usize = start;
    while num < start + MOVES_TO_SHOW
        invariant
            start >= 1,
            start + MOVES_TO_SHOW <= usize::MAX,
            start <= num <= start + MOVES_TO_SHOW,
            s@ == old(s)@ + header_cells(start as int, num - start),
        decreases start + MOVES_TO_SHOW - num,
    {
        let ghost before = s@;
        s.append("|");
        push_decimal(s, (num - 1) as u128);
        s.append(" ");
        assert(s@ =~= old(s)@ + header_cells(start as int, num + 1 - start));
        num += 1;
    }
}

/// The table of variations at move `start_move_num` of the main line,
/// collecting comments; empty when that move has none.
pub fn get_variations(game: &Game, start_move_num: usize, comments: &mut Vec<String>) -> (r: String)
    requires
        variations_ok(game.moves@, start_move_num as int),
    ensures
        (r@, views(final(comments)@)) == variations_spec(
            game.moves@,
            start_move_num as int,
            views(old(comments)@),
        ),
{
    let mut result = String::new();
    if start_move_num >= game.moves.len() {
        return result;
    }
    let start_move = &game.moves[start_move_num];
    if start_move.variations.len() == 0 {
        return result;
    }
    let ghost ls = variation_lines(game.moves@, start_move_num as int);
    let ghost cs0 = views(comments@);
    result.append("[cols=\"1, ");
    push_decimal(&mut result, MOVES_TO_SHOW as u128);
    result.append("*3\"]\n|===\n| ");
    push_header_cells(&mut result, start_move_num);
    result.append("\n\n");
    let ghost head = result@;
    let mut variations: Vec<String> = Vec::new();
    let main_line = game.moves.as_slice().split_at(start_move_num).1;
    assert(main_line@ == game.moves@.subrange(start_move_num as int, game.moves@.len() as int));
    assert(ls[0] == main_line@);
    let mut first = String::from_str("| *");
    push_decimal(&mut first, 1);
    first.append("*\n");
    let ghost label = first@;
    let text = extract_variations(main_line, comments);
    first.append(text.as_str());
    assert(first@ == label + text@);
    assert((text@, views(comments@)) == extract_spec(ls[0], cs0));
    assert(blocks(ls, 0, cs0) == (Seq::<Seq<char>>::empty(), cs0));
    variations.push(first);
    assert(views(variations@) =~= blocks(ls, 1, cs0).0);
    let mut index: usize = 0;
    while index < start_move.variations.len()
        invariant
            start_move == game.moves@[start_move_num as int],
            ls == variation_lines(game.moves@, start_move_num as int),
            variations_ok(game.moves@, start_move_num as int),
            start_move_num < game.moves@.len(),
            index <= start_move.variations@.len(),
            (views(variations@), views(comments@)) == blocks(ls, index + 1, cs0),
        decreases start_move.variations@.len() - index,
    {
        let line = &start_move.variations[index];
        assert(ls[index + 1] == line.moves@);
        let mut block = String::from_str("| *");
        push_decimal(&mut block, index as u128 + 2);
        block.append("*\n");
        block.append(extract_variations(line.moves.as_slice(), comments).as_str());
        let ghost before = variations@;
        variations.push(block);
        assert(views(variations@) =~= views(before).push(block@));
        index += 1;
    }
    let mut separator = String::from_str("|{nbsp}");
    separator.append(join_strings(&bar_cells(MOVES_TO_SHOW), "").as_str());
    separator.append("\n");
    result.append(join_strings(&variations, separator.as_str()).as_str());
    result.append("|===");
    result
}

/// The texts of the first `n` moves, numbered, and the comments after
/// writing them, starting from comments `cs`.
pub open spec fn line_texts(moves: Seq<GameMove>, n: int, cs: Seq<Seq<char>>) -> (
    Seq<Seq<char>>,
    Seq<Seq<char>>,
)
    decreases n,
{
    if n <= 0 {
        (seq![], cs)
    } else {
        let prev = line_texts(moves, n - 1, cs);
        let m = moves[n - 1];
        (prev.0.push(move_text(m, ShowMoveOptions::Normal, prev.1.len())), comments_after(m, prev.1))
    }
}

/// The parts of a game's document, in the order the template takes them.
pub struct Document {
    pub title: String,
    pub diagram: String,
    pub moves: String,
    pub variations: String,
    pub comments: String,
}

/// The parts of the document of `game`, when the `k` moves before the
/// first one with variations play from the start to position `g`.
pub open spec fn document_spec(game: Game, k: int, g: GameModel, d: Document) -> bool {
    let line = line_texts(game.moves@, k, seq![]);
    let vars = variations_spec(game.moves@, k, line.1);
    &&& d.title@ == title(game.tags@)
    &&& d.diagram@ == diagram(g)
    &&& d.moves@ == join(line.0, " "@)
    &&& d.variations@ == vars.0
    &&& d.comments@ == join(comment_blocks(vars.1), "\n"@)
}

/// The notation moves of the first `k` moves of a line.
pub open spec fn notation_prefix(moves: Seq<GameMove>, k: int) -> Seq<NotationMove> {
    Seq::new(k as nat, |i: int| moves[i].move_.move_)
}

/// The parts of the document of a game: its title; the diagram after the
/// moves before the first one with variations; those moves; the variation
/// table; and the comments collected on the way. The error of the first
/// move that could not be played, if any.
pub fn asciidoc_sections(game: &Game) -> (r: Result<Document, MoveError>)
    requires
        forall|k: int| is_initial_count(game.moves@, k) ==> variations_ok(game.moves@, k),
    ensures
        forall|k: int|
            is_initial_count(game.moves@, k) ==> match replay(
                initial_model(),
                notation_prefix(game.moves@, k),
            ) {
                Ok(g) => r matches Ok(d) && document_spec(*game, k, g, d),
                Err(e) => r == Err::<Document, MoveError>(e),
            },
{
    let title = get_title(game);
    let initial_moves = get_initial_moves(game);
    let ghost k = initial_moves@.len() as int;
    assert(notation_of(initial_moves@) =~= notation_prefix(game.moves@, k));
    let diagram = match get_diagram(initial_moves.as_slice()) {
        Ok(d) => d,
        Err(e) => return Err(e),
    };
    let mut comments: Vec<String> = Vec::new();
    let mut texts: Vec<String> = Vec::new();
    let mut i: usize = 0;
    while i < initial_moves.len()
        invariant
            i <= initial_moves@.len(),
            k == initial_moves@.len(),
            is_initial_count(game.moves@, k),
            forall|j: int| 0 <= j < k ==> *initial_moves@[j] == game.moves@[j],
            (views(texts@), views(comments@)) == line_texts(game.moves@, i as int, seq![]),
        decreases initial_moves@.len() - i,
    {
        let t = move_to_string(initial_moves[i], ShowMoveOptions::Normal, &mut comments);
        let ghost before = texts@;
        texts.push(t);
        assert(views(texts@) =~= views(before).push(t@));
        i += 1;
    }
    let moves = join_strings(&texts, " ");
    let variations = get_variations(game, initial_moves.len(), &mut comments);
    let comments = format_comments(comments);
    Ok(Document { title, diagram, moves, variations, comments })
}

/// Whether [`asciidoc_sections`] can write `game`: the move that opens
/// the variation table, if any, has a move before it, and each of its
/// variations has a move.
pub fn sections_supported(game: &Game) -> (r: bool)
    ensures
        r == forall|k: int| is_initial_count(game.moves@, k) ==> variations_ok(game.moves@, k),
{
    let initial = get_initial_moves(game);
    let k = initial.len();
    proof {
        assert forall|j: int| is_initial_count(game.moves@, j) implies j == k by {
            if j < k {
                assert(game.moves@[j].variations@.len() == 0);
            } else if j > k {
                assert(game.moves@[k as int].variations@.len() == 0);
            }
        }
    }
    if k >= game.moves.len() {
        return true;
    }
    if k < 1 || k > usize::MAX - MOVES_TO_SHOW {
        return false;
    }
    let variations = &game.moves[k].variations;
    let mut i: usize = 0;
    while i < variations.len()
        invariant
            k < game.moves@.len(),
            is_initial_count(game.moves@, k as int),
            *variations == game.moves@[k as int].variations,
            i <= variations@.len(),
            forall|j: int| 0 <= j < i ==> (#[trigger] variations@[j]).moves@.len() > 0,
        decreases variations@.len() - i,
    {
        if variations[i].moves.len() == 0 {
            assert(game.moves@[k as int].variations@[i as int].moves@.len() == 0);
            assert(!variations_ok(game.moves@, k as int));
            assert(is_initial_count(game.moves@, k as int));
            return false;
        }
        i += 1;
    }
    true
}

} // verus!
