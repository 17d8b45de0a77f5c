use pgn2pdf::document::{
    asciidoc_sections, extract_variations, format_comments, get_diagram, get_initial_moves,
    get_title, get_variations, is_white_move, move_to_string, piece_to_string, square_to_string,
    ParseError, ShowMoveOptions,
};
use pgn2pdf::error::MoveError;
use pgn2pdf::game::ChessGame;
use pgn2pdf::moves::{NotationMove, Square};
use pgn2pdf::piece::Piece;
use pgn2pdf::record::{AnnotatedMove, AnnotationSymbol, Game, GameMove, MoveNumber, Variation};

fn sq(name: &str) -> Square {
    let mut chars = name.chars();
    Square { file: chars.next().unwrap(), rank: chars.next().unwrap() }
}

fn basic(piece: Piece, from: &str, to: &str, is_capture: bool) -> NotationMove {
    NotationMove::BasicMove { from: sq(from), is_capture, piece, promoted_to: None, to: sq(to) }
}

fn game_move(number: Option<MoveNumber>, m: NotationMove) -> GameMove {
    GameMove {
        number,
        move_: AnnotatedMove { move_: m, annotation_symbol: None, is_check: false, is_checkmate: false },
        comment: None,
        variations: vec![],
    }
}

fn white(n: u32, to: &str) -> GameMove {
    game_move(Some(MoveNumber::White(n)), basic(Piece::Pawn, "xx", to, false))
}

fn black(n: u32, to: &str) -> GameMove {
    game_move(Some(MoveNumber::Black(n)), basic(Piece::Pawn, "xx", to, false))
}

fn bars(n: usize) -> String {
    vec!["|"; n].join("\n")
}

#[test]
fn piece_letters() {
    assert_eq!(piece_to_string(&Piece::Bishop), "F");
    assert_eq!(piece_to_string(&Piece::King), "R");
    assert_eq!(piece_to_string(&Piece::Knight), "C");
    assert_eq!(piece_to_string(&Piece::Pawn), "");
    assert_eq!(piece_to_string(&Piece::Queen), "D");
    assert_eq!(piece_to_string(&Piece::Rook), "T");
}

#[test]
fn square_names_drop_unknown_parts() {
    assert_eq!(square_to_string(&sq("e4")), "e4");
    assert_eq!(square_to_string(&sq("gx")), "g");
    assert_eq!(square_to_string(&sq("x1")), "1");
    assert_eq!(square_to_string(&sq("xx")), "");
}

#[test]
fn move_text_with_and_without_number() {
    let mut comments = vec![];
    let m = white(1, "e4");
    assert_eq!(move_to_string(&m, ShowMoveOptions::Normal, &mut comments), "1.e4");
    assert_eq!(move_to_string(&m, ShowMoveOptions::WithoutNum, &mut comments), "e4");
    let m = black(1, "e5");
    assert_eq!(move_to_string(&m, ShowMoveOptions::Normal, &mut comments), "e5");
    assert!(comments.is_empty());
}

#[test]
fn move_text_marks() {
    let mut comments = vec![];
    let mut m = game_move(Some(MoveNumber::White(12)), basic(Piece::Knight, "gx", "f3", true));
    m.move_.is_check = true;
    m.move_.annotation_symbol = Some(AnnotationSymbol::Good);
    assert_eq!(move_to_string(&m, ShowMoveOptions::Normal, &mut comments), "12.Cgxf3!+");
    let mut m = game_move(None, NotationMove::CastleKingside);
    m.move_.is_checkmate = true;
    m.move_.annotation_symbol = Some(AnnotationSymbol::Blunder);
    assert_eq!(move_to_string(&m, ShowMoveOptions::Normal, &mut comments), "O-O??#");
    let m = game_move(None, NotationMove::CastleQueenside);
    assert_eq!(move_to_string(&m, ShowMoveOptions::Normal, &mut comments), "O-O-O");
    let m = game_move(
        None,
        NotationMove::BasicMove {
            from: sq("xx"),
            is_capture: false,
            piece: Piece::Pawn,
            promoted_to: Some(Piece::Queen),
            to: sq("e8"),
        },
    );
    assert_eq!(move_to_string(&m, ShowMoveOptions::Normal, &mut comments), "e8=D");
    for (symbol, text) in [
        (AnnotationSymbol::Brilliant, "!!"),
        (AnnotationSymbol::Dubious, "?!"),
        (AnnotationSymbol::Interesting, "!?"),
        (AnnotationSymbol::Mistake, "?"),
    ] {
        let mut m = black(3, "d6");
        m.move_.annotation_symbol = Some(symbol);
        assert_eq!(move_to_string(&m, ShowMoveOptions::Normal, &mut comments), format!("d6{}", text));
    }
}

#[test]
fn move_comment_is_collected_and_referenced() {
    let mut comments = vec!["one".to_string(), "two".to_string()];
    let mut m = white(4, "d4");
    m.comment = Some("a fine\nmove".to_string());
    assert_eq!(move_to_string(&m, ShowMoveOptions::Normal, &mut comments), "4.d4^3^");
    assert_eq!(comments, vec!["one", "two", "a fine move"]);
}

#[test]
fn white_move_detection() {
    assert!(is_white_move(&white(1, "e4")));
    assert!(!is_white_move(&black(1, "e5")));
    assert!(!is_white_move(&game_move(None, NotationMove::CastleKingside)));
}

#[test]
fn comments_as_tables() {
    assert_eq!(format_comments(vec![]), "");
    let tail = " ".repeat(21);
    let expected = format!(
        "\n[cols=\"1,24\"]\n|===\n|^1^\n|good\n|===\n{}\n\n[cols=\"1,24\"]\n|===\n|^2^\n|bad\n|===\n{}",
        tail, tail
    );
    assert_eq!(format_comments(vec!["good".to_string(), "bad".to_string()]), expected);
}

fn tagged(tags: &[(&str, &str)]) -> Game {
    Game { tags: tags.iter().map(|(k, v)| (k.to_string(), v.to_string())).collect(), moves: vec![] }
}

#[test]
fn titles_from_tags() {
    assert_eq!(get_title(&tagged(&[("White", "Anand"), ("Black", "Carlsen")])), "Anand - Carlsen");
    assert_eq!(get_title(&tagged(&[("Black", "Carlsen"), ("Event", "Match")])), "Carlsen");
    assert_eq!(get_title(&tagged(&[("White", "Anand")])), "Anand");
    assert_eq!(get_title(&tagged(&[("Event", "Match")])), "");
    assert_eq!(get_title(&tagged(&[("White", "A"), ("White", "B"), ("Black", "C")])), "B - C");
}

#[test]
fn parse_error_message() {
    assert_eq!(ParseError::new("parse error").message(), "parse error");
}

#[test]
fn short_line_table() {
    let moves = vec![white(1, "e4"), black(1, "e5"), game_move(Some(MoveNumber::White(2)), basic(Piece::Knight, "xx", "f3", false))];
    let mut comments = vec![];
    let text = extract_variations(&moves, &mut comments);
    assert_eq!(text, format!("| e4\n| Cf3\n{}\n| | e5\n{}\n", bars(7), bars(8)));
    assert!(comments.is_empty());
}

#[test]
fn line_starting_with_black() {
    let moves = vec![black(1, "c5")];
    let mut comments = vec![];
    let text = extract_variations(&moves, &mut comments);
    assert_eq!(text, format!("| \u{2026}\n{}\n| | c5\n{}\n", bars(8), bars(8)));
}

#[test]
fn long_line_moves_rest_to_comment() {
    let mut moves = vec![];
    for n in 1..=10 {
        moves.push(white(n, "a3"));
        moves.push(black(n, "h6"));
    }
    let mut comments = vec!["earlier".to_string()];
    let text = extract_variations(&moves, &mut comments);
    let whites = vec!["a3"; 9].join("\n| ");
    let mut blacks = vec!["h6"; 8];
    blacks.push("h6^2^");
    let expected = format!("| {}\n\n| | {}\n\n", whites, blacks.join("\n| "));
    assert_eq!(text, expected);
    assert_eq!(comments, vec!["earlier", "10.a3 h6"]);
}

fn game_with_variation() -> Game {
    let mut second = black(1, "e5");
    second.variations = vec![Variation { moves: vec![black(1, "c5")] }];
    Game { tags: vec![], moves: vec![white(1, "e4"), second] }
}

#[test]
fn initial_moves_stop_at_variations() {
    let game = game_with_variation();
    let initial = get_initial_moves(&game);
    assert_eq!(initial.len(), 1);
    assert_eq!(initial[0].number, Some(MoveNumber::White(1)));
    let plain = Game { tags: vec![], moves: vec![white(1, "e4"), black(1, "e5")] };
    assert_eq!(get_initial_moves(&plain).len(), 2);
}

fn expected_variations() -> String {
    let block = |n: u32, to: &str| format!("| *{}*\n| \u{2026}\n{}\n| | {}\n{}\n", n, bars(8), to, bars(8));
    format!(
        "[cols=\"1, 9*3\"]\n|===\n| |0 |1 |2 |3 |4 |5 |6 |7 |8 \n\n{}|{{nbsp}}|||||||||\n{}|===",
        block(1, "e5"),
        block(2, "c5")
    )
}

#[test]
fn variation_table() {
    let game = game_with_variation();
    let mut comments = vec![];
    assert_eq!(get_variations(&game, 1, &mut comments), expected_variations());
    assert_eq!(get_variations(&game, 0, &mut comments), "");
    assert_eq!(get_variations(&game, 5, &mut comments), "");
    assert!(comments.is_empty());
}

#[test]
fn diagram_after_moves() {
    let game = game_with_variation();
    let initial = get_initial_moves(&game);
    let mut expected = ChessGame::initial();
    expected.play(&basic(Piece::Pawn, "xx", "e4", false)).unwrap();
    assert_eq!(get_diagram(&initial), Ok(expected.show()));
    let bad = white(1, "e5");
    assert_eq!(get_diagram(&[&bad]), Err(MoveError::UnresolvedMove));
}

#[test]
fn document_sections() {
    let mut game = game_with_variation();
    game.tags = vec![("White".to_string(), "Anand".to_string())];
    game.moves[0].comment = Some("best by test".to_string());
    let doc = asciidoc_sections(&game).unwrap();
    assert_eq!(doc.title, "Anand");
    assert_eq!(doc.moves, "1.e4^1^");
    assert_eq!(doc.variations, expected_variations());
    assert_eq!(doc.comments, format_comments(vec!["best by test".to_string()]));
    let mut expected = ChessGame::initial();
    expected.play(&basic(Piece::Pawn, "xx", "e4", false)).unwrap();
    assert_eq!(doc.diagram, expected.show());
}
