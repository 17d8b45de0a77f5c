use pgn2pdf::error::MoveError;
use pgn2pdf::game::ChessGame;
use pgn2pdf::moves::{NotationMove, Square};
use pgn2pdf::piece::{opposite, Color, Occupant, Piece};
use pgn2pdf::square::{coord_valid, is_valid, square_to_indexes, square_to_maybe_indexes};

fn sq(name: &str) -> Square {
    let mut chars = name.chars();
    Square { file: chars.next().unwrap(), rank: chars.next().unwrap() }
}

fn mv(piece: Piece, from: &str, to: &str, is_capture: bool) -> NotationMove {
    NotationMove::BasicMove { from: sq(from), is_capture, piece, promoted_to: None, to: sq(to) }
}

fn pawn(to: &str) -> NotationMove {
    mv(Piece::Pawn, "xx", to, false)
}

fn at(game: &ChessGame, name: &str) -> Occupant {
    let (x, y) = square_to_indexes(name.chars().next().unwrap(), name.chars().nth(1).unwrap()).unwrap();
    game.occupant(x, y)
}

fn empty_board() -> Vec<Occupant> {
    vec![None; 64]
}

fn put(board: &mut Vec<Occupant>, name: &str, color: Color, piece: Piece) {
    let (x, y) = square_to_indexes(name.chars().next().unwrap(), name.chars().nth(1).unwrap()).unwrap();
    board[8 * y + x] = Some((color, piece));
}

const W: Color = Color::White;
const B: Color = Color::Black;

#[test]
fn initial_position_is_standard() {
    let game = ChessGame::initial();
    let back = [
        Piece::Rook,
        Piece::Knight,
        Piece::Bishop,
        Piece::Queen,
        Piece::King,
        Piece::Bishop,
        Piece::Knight,
        Piece::Rook,
    ];
    for x in 0..8 {
        assert_eq!(game.occupant(x, 0), Some((B, back[x])));
        assert_eq!(game.occupant(x, 1), Some((B, Piece::Pawn)));
        for y in 2..6 {
            assert_eq!(game.occupant(x, y), None);
        }
        assert_eq!(game.occupant(x, 6), Some((W, Piece::Pawn)));
        assert_eq!(game.occupant(x, 7), Some((W, back[x])));
    }
    assert_eq!(game.side_to_move(), W);
    assert_eq!(game.king_square(W), (4, 7));
    assert_eq!(game.king_square(B), (4, 0));
}

#[test]
fn open_game_replays() {
    let mut game = ChessGame::initial();
    game.play(&pawn("e4")).unwrap();
    game.play(&pawn("e5")).unwrap();
    game.play(&mv(Piece::Knight, "xx", "f3", false)).unwrap();
    game.play(&mv(Piece::Knight, "xx", "c6", false)).unwrap();
    assert_eq!(at(&game, "e4"), Some((W, Piece::Pawn)));
    assert_eq!(at(&game, "e2"), None);
    assert_eq!(at(&game, "f3"), Some((W, Piece::Knight)));
    assert_eq!(at(&game, "g1"), None);
    assert_eq!(at(&game, "e5"), Some((B, Piece::Pawn)));
    assert_eq!(at(&game, "e7"), None);
    assert_eq!(at(&game, "c6"), Some((B, Piece::Knight)));
    assert_eq!(at(&game, "b8"), None);
    assert_eq!(game.side_to_move(), W);
}

#[test]
fn single_pawn_step() {
    let mut game = ChessGame::initial();
    game.play(&pawn("e3")).unwrap();
    assert_eq!(at(&game, "e3"), Some((W, Piece::Pawn)));
    assert_eq!(at(&game, "e2"), None);
    assert_eq!(game.side_to_move(), B);
}

fn two_rooks() -> ChessGame {
    let mut board = empty_board();
    put(&mut board, "e1", W, Piece::King);
    put(&mut board, "h8", B, Piece::King);
    put(&mut board, "a5", W, Piece::Rook);
    put(&mut board, "e5", W, Piece::Rook);
    ChessGame::from_board(board, W).unwrap()
}

#[test]
fn file_hint_picks_the_rook_on_that_file() {
    let mut game = two_rooks();
    game.play(&mv(Piece::Rook, "ax", "c5", false)).unwrap();
    assert_eq!(at(&game, "c5"), Some((W, Piece::Rook)));
    assert_eq!(at(&game, "a5"), None);
    assert_eq!(at(&game, "e5"), Some((W, Piece::Rook)));

    let mut game = two_rooks();
    game.play(&mv(Piece::Rook, "ex", "c5", false)).unwrap();
    assert_eq!(at(&game, "c5"), Some((W, Piece::Rook)));
    assert_eq!(at(&game, "e5"), None);
    assert_eq!(at(&game, "a5"), Some((W, Piece::Rook)));
}

#[test]
fn pinned_rook_is_not_picked() {
    let mut board = empty_board();
    put(&mut board, "e1", W, Piece::King);
    put(&mut board, "h8", B, Piece::King);
    put(&mut board, "e8", B, Piece::Rook);
    put(&mut board, "e5", W, Piece::Rook);
    put(&mut board, "a5", W, Piece::Rook);
    let mut game = ChessGame::from_board(board, W).unwrap();
    game.play(&mv(Piece::Rook, "xx", "c5", false)).unwrap();
    assert_eq!(at(&game, "c5"), Some((W, Piece::Rook)));
    assert_eq!(at(&game, "a5"), None);
    assert_eq!(at(&game, "e5"), Some((W, Piece::Rook)));
}

#[test]
fn pinned_knight_alone_is_unresolved() {
    let mut board = empty_board();
    put(&mut board, "e1", W, Piece::King);
    put(&mut board, "h8", B, Piece::King);
    put(&mut board, "e8", B, Piece::Queen);
    put(&mut board, "e4", W, Piece::Knight);
    let mut game = ChessGame::from_board(board, W).unwrap();
    let before = game.show();
    assert_eq!(game.play(&mv(Piece::Knight, "xx", "f6", false)), Err(MoveError::UnresolvedMove));
    assert_eq!(game.show(), before);
    assert_eq!(game.side_to_move(), W);
}

#[test]
fn full_hint_is_taken_as_given() {
    let mut game = two_rooks();
    game.play(&mv(Piece::Rook, "a5", "a7", false)).unwrap();
    assert_eq!(at(&game, "a7"), Some((W, Piece::Rook)));
    assert_eq!(at(&game, "a5"), None);
}

#[test]
fn white_castles_kingside() {
    let mut game = ChessGame::initial();
    for m in [
        pawn("e4"),
        pawn("e5"),
        mv(Piece::Knight, "xx", "f3", false),
        mv(Piece::Knight, "xx", "c6", false),
        mv(Piece::Bishop, "xx", "c4", false),
        mv(Piece::Bishop, "xx", "c5", false),
        NotationMove::CastleKingside,
    ] {
        game.play(&m).unwrap();
    }
    assert_eq!(at(&game, "g1"), Some((W, Piece::King)));
    assert_eq!(at(&game, "f1"), Some((W, Piece::Rook)));
    assert_eq!(at(&game, "e1"), None);
    assert_eq!(at(&game, "h1"), None);
    assert_eq!(game.king_square(W), (6, 7));
    assert_eq!(game.side_to_move(), B);
}

#[test]
fn black_castles_queenside() {
    let mut board = empty_board();
    put(&mut board, "e1", W, Piece::King);
    put(&mut board, "e8", B, Piece::King);
    put(&mut board, "a8", B, Piece::Rook);
    let mut game = ChessGame::from_board(board, B).unwrap();
    game.play(&NotationMove::CastleQueenside).unwrap();
    assert_eq!(at(&game, "c8"), Some((B, Piece::King)));
    assert_eq!(at(&game, "d8"), Some((B, Piece::Rook)));
    assert_eq!(at(&game, "a8"), None);
    assert_eq!(at(&game, "e8"), None);
    assert_eq!(game.king_square(B), (2, 0));
    assert_eq!(game.side_to_move(), W);
}

#[test]
fn en_passant_removes_the_passed_pawn() {
    let mut game = ChessGame::initial();
    for m in [pawn("e4"), pawn("a6"), pawn("e5"), pawn("d5")] {
        game.play(&m).unwrap();
    }
    assert_eq!(at(&game, "d5"), Some((B, Piece::Pawn)));
    game.play(&mv(Piece::Pawn, "ex", "d6", true)).unwrap();
    assert_eq!(at(&game, "d6"), Some((W, Piece::Pawn)));
    assert_eq!(at(&game, "d5"), None);
    assert_eq!(at(&game, "e5"), None);
}

#[test]
fn ordinary_capture_keeps_other_squares() {
    let mut game = ChessGame::initial();
    for m in [pawn("e4"), pawn("d5")] {
        game.play(&m).unwrap();
    }
    game.play(&mv(Piece::Pawn, "ex", "d5", true)).unwrap();
    assert_eq!(at(&game, "d5"), Some((W, Piece::Pawn)));
    assert_eq!(at(&game, "e4"), None);
    assert_eq!(at(&game, "d6"), None);
    assert_eq!(at(&game, "d7"), None);
    assert_eq!(at(&game, "c7"), Some((B, Piece::Pawn)));
}

#[test]
fn capture_without_hint_tries_left_first() {
    let mut board = empty_board();
    put(&mut board, "e1", W, Piece::King);
    put(&mut board, "e8", B, Piece::King);
    put(&mut board, "c4", W, Piece::Pawn);
    put(&mut board, "e4", W, Piece::Pawn);
    put(&mut board, "d5", B, Piece::Knight);
    let mut game = ChessGame::from_board(board, W).unwrap();
    game.play(&mv(Piece::Pawn, "xx", "d5", true)).unwrap();
    assert_eq!(at(&game, "c4"), None);
    assert_eq!(at(&game, "e4"), Some((W, Piece::Pawn)));
    assert_eq!(at(&game, "d5"), Some((W, Piece::Pawn)));
}

#[test]
fn promotion_places_the_new_piece() {
    let mut board = empty_board();
    put(&mut board, "e1", W, Piece::King);
    put(&mut board, "h8", B, Piece::King);
    put(&mut board, "b7", W, Piece::Pawn);
    let mut game = ChessGame::from_board(board, W).unwrap();
    let m = NotationMove::BasicMove {
        from: sq("xx"),
        is_capture: false,
        piece: Piece::Pawn,
        promoted_to: Some(Piece::Queen),
        to: sq("b8"),
    };
    game.play(&m).unwrap();
    assert_eq!(at(&game, "b8"), Some((W, Piece::Queen)));
    assert_eq!(at(&game, "b7"), None);
}

#[test]
fn king_move_updates_its_square() {
    let mut game = ChessGame::initial();
    game.play(&pawn("e4")).unwrap();
    game.play(&pawn("e5")).unwrap();
    game.play(&mv(Piece::King, "xx", "e2", false)).unwrap();
    assert_eq!(game.king_square(W), (4, 6));
    assert_eq!(at(&game, "e2"), Some((W, Piece::King)));
    assert_eq!(at(&game, "e1"), None);
}

#[test]
fn black_pawn_double_step() {
    let mut game = ChessGame::initial();
    game.play(&pawn("d4")).unwrap();
    game.play(&pawn("c5")).unwrap();
    assert_eq!(at(&game, "c5"), Some((B, Piece::Pawn)));
    assert_eq!(at(&game, "c7"), None);
}

#[test]
fn bad_square_is_refused() {
    let mut game = ChessGame::initial();
    assert_eq!(game.play(&pawn("i4")), Err(MoveError::InvalidSquare));
    assert_eq!(game.play(&pawn("e9")), Err(MoveError::InvalidSquare));
    assert_eq!(game.play(&mv(Piece::Rook, "q1", "a3", false)), Err(MoveError::InvalidSquare));
    assert_eq!(game.side_to_move(), W);
}

#[test]
fn impossible_move_is_unresolved() {
    let mut game = ChessGame::initial();
    assert_eq!(game.play(&pawn("e5")), Err(MoveError::UnresolvedMove));
    assert_eq!(game.play(&mv(Piece::Bishop, "xx", "e3", false)), Err(MoveError::UnresolvedMove));
    assert_eq!(at(&game, "e2"), Some((W, Piece::Pawn)));
}

#[test]
fn taking_a_king_is_unsupported() {
    let mut board = empty_board();
    put(&mut board, "e1", W, Piece::King);
    put(&mut board, "e8", B, Piece::King);
    put(&mut board, "e4", W, Piece::Rook);
    let mut game = ChessGame::from_board(board, W).unwrap();
    assert_eq!(game.play(&mv(Piece::Rook, "xx", "e8", true)), Err(MoveError::UnsupportedMove));
    assert_eq!(at(&game, "e8"), Some((B, Piece::King)));
    assert_eq!(at(&game, "e4"), Some((W, Piece::Rook)));
}

#[test]
fn board_needs_both_kings_and_64_squares() {
    let mut board = empty_board();
    put(&mut board, "e1", W, Piece::King);
    assert!(ChessGame::from_board(board.clone(), W).is_none());
    put(&mut board, "e8", B, Piece::King);
    assert!(ChessGame::from_board(board[..63].to_vec(), W).is_none());
    let game = ChessGame::from_board(board, B).unwrap();
    assert_eq!(game.king_square(W), (4, 7));
    assert_eq!(game.king_square(B), (4, 0));
    assert_eq!(game.side_to_move(), B);
}

#[test]
fn rendering_twice_gives_the_same_text() {
    let mut game = ChessGame::initial();
    game.play(&pawn("e4")).unwrap();
    let first = game.show();
    let second = game.show();
    assert_eq!(first, second);
}

#[test]
fn initial_diagram_text() {
    let text = ChessGame::initial().show();
    let lines: Vec<&str> = text.split('\n').collect();
    assert_eq!(lines.len(), 10);
    assert_eq!(lines[0], "&#58120;&#58152;&#58153;&#58154;&#58155;&#58156;&#58157;&#58158;&#58159;&#58121; +");
    assert_eq!(
        lines[1],
        "&#58135;&#9820;&#57694;&#9821;&#57691;&#9818;&#57693;&#9822;&#57692;&#58151; +"
    );
    assert_eq!(
        lines[3],
        "&#58133;&#160;&#57600;&#160;&#57600;&#160;&#57600;&#160;&#57600;&#58149; +"
    );
    assert_eq!(
        lines[8],
        "&#58128;&#57686;&#9816;&#57687;&#9813;&#57684;&#9815;&#57688;&#9814;&#58144;icon:circle-thin[size=70%] +"
    );
    assert_eq!(lines[9], "&#58122;&#58136;&#58137;&#58138;&#58139;&#58140;&#58141;&#58142;&#58143;&#58123; +");
}

#[test]
fn marker_moves_to_the_top_for_black() {
    let mut game = ChessGame::initial();
    game.play(&pawn("e4")).unwrap();
    let text = game.show();
    let lines: Vec<&str> = text.split('\n').collect();
    assert!(lines[1].ends_with("&#58151;icon:circle[size=70%] +"));
    assert!(lines[8].ends_with("&#58144; +"));
}

#[test]
fn square_addressing() {
    assert_eq!(square_to_indexes('a', '8'), Ok((0, 0)));
    assert_eq!(square_to_indexes('h', '1'), Ok((7, 7)));
    assert_eq!(square_to_indexes('e', '4'), Ok((4, 4)));
    assert_eq!(square_to_indexes('x', '4'), Err(MoveError::InvalidSquare));
    assert_eq!(square_to_indexes('e', '0'), Err(MoveError::InvalidSquare));
    assert_eq!(square_to_maybe_indexes('x', 'x'), Ok((None, None)));
    assert_eq!(square_to_maybe_indexes('c', 'x'), Ok((Some(2), None)));
    assert_eq!(square_to_maybe_indexes('x', '2'), Ok((None, Some(6))));
    assert_eq!(square_to_maybe_indexes('z', '2'), Err(MoveError::InvalidSquare));
    assert_eq!(square_to_maybe_indexes('a', '9'), Err(MoveError::InvalidSquare));
}

#[test]
fn coordinates_and_colors() {
    assert!(coord_valid(0));
    assert!(coord_valid(7));
    assert!(!coord_valid(8));
    assert!(!coord_valid(-1));
    assert!(is_valid(3, 5));
    assert!(!is_valid(3, 8));
    assert!(!is_valid(-1, 0));
    assert_eq!(opposite(&W), B);
    assert_eq!(opposite(&B), W);
}
