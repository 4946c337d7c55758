use dexter_chess::board::ChessBoard;
use dexter_chess::chesspiece::{
    Bishop, ChessPiece, DiagonalMove, King, KingMove, Knight, KnightMove, Pawn, PawnMove, Piece,
    PieceType, Queen, Rook, StraightMove,
};
use dexter_chess::geometry::{check_occupied, find_dist, path_iter};
use dexter_chess::model::Outcome;

fn piece(kind: PieceType, is_white: bool) -> Option<Piece> {
    Some(Piece { kind, is_white })
}

/// A board with nothing on it but the two kings.
fn bare_board(white_king: [usize; 2], black_king: [usize; 2]) -> ChessBoard {
    let mut b = ChessBoard::new();
    for x in 0..8 {
        for y in 0..8 {
            b.set([x, y], None);
        }
    }
    b.set(white_king, piece(PieceType::King, true));
    b.set(black_king, piece(PieceType::King, false));
    b.set_white_king_pos(white_king);
    b.set_black_king_pos(black_king);
    b
}

fn play(b: &mut ChessBoard, start: [usize; 2], dest: [usize; 2]) {
    assert!(b.next_turn(start, dest).is_some(), "move {:?} -> {:?} refused", start, dest);
}

#[test]
fn opening_layout() {
    let b = ChessBoard::new();
    let squares = b.get_board();
    assert_eq!(squares.len(), 8);
    for x in 0..8 {
        assert_eq!(squares[x].len(), 8);
        assert_eq!(squares[x][1], piece(PieceType::Pawn, true));
        assert_eq!(squares[x][6], piece(PieceType::Pawn, false));
        for y in 2..6 {
            assert_eq!(squares[x][y], None);
        }
    }
    assert_eq!(squares[4][0], piece(PieceType::King, true));
    assert_eq!(squares[3][0], piece(PieceType::Queen, true));
    assert_eq!(squares[4][7], piece(PieceType::King, false));
    assert_eq!(squares[3][7], piece(PieceType::Queen, false));
    assert_eq!(squares[0][0], piece(PieceType::Rook, true));
    assert_eq!(squares[1][7], piece(PieceType::Knight, false));
    assert_eq!(squares[5][0], piece(PieceType::Bishop, true));
    assert_eq!(b.get_white_king_pos(), [4, 0]);
    assert_eq!(b.get_black_king_pos(), [4, 7]);
    assert!(b.get_player());
    assert!(b.get_white_can_castle_left() && b.get_white_can_castle_right());
    assert!(b.get_black_can_castle_left() && b.get_black_can_castle_right());
    assert_eq!(b.get_white_en_passant(), None);
    assert_eq!(b.get_black_en_passant(), None);
    assert_eq!(b.get_winner(), None);
    assert_eq!(b.get_score(), [0, 0]);
}

#[test]
fn opening_position_is_not_terminal() {
    let mut b = ChessBoard::new();
    assert!(b.has_any_legal_move(true));
    assert!(b.has_any_legal_move(false));
    assert!(!b.test_stalemate(true));
    assert!(!b.test_stalemate(false));
    assert!(!b.test_checkmate(true));
    assert!(!b.test_checkmate(false));
    assert_eq!(b.evaluate_terminal(true), Outcome::Ongoing);
    assert_eq!(b.evaluate_terminal(false), Outcome::Ongoing);
}

#[test]
fn scholars_mate() {
    let mut b = ChessBoard::new();
    play(&mut b, [4, 1], [4, 3]);
    play(&mut b, [4, 6], [4, 4]);
    play(&mut b, [5, 0], [2, 3]);
    play(&mut b, [1, 7], [2, 5]);
    play(&mut b, [3, 0], [7, 4]);
    play(&mut b, [6, 7], [5, 5]);
    let report = b.next_turn([7, 4], [5, 6]).expect("queen takes f7");
    assert_eq!(report.captured, piece(PieceType::Pawn, false));
    assert_eq!(report.capture_square, [5, 6]);
    assert_eq!(report.outcome, Outcome::Checkmate(false));
    assert!(!b.has_any_legal_move(false));
    assert!(b.test_checkmate(false));
    assert_eq!(b.get_winner(), Some(1));
    assert_eq!(b.get_score(), [1, 0]);
    assert_eq!(b.get_white_captured().clone(), vec![Piece { kind: PieceType::Pawn, is_white: false }]);
}

#[test]
fn en_passant_capture_on_the_next_move() {
    let mut b = ChessBoard::new();
    play(&mut b, [4, 1], [4, 3]);
    assert_eq!(b.get_white_en_passant(), Some([4, 2]));
    play(&mut b, [0, 6], [0, 5]);
    assert_eq!(b.get_white_en_passant(), None);
    play(&mut b, [4, 3], [4, 4]);
    play(&mut b, [3, 6], [3, 4]);
    assert_eq!(b.get_black_en_passant(), Some([3, 5]));
    let report = b.next_turn([4, 4], [3, 5]).expect("en passant");
    assert_eq!(report.captured, piece(PieceType::Pawn, false));
    assert_eq!(report.capture_square, [3, 4]);
    let squares = b.get_board();
    assert_eq!(squares[3][4], None);
    assert_eq!(squares[3][5], piece(PieceType::Pawn, true));
    assert_eq!(b.get_black_en_passant(), None);
    assert_eq!(b.get_score(), [1, 0]);
}

#[test]
fn en_passant_lapses_when_not_used() {
    let mut b = ChessBoard::new();
    play(&mut b, [4, 1], [4, 3]);
    play(&mut b, [0, 6], [0, 5]);
    play(&mut b, [4, 3], [4, 4]);
    play(&mut b, [3, 6], [3, 4]);
    assert_eq!(b.get_black_en_passant(), Some([3, 5]));
    play(&mut b, [7, 1], [7, 2]);
    assert_eq!(b.get_black_en_passant(), None);
    play(&mut b, [0, 5], [0, 4]);
    assert!(b.next_turn([4, 4], [3, 5]).is_none());
    assert_eq!(b.get_board()[3][4], piece(PieceType::Pawn, false));
}

#[test]
fn castling_right_moves_the_rook() {
    let mut b = ChessBoard::new();
    b.set([5, 0], None);
    b.set([6, 0], None);
    let report = b.next_turn([4, 0], [6, 0]).expect("castle");
    assert_eq!(report.castled, Some([7, 0]));
    let squares = b.get_board();
    assert_eq!(squares[6][0], piece(PieceType::King, true));
    assert_eq!(squares[5][0], piece(PieceType::Rook, true));
    assert_eq!(squares[7][0], None);
    assert_eq!(b.get_white_king_pos(), [6, 0]);
    assert!(!b.get_white_can_castle_left());
    assert!(!b.get_white_can_castle_right());
}

#[test]
fn castling_left_moves_the_rook() {
    let mut b = ChessBoard::new();
    b.set([1, 0], None);
    b.set([2, 0], None);
    b.set([3, 0], None);
    let report = b.next_turn([4, 0], [2, 0]).expect("castle");
    assert_eq!(report.castled, Some([0, 0]));
    let squares = b.get_board();
    assert_eq!(squares[2][0], piece(PieceType::King, true));
    assert_eq!(squares[3][0], piece(PieceType::Rook, true));
    assert_eq!(squares[0][0], None);
}

#[test]
fn castling_refused_through_occupied_square() {
    let mut b = ChessBoard::new();
    b.set([6, 0], None);
    assert!(b.get_white_can_castle_right());
    assert!(!Piece { kind: PieceType::King, is_white: true }.test_move([4, 0], [6, 0], &mut b));
    assert!(b.next_turn([4, 0], [6, 0]).is_none());
}

#[test]
fn castling_refused_while_in_check() {
    let mut b = ChessBoard::new();
    b.set([5, 0], None);
    b.set([6, 0], None);
    b.set([4, 1], None);
    b.set([4, 4], piece(PieceType::Rook, false));
    assert!(b.get_white_can_castle_right());
    assert!(b.is_threatened([4, 0], true));
    assert!(!b.test_castle(true, [4, 0], [6, 0]));
    assert!(b.next_turn([4, 0], [6, 0]).is_none());
}

#[test]
fn castling_refused_through_threatened_square() {
    let mut b = ChessBoard::new();
    b.set([5, 0], None);
    b.set([6, 0], None);
    b.set([5, 1], None);
    b.set([5, 4], piece(PieceType::Rook, false));
    assert!(!b.is_threatened([4, 0], true));
    assert!(!b.test_castle(true, [4, 0], [6, 0]));
    assert!(b.next_turn([4, 0], [6, 0]).is_none());
}

#[test]
fn castling_refused_onto_threatened_square() {
    let mut b = ChessBoard::new();
    b.set([5, 0], None);
    b.set([6, 0], None);
    b.set([6, 1], None);
    b.set([6, 4], piece(PieceType::Rook, false));
    assert!(!b.is_threatened([4, 0], true));
    assert!(!b.is_threatened([5, 0], true));
    assert!(!b.test_castle(true, [4, 0], [6, 0]));
}

#[test]
fn castling_refused_after_rook_moved() {
    let mut b = ChessBoard::new();
    b.set([5, 0], None);
    b.set([6, 0], None);
    play(&mut b, [7, 0], [6, 0]);
    assert!(!b.get_white_can_castle_right());
    assert!(b.get_white_can_castle_left());
    play(&mut b, [0, 6], [0, 5]);
    play(&mut b, [6, 0], [7, 0]);
    play(&mut b, [0, 5], [0, 4]);
    assert!(b.next_turn([4, 0], [6, 0]).is_none());
}

#[test]
fn promotion_halts_the_game_until_settled() {
    let mut b = bare_board([4, 0], [0, 4]);
    b.set([1, 6], piece(PieceType::Pawn, true));
    let report = b.next_turn([1, 6], [1, 7]).expect("pawn advances");
    assert!(report.promotion_pending);
    assert_eq!(report.outcome, Outcome::Ongoing);
    assert_eq!(b.get_promotion(), Some([1, 7]));
    assert!(b.get_player());
    assert!(b.next_turn([0, 4], [0, 3]).is_none());
    assert!(b.next_turn([4, 0], [4, 1]).is_none());
    assert_eq!(b.upgrade_pawn([2, 7], PieceType::Queen), None);
    assert_eq!(b.upgrade_pawn([1, 7], PieceType::King), None);
    assert_eq!(b.upgrade_pawn([1, 7], PieceType::Pawn), None);
    assert_eq!(b.upgrade_pawn([1, 7], PieceType::Queen), Some(Outcome::Ongoing));
    assert_eq!(b.get_board()[1][7], piece(PieceType::Queen, true));
    assert_eq!(b.get_promotion(), None);
    assert!(!b.get_player());
    assert!(b.next_turn([0, 4], [0, 3]).is_some());
}

#[test]
fn promotion_that_mates() {
    // black king on h8 boxed in by its own pawns; a rook promotion on a8 mates
    let mut b = bare_board([4, 0], [7, 7]);
    b.set([6, 6], piece(PieceType::Pawn, false));
    b.set([7, 6], piece(PieceType::Pawn, false));
    b.set([0, 6], piece(PieceType::Pawn, true));
    let report = b.next_turn([0, 6], [0, 7]).expect("pawn advances");
    assert!(report.promotion_pending);
    assert_eq!(b.get_winner(), None);
    assert_eq!(b.upgrade_pawn([0, 7], PieceType::Rook), Some(Outcome::Checkmate(false)));
    assert_eq!(b.get_winner(), Some(1));
}

#[test]
fn stalemate_is_told_from_checkmate() {
    let mut b = bare_board([4, 0], [0, 7]);
    b.set([2, 6], piece(PieceType::Queen, true));
    assert!(!b.has_any_legal_move(false));
    assert!(b.test_stalemate(false));
    assert!(!b.test_checkmate(false));
    assert_eq!(b.evaluate_terminal(false), Outcome::Stalemate);
}

#[test]
fn stalemate_recorded_as_draw() {
    let mut b = bare_board([4, 0], [0, 7]);
    b.set([2, 4], piece(PieceType::Queen, true));
    let report = b.next_turn([2, 4], [2, 6]).expect("queen move");
    assert_eq!(report.outcome, Outcome::Stalemate);
    assert_eq!(b.get_winner(), Some(0));
}

#[test]
fn move_prefilter_for_every_kind() {
    let mut b = ChessBoard::new();
    let kinds = [
        PieceType::Pawn,
        PieceType::Knight,
        PieceType::Bishop,
        PieceType::Rook,
        PieceType::Queen,
        PieceType::King,
    ];
    for kind in kinds {
        for is_white in [true, false] {
            let p = Piece { kind, is_white };
            assert!(!p.test_move([3, 3], [3, 3], &mut b));
            let own = if is_white { [2, 1] } else { [2, 6] };
            let from = if is_white { [3, 2] } else { [3, 5] };
            assert!(!p.test_move(from, own, &mut b));
        }
    }
}

#[test]
fn piece_geometry() {
    let mut b = bare_board([4, 0], [4, 7]);
    b.set([3, 3], piece(PieceType::Pawn, false));
    let queen = Piece { kind: PieceType::Queen, is_white: true };
    assert!(queen.test_move([0, 0], [2, 2], &mut b));
    assert!(queen.test_move([0, 0], [3, 3], &mut b));
    assert!(!queen.test_move([0, 0], [5, 5], &mut b));
    assert!(queen.test_move([0, 3], [3, 3], &mut b));
    assert!(!queen.test_move([0, 3], [5, 3], &mut b));
    assert!(!queen.test_move([0, 0], [1, 2], &mut b));
    let knight = Knight::new(true);
    assert!(knight.test_move([1, 0], [2, 2], &mut b));
    assert!(knight.test_move([1, 0], [3, 1], &mut b));
    assert!(!knight.test_move([1, 0], [3, 2], &mut b));
    assert!(knight.test_knight([1, 0], [0, 2]));
    let bishop = Bishop::new(false);
    assert!(bishop.test_diagonal([0, 0], [2, 2], &b));
    assert!(!bishop.test_diagonal([0, 0], [4, 4], &b));
    let rook = Rook::new(true);
    assert!(rook.test_straight([3, 0], [3, 2], &b));
    assert!(!rook.test_straight([3, 0], [3, 5], &b));
    let king = King::new(true);
    assert!(king.test_king([4, 0], [5, 1], &mut b));
    assert!(!king.test_king([4, 0], [4, 2], &mut b));
    let queen2 = Queen::new(true);
    assert!(queen2.test_diagonal([0, 0], [3, 3], &b));
    assert!(queen2.test_straight([0, 3], [2, 3], &b));
}

#[test]
fn pawn_geometry() {
    let mut b = ChessBoard::new();
    let white = Pawn::new(true);
    let black = Pawn::new(false);
    assert!(white.test_pawn([4, 1], [4, 2], &b));
    assert!(white.test_pawn([4, 1], [4, 3], &b));
    assert!(!white.test_pawn([4, 1], [4, 4], &b));
    assert!(!white.test_pawn([4, 1], [5, 2], &b));
    assert!(!white.test_pawn([4, 2], [4, 1], &b));
    assert!(black.test_pawn([4, 6], [4, 4], &b));
    assert!(!black.test_pawn([4, 6], [4, 7], &b));
    b.set([4, 2], piece(PieceType::Knight, false));
    assert!(!white.test_pawn([4, 1], [4, 2], &b));
    assert!(!white.test_pawn([4, 1], [4, 3], &b));
    assert!(white.test_pawn([3, 1], [4, 2], &b));
    assert!(white.test_move([3, 1], [4, 2], &mut b));
}

#[test]
fn threat_probes_leave_the_board_unchanged() {
    let mut b = ChessBoard::new();
    play(&mut b, [4, 1], [4, 3]);
    play(&mut b, [3, 6], [3, 4]);
    let before = b.get_board();
    let kings = (b.get_white_king_pos(), b.get_black_king_pos());
    for x in 0..8 {
        for y in 0..8 {
            let _ = b.is_threatened([x, y], true);
            let _ = b.is_threatened([x, y], false);
            let _ = b.test_check([4, 3], [x, y], true);
            let _ = b.test_check([4, 0], [x, y], true);
        }
    }
    assert_eq!(b.get_board(), before);
    assert_eq!((b.get_white_king_pos(), b.get_black_king_pos()), kings);
}

#[test]
fn empty_square_threatened_by_pawn() {
    let mut b = ChessBoard::new();
    assert!(b.is_threatened([3, 5], true));
    assert!(!b.is_threatened([3, 4], true));
    assert!(b.is_threatened([0, 2], false));
    assert_eq!(b.get_board()[3][5], None);
}

#[test]
fn self_check_detected() {
    let mut b = bare_board([4, 0], [4, 7]);
    b.set([4, 1], piece(PieceType::Bishop, true));
    b.set([4, 5], piece(PieceType::Rook, false));
    assert!(b.test_check([4, 1], [3, 2], true));
    assert!(!b.test_check([4, 1], [4, 1], false));
    assert!(b.next_turn([4, 1], [3, 2]).is_none());
    assert!(b.test_check([4, 0], [4, 1], true));
    assert!(b.test_check([4, 0], [5, 0], true) == false);
}

#[test]
fn wrong_side_and_empty_square_refused() {
    let mut b = ChessBoard::new();
    assert!(b.next_turn([4, 6], [4, 5]).is_none());
    assert!(b.next_turn([4, 3], [4, 4]).is_none());
    assert!(b.get_player());
    play(&mut b, [6, 0], [5, 2]);
    assert!(!b.get_player());
}

#[test]
fn capture_scores_points() {
    let mut b = ChessBoard::new();
    assert_eq!(b.capture([1, 7]), piece(PieceType::Knight, false));
    assert_eq!(b.get_score(), [3, 0]);
    assert_eq!(b.capture([3, 0]), piece(PieceType::Queen, true));
    assert_eq!(b.get_score(), [3, 9]);
    assert_eq!(b.capture([3, 3]), None);
    assert_eq!(b.get_score(), [3, 9]);
    assert_eq!(b.get_black_captured().clone(), vec![Piece { kind: PieceType::Queen, is_white: true }]);
}

#[test]
fn piece_values_and_symbols() {
    assert_eq!(Pawn::new(true).get_points(), 1);
    assert_eq!(Knight::new(true).get_points(), 3);
    assert_eq!(Bishop::new(false).get_points(), 3);
    assert_eq!(Rook::new(true).get_points(), 5);
    assert_eq!(Queen::new(false).get_points(), 9);
    assert_eq!(King::new(true).get_points(), 0);
    assert_eq!(King::new(true).as_str(), "♔");
    assert_eq!(King::new(false).as_str(), "♚");
    assert_eq!(Pawn::new(false).as_str(), "♟");
    assert_eq!(Queen::new(true).get_symbol(1), "♛");
    assert_eq!(Rook::new(false).get_piece_type(), PieceType::Rook);
    assert!(!Bishop::new(false).is_white());
    assert_eq!(Knight::new(true).piece(), Piece { kind: PieceType::Knight, is_white: true });
}

#[test]
fn parse_moves_and_resignation() {
    let mut b = ChessBoard::new();
    assert_eq!(b.parse_input("e2 e4\n"), Some(([4, 1], [4, 3])));
    assert_eq!(b.parse_input("  a1 h8  "), Some(([0, 0], [7, 7])));
    assert_eq!(b.parse_input("e2e4"), None);
    assert_eq!(b.parse_input("e2  e4"), None);
    assert_eq!(b.parse_input("i2 e4"), None);
    assert_eq!(b.parse_input("e9 e4"), None);
    assert_eq!(b.parse_input(""), None);
    assert_eq!(b.get_winner(), None);
    assert_eq!(b.parse_input("resign\n"), None);
    assert_eq!(b.get_winner(), Some(-1));
}

#[test]
fn helpers() {
    assert_eq!(find_dist([1, 2], [4, 0]), (-3, 2));
    assert_eq!(path_iter([0, 0], [3, 3]), vec![[1, 1], [2, 2]]);
    assert_eq!(path_iter([5, 2], [5, 6]), vec![[5, 3], [5, 4], [5, 5]]);
    assert_eq!(path_iter([6, 1], [3, 4]), vec![[5, 2], [4, 3]]);
    assert_eq!(path_iter([2, 2], [3, 2]), Vec::<[usize; 2]>::new());
    assert!(check_occupied(true, Some(true)));
    assert!(!check_occupied(true, Some(false)));
    assert!(!check_occupied(false, None));
}

#[test]
fn new_game_resets() {
    let mut b = ChessBoard::new();
    play(&mut b, [4, 1], [4, 3]);
    b.new_game();
    assert_eq!(b.get_board(), ChessBoard::new().get_board());
    assert!(b.get_player());
    assert_eq!(b.get_white_en_passant(), None);
}

#[test]
fn king_moves_update_the_cache() {
    let mut b = ChessBoard::new();
    play(&mut b, [4, 1], [4, 3]);
    play(&mut b, [4, 6], [4, 4]);
    play(&mut b, [4, 0], [4, 1]);
    assert_eq!(b.get_white_king_pos(), [4, 1]);
    assert!(!b.get_white_can_castle_left());
    play(&mut b, [4, 7], [4, 6]);
    assert_eq!(b.get_black_king_pos(), [4, 6]);
    assert!(!b.get_black_can_castle_right());
}

fn king_square_by_scan(b: &ChessBoard, is_white: bool) -> Option<[usize; 2]> {
    let squares = b.get_board();
    for x in 0..8 {
        for y in 0..8 {
            if squares[x][y] == piece(PieceType::King, is_white) {
                return Some([x, y]);
            }
        }
    }
    None
}

#[test]
fn king_cache_matches_the_board_after_every_move() {
    let mut b = ChessBoard::new();
    b.set([5, 0], None);
    b.set([6, 0], None);
    let moves: [([usize; 2], [usize; 2]); 8] = [
        ([4, 1], [4, 3]),
        ([4, 6], [4, 4]),
        ([4, 0], [6, 0]),
        ([4, 7], [4, 6]),
        ([6, 0], [7, 0]),
        ([4, 6], [3, 5]),
        ([7, 0], [6, 0]),
        ([3, 5], [2, 4]),
    ];
    for (start, dest) in moves {
        play(&mut b, start, dest);
        assert_eq!(king_square_by_scan(&b, true), Some(b.get_white_king_pos()));
        assert_eq!(king_square_by_scan(&b, false), Some(b.get_black_king_pos()));
    }
}

#[test]
fn parse_trims_unicode_whitespace() {
    let mut b = ChessBoard::new();
    assert_eq!(b.parse_input("e2 e4\u{00A0}"), Some(([4, 1], [4, 3])));
    assert_eq!(b.parse_input("\u{3000}\u{2003}a2 a3\u{0085}\u{2029}\n"), Some(([0, 1], [0, 2])));
    assert_eq!(b.parse_input("\u{1680}h7 h5\u{202F}\u{205F}\u{2028}\u{200A}"), Some(([7, 6], [7, 4])));
    assert_eq!(b.parse_input("e2\u{00A0}e4"), None);
    assert_eq!(b.parse_input("e2 e4\u{200B}"), None);
    assert_eq!(b.parse_input("\u{00A0}\u{3000}"), None);
    assert_eq!(b.get_winner(), None);
    assert_eq!(b.parse_input("\u{00A0}resign\u{3000}"), None);
    assert_eq!(b.get_winner(), Some(-1));
}

#[test]
fn promotion_needs_the_pawn_on_its_square() {
    let mut b = bare_board([4, 0], [0, 4]);
    b.set([1, 6], piece(PieceType::Pawn, false));
    b.set_player(false);
    b.set([1, 6], None);
    b.set([1, 1], piece(PieceType::Pawn, false));
    let report = b.next_turn([1, 1], [1, 0]).expect("black pawn advances");
    assert!(report.promotion_pending);
    b.set([1, 0], None);
    assert_eq!(b.upgrade_pawn([1, 0], PieceType::Queen), None);
    assert_eq!(b.get_board()[1][0], None);
    assert_eq!(b.get_promotion(), Some([1, 0]));
    b.set([1, 0], piece(PieceType::Pawn, false));
    assert_eq!(b.upgrade_pawn([1, 0], PieceType::Knight), Some(Outcome::Ongoing));
    assert_eq!(b.get_board()[1][0], piece(PieceType::Knight, false));
    assert!(b.get_player());
}
