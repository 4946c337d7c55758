use vstd::prelude::*;
use crate::board::{ChessBoard, on_board};
use crate::geometry::{check_occupied, occupant_color, test_space_basic};
use crate::model::{king_step_ok, knight_ok};

verus! {

/// The six kinds of chess piece.
#[derive(Clone, Copy, Debug, PartialEq, Eq, Structural)]
pub enum PieceType {
    Pawn,
    Knight,
    Bishop,
    Rook,
    Queen,
    King,
}

/// A piece as it stands on a square: its kind and its colour.
/// Pieces are plain values; promotion replaces the value on a square.
#[derive(Clone, Copy, Debug, PartialEq, Eq, Structural)]
pub struct Piece {
    pub kind: PieceType,
    pub is_white: bool,
}

/// Material value of each kind.
pub open spec fn points_of(kind: PieceType) -> u8 {
    match kind {
        PieceType::Pawn => 1,
        PieceType::Knight => 3,
        PieceType::Bishop => 3,
        PieceType::Rook => 5,
        PieceType::Queen => 9,
        PieceType::King => 0,
    }
}

/// The glyph of a kind in one colour.
pub open spec fn symbol_of(kind: PieceType, is_white: bool) -> char {
    match kind {
        PieceType::Pawn => if is_white { '♙' } else { '♟' },
        PieceType::Knight => if is_white { '♘' } else { '♞' },
        PieceType::Bishop => if is_white { '♗' } else { '♝' },
        PieceType::Rook => if is_white { '♖' } else { '♜' },
        PieceType::Queen => if is_white { '♕' } else { '♛' },
        PieceType::King => if is_white { '♔' } else { '♚' },
    }
}

/// The kinds a pawn may be promoted to.
pub open spec fn promotable(kind: PieceType) -> bool {
    kind == PieceType::Queen || kind == PieceType::Rook || kind == PieceType::Bishop || kind
        == PieceType::Knight
}

/// A chess piece: what stands for it on the board, its colour, kind, value and
/// symbol, and how it moves.
pub trait ChessPiece {
    /// The board value this piece stands for.
    spec fn piece_spec(&self) -> Piece;

    fn piece(&self) -> (r: Piece)
        ensures
            r == self.piece_spec(),
    ;

    fn is_white(&self) -> (r: bool)
        ensures
            r == self.piece_spec().is_white,
    {
        self.piece().is_white
    }

    fn get_piece_type(&self) -> (r: PieceType)
        ensures
            r == self.piece_spec().kind,
    {
        self.piece().kind
    }

    fn get_points(&self) -> (r: u8)
        ensures
            r == points_of(self.piece_spec().kind),
    {
        match self.piece().kind {
            PieceType::Pawn => 1,
            PieceType::Knight => 3,
            PieceType::Bishop => 3,
            PieceType::Rook => 5,
            PieceType::Queen => 9,
            PieceType::King => 0,
        }
    }

    /// The symbol of this kind: index 0 gives the white glyph, 1 the black one.
    fn get_symbol(&self, index: usize) -> (r: &'static str)
        requires
            index < 2,
        ensures
            r@ == seq![symbol_of(self.piece_spec().kind, index == 0)],
    {
        let white = index == 0;
        match self.piece().kind {
            PieceType::Pawn => if white {
                proof { reveal_strlit("♙"); }
                "♙"
            } else {
                proof { reveal_strlit("♟"); }
                "♟"
            },
            PieceType::Knight => if white {
                proof { reveal_strlit("♘"); }
                "♘"
            } else {
                proof { reveal_strlit("♞"); }
                "♞"
            },
            PieceType::Bishop => if white {
                proof { reveal_strlit("♗"); }
                "♗"
            } else {
                proof { reveal_strlit("♝"); }
                "♝"
            },
            PieceType::Rook => if white {
                proof { reveal_strlit("♖"); }
                "♖"
            } else {
                proof { reveal_strlit("♜"); }
                "♜"
            },
            PieceType::Queen => if white {
                proof { reveal_strlit("♕"); }
                "♕"
            } else {
                proof { reveal_strlit("♛"); }
                "♛"
            },
            PieceType::King => if white {
                proof { reveal_strlit("♔"); }
                "♔"
            } else {
                proof { reveal_strlit("♚"); }
                "♚"
            },
        }
    }

    /// The symbol of this piece in its own colour.
    fn as_str(&self) -> (r: &'static str)
        ensures
            r@ == seq![symbol_of(self.piece_spec().kind, self.piece_spec().is_white)],
    {
        if self.is_white() {
            self.get_symbol(0)
        } else {
            self.get_symbol(1)
        }
    }

    /// Geometry of this piece's kind from `start` to `dest`, castling included.
    fn test_space(&self, start: [usize; 2], dest: [usize; 2], board: &mut ChessBoard) -> (r: bool)
        requires
            old(board).wf(),
            on_board(start),
            on_board(dest),
        ensures
            final(board).wf(),
            final(board)@ == old(board)@,
            r == old(board)@.space_ok(
                self.piece_spec(),
                start[0] as int,
                start[1] as int,
                dest[0] as int,
                dest[1] as int,
            ),
    {
        let p = self.piece();
        if test_space_basic(p, start, dest, board) {
            return true;
        }
        if p.kind == PieceType::King {
            return board.test_castle(p.is_white, start, dest);
        }
        false
    }

    /// Whether this piece, standing on `start`, may move onto `dest`: the squares
    /// differ, `dest` holds no piece of its own colour, and its kind's geometry
    /// allows it. Whether the move exposes its own king is not considered here.
    fn test_move(&self, start: [usize; 2], dest: [usize; 2], board: &mut ChessBoard) -> (r: bool)
        requires
            old(board).wf(),
            on_board(start),
            on_board(dest),
        ensures
            final(board).wf(),
            final(board)@ == old(board)@,
            r == old(board)@.move_ok(
                self.piece_spec(),
                start[0] as int,
                start[1] as int,
                dest[0] as int,
                dest[1] as int,
            ),
    {
        let dest_player = occupant_color(dest, board);
        if !(start[0] == dest[0] && start[1] == dest[1]) && !check_occupied(
            self.is_white(),
            dest_player,
        ) {
            return self.test_space(start, dest, board);
        }
        false
    }
}

impl ChessPiece for Piece {
    open spec fn piece_spec(&self) -> Piece {
        *self
    }

    fn piece(&self) -> (r: Piece) {
        *self
    }
}

/// Moves along diagonals.
pub trait DiagonalMove: ChessPiece {
    fn test_diagonal(&self, start: [usize; 2], dest: [usize; 2], board: &ChessBoard) -> (r: bool)
        requires
            board.wf(),
            on_board(start),
            on_board(dest),
        ensures
            r == board@.diagonal_ok(
                start[0] as int,
                start[1] as int,
                dest[0] as int,
                dest[1] as int,
            ),
    {
        crate::geometry::test_diagonal(start, dest, board)
    }
}

/// Moves along files and ranks.
pub trait StraightMove: ChessPiece {
    fn test_straight(&self, start: [usize; 2], dest: [usize; 2], board: &ChessBoard) -> (r: bool)
        requires
            board.wf(),
            on_board(start),
            on_board(dest),
        ensures
            r == board@.straight_ok(
                start[0] as int,
                start[1] as int,
                dest[0] as int,
                dest[1] as int,
            ),
    {
        crate::geometry::test_straight(start, dest, board)
    }
}

/// Jumps as a knight.
pub trait KnightMove: ChessPiece {
    fn test_knight(&self, start: [usize; 2], dest: [usize; 2]) -> (r: bool)
        requires
            on_board(start),
            on_board(dest),
        ensures
            r == knight_ok(start[0] as int, start[1] as int, dest[0] as int, dest[1] as int),
    {
        crate::geometry::test_knight(start, dest)
    }
}

/// Steps as a king, or castles.
pub trait KingMove: ChessPiece {
    fn test_king(&self, start: [usize; 2], dest: [usize; 2], board: &mut ChessBoard) -> (r: bool)
        requires
            old(board).wf(),
            on_board(start),
            on_board(dest),
        ensures
            final(board).wf(),
            final(board)@ == old(board)@,
            r == (king_step_ok(start[0] as int, start[1] as int, dest[0] as int, dest[1] as int)
                || old(board)@.castle_ok(
                self.piece_spec().is_white,
                start[0] as int,
                start[1] as int,
                dest[0] as int,
                dest[1] as int,
            )),
    {
        if crate::geometry::test_king_step(start, dest) {
            return true;
        }
        board.test_castle(self.is_white(), start, dest)
    }
}

/// Moves as a pawn of its colour.
pub trait PawnMove: ChessPiece {
    fn test_pawn(&self, start: [usize; 2], dest: [usize; 2], board: &ChessBoard) -> (r: bool)
        requires
            board.wf(),
            on_board(start),
            on_board(dest),
        ensures
            r == board@.pawn_ok(
                self.piece_spec().is_white,
                start[0] as int,
                start[1] as int,
                dest[0] as int,
                dest[1] as int,
            ),
    {
        crate::geometry::test_pawn(self.is_white(), start, dest, board)
    }
}

/// A pawn of one colour.
pub struct Pawn {
    pub is_white: bool,
}

impl Pawn {
    pub fn new(is_white: bool) -> (r: Self)
        ensures
            r.piece_spec() == (Piece { kind: PieceType::Pawn, is_white }),
    {
        Pawn { is_white }
    }
}

impl ChessPiece for Pawn {
    open spec fn piece_spec(&self) -> Piece {
        Piece { kind: PieceType::Pawn, is_white: self.is_white }
    }

    fn piece(&self) -> (r: Piece) {
        Piece { kind: PieceType::Pawn, is_white: self.is_white }
    }
}

/// A bishop of one colour.
pub struct Bishop {
    pub is_white: bool,
}

impl Bishop {
    pub fn new(is_white: bool) -> (r: Self)
        ensures
            r.piece_spec() == (Piece { kind: PieceType::Bishop, is_white }),
    {
        Bishop { is_white }
    }
}

impl ChessPiece for Bishop {
    open spec fn piece_spec(&self) -> Piece {
        Piece { kind: PieceType::Bishop, is_white: self.is_white }
    }

    fn piece(&self) -> (r: Piece) {
        Piece { kind: PieceType::Bishop, is_white: self.is_white }
    }
}

/// A knight of one colour.
pub struct Knight {
    pub is_white: bool,
}

impl Knight {
    pub fn new(is_white: bool) -> (r: Self)
        ensures
            r.piece_spec() == (Piece { kind: PieceType::Knight, is_white }),
    {
        Knight { is_white }
    }
}

impl ChessPiece for Knight {
    open spec fn piece_spec(&self) -> Piece {
        Piece { kind: PieceType::Knight, is_white: self.is_white }
    }

    fn piece(&self) -> (r: Piece) {
        Piece { kind: PieceType::Knight, is_white: self.is_white }
    }
}

/// A rook of one colour.
pub struct Rook {
    pub is_white: bool,
}

impl Rook {
    pub fn new(is_white: bool) -> (r: Self)
        ensures
            r.piece_spec() == (Piece { kind: PieceType::Rook, is_white }),
    {
        Rook { is_white }
    }
}

impl ChessPiece for Rook {
    open spec fn piece_spec(&self) -> Piece {
        Piece { kind: PieceType::Rook, is_white: self.is_white }
    }

    fn piece(&self) -> (r: Piece) {
        Piece { kind: PieceType::Rook, is_white: self.is_white }
    }
}

/// A king of one colour.
pub struct King {
    pub is_white: bool,
}

impl King {
    pub fn new(is_white: bool) -> (r: Self)
        ensures
            r.piece_spec() == (Piece { kind: PieceType::King, is_white }),
    {
        King { is_white }
    }
}

impl ChessPiece for King {
    open spec fn piece_spec(&self) -> Piece {
        Piece { kind: PieceType::King, is_white: self.is_white }
    }

    fn piece(&self) -> (r: Piece) {
        Piece { kind: PieceType::King, is_white: self.is_white }
    }
}

/// A queen of one colour.
pub struct Queen {
    pub is_white: bool,
}

impl Queen {
    pub fn new(is_white: bool) -> (r: Self)
        ensures
            r.piece_spec() == (Piece { kind: PieceType::Queen, is_white }),
    {
        Queen { is_white }
    }
}

impl ChessPiece for Queen {
    open spec fn piece_spec(&self) -> Piece {
        Piece { kind: PieceType::Queen, is_white: self.is_white }
    }

    fn piece(&self) -> (r: Piece) {
        Piece { kind: PieceType::Queen, is_white: self.is_white }
    }
}

impl PawnMove for Pawn {}

impl DiagonalMove for Bishop {}

impl KnightMove for Knight {}

impl StraightMove for Rook {}

impl KingMove for King {}

impl DiagonalMove for Queen {}

impl StraightMove for Queen {}

} // verus!
