use vstd::prelude::*;
use crate::board::{ChessBoard, on_board};
use crate::chesspiece::{ChessPiece, Piece, PieceType};
use crate::geometry::{find_dist, test_reach};
use crate::model::{Outcome, in_range};

verus! {

impl ChessBoard {
    /// Some enemy of `is_white` on the board, as it stands, can move onto `space`.
    fn scan_threat(&self, space: [usize; 2], is_white: bool) -> (r: bool)
        requires
            self.wf(),
            on_board(space),
        ensures
            r == exists|ax: int, ay: int|
                in_range(ax, ay) && #[trigger] self@.threatens(
                    ax,
                    ay,
                    space[0] as int,
                    space[1] as int,
                    is_white,
                ),
    {
        let mut row: usize = 0;
        while row < 8
            invariant
                self.wf(),
                on_board(space),
                row <= 8,
                forall|ax: int, ay: int|
                    in_range(ax, ay) && ay < row ==> !#[trigger] self@.threatens(
                        ax,
                        ay,
                        space[0] as int,
                        space[1] as int,
                        is_white,
                    ),
            decreases 8 - row,
        {
            let mut col: usize = 0;
            while col < 8
                invariant
                    self.wf(),
                    on_board(space),
                    row < 8,
                    col <= 8,
                    forall|ax: int, ay: int|
                        in_range(ax, ay) && (ay < row || (ay == row && ax < col))
                            ==> !#[trigger] self@.threatens(
                            ax,
                            ay,
                            space[0] as int,
                            space[1] as int,
                            is_white,
                        ),
                decreases 8 - col,
            {
                if let Some(piece) = self.get([col, row]) {
                    if piece.is_white != is_white && test_reach(piece, [col, row], space, self) {
                        assert(self@.threatens(
                            col as int,
                            row as int,
                            space[0] as int,
                            space[1] as int,
                            is_white,
                        ));
                        return true;
                    }
                }
                col = col + 1;
            }
            row = row + 1;
        }
        false
    }

    /// Whether an opponent of `is_white` threatens `space`. An empty square is
    /// probed with a decoy pawn of colour `is_white` on it, so that enemy pawns
    /// register their capture geometry; the decoy is removed before returning.
    /// A king's castling never lands on an occupied square, so while probing,
    /// an enemy king threatens only the squares next to it.
    pub fn is_threatened(&mut self, space: [usize; 2], is_white: bool) -> (r: bool)
        requires
            old(self).wf(),
            on_board(space),
        ensures
            final(self).wf(),
            final(self)@ == old(self)@,
            r == old(self)@.attacked(space[0] as int, space[1] as int, is_white),
    {
        let ghost v0 = self@;
        let space_is_empty = self.get(space).is_none();
        if space_is_empty {
            self.set(space, Some(Piece { kind: PieceType::Pawn, is_white }));
        }
        assert(self@ == v0.with_decoy(space[0] as int, space[1] as int, is_white));
        let threatened = self.scan_threat(space, is_white);
        if space_is_empty {
            self.set(space, None);
            assert(self@.squares =~= v0.squares);
        }
        threatened
    }

    /// Whether moving the piece on `start` to `dest` would leave the king of colour
    /// `is_white` threatened. The move is simulated on the board, probed and
    /// undone: the board is returned exactly as it was.
    pub fn test_check(&mut self, start: [usize; 2], dest: [usize; 2], is_white: bool) -> (r: bool)
        requires
            old(self).wf(),
            on_board(start),
            on_board(dest),
        ensures
            final(self).wf(),
            final(self)@ == old(self)@,
            r == old(self)@.check_after(
                start[0] as int,
                start[1] as int,
                dest[0] as int,
                dest[1] as int,
                is_white,
            ),
    {
        let ghost v0 = self@;
        let start_piece = self.get(start);
        let dest_piece = self.get(dest);
        self.set(dest, start_piece);
        self.set(start, None);
        let king_pos = match start_piece {
            Some(p) if p.kind == PieceType::King => dest,
            _ => if is_white {
                self.get_white_king_pos()
            } else {
                self.get_black_king_pos()
            },
        };
        let in_check = self.is_threatened(king_pos, is_white);
        self.set(start, start_piece);
        self.set(dest, dest_piece);
        assert(self@.squares =~= v0.squares);
        in_check
    }

    /// Castling of the king of colour `is_white` from `start` onto `dest`: the king
    /// is not threatened, the right is held, the squares up to the rook are empty,
    /// and neither the square passed through nor the landing square is threatened
    /// (the latter probed with the rook moved beside it, then moved back).
    pub fn test_castle(&mut self, is_white: bool, start: [usize; 2], dest: [usize; 2]) -> (r: bool)
        requires
            old(self).wf(),
            on_board(start),
            on_board(dest),
        ensures
            final(self).wf(),
            final(self)@ == old(self)@,
            r == old(self)@.castle_ok(
                is_white,
                start[0] as int,
                start[1] as int,
                dest[0] as int,
                dest[1] as int,
            ),
    {
        let ghost v0 = self@;
        let (x_dist, y_dist) = find_dist(start, dest);
        if !((x_dist == 2 || x_dist == -2) && y_dist == 0) {
            return false;
        }
        if self.is_threatened(start, is_white) {
            return false;
        }
        let (can_castle_left, can_castle_right) = if is_white {
            (self.get_white_can_castle_left(), self.get_white_can_castle_right())
        } else {
            (self.get_black_can_castle_left(), self.get_black_can_castle_right())
        };
        let row = dest[1];
        if dest[0] == 2 && can_castle_left && self.get([3, row]).is_none() && self.get(
            [2, row],
        ).is_none() && self.get([1, row]).is_none() {
            if self.test_check(start, [3, row], is_white) {
                return false;
            }
            let rook = self.get([0, row]);
            self.set([0, row], None);
            self.set([3, row], rook);
            let in_check = self.test_check(start, dest, is_white);
            self.set([0, row], rook);
            self.set([3, row], None);
            assert(self@.squares =~= v0.squares);
            return !in_check;
        } else if dest[0] == 6 && can_castle_right && self.get([5, row]).is_none() && self.get(
            [6, row],
        ).is_none() {
            if self.test_check(start, [5, row], is_white) {
                return false;
            }
            let rook = self.get([7, row]);
            self.set([7, row], None);
            self.set([5, row], rook);
            let in_check = self.test_check(start, dest, is_white);
            self.set([7, row], rook);
            self.set([5, row], None);
            assert(self@.squares =~= v0.squares);
            return !in_check;
        }
        false
    }

    /// Whether `piece` on `start` has a move that leaves its own king unthreatened.
    fn test_block(&mut self, start: [usize; 2], piece: Piece) -> (r: bool)
        requires
            old(self).wf(),
            on_board(start),
        ensures
            final(self).wf(),
            final(self)@ == old(self)@,
            r == exists|dx: int, dy: int|
                in_range(dx, dy) && #[trigger] old(self)@.safe_move(
                    piece,
                    start[0] as int,
                    start[1] as int,
                    dx,
                    dy,
                ),
    {
        let ghost v0 = self@;
        let mut row: usize = 0;
        while row < 8
            invariant
                self.wf(),
                self@ == v0,
                v0 == old(self)@,
                on_board(start),
                row <= 8,
                forall|dx: int, dy: int|
                    in_range(dx, dy) && dy < row ==> !#[trigger] v0.safe_move(
                        piece,
                        start[0] as int,
                        start[1] as int,
                        dx,
                        dy,
                    ),
            decreases 8 - row,
        {
            let mut col: usize = 0;
            while col < 8
                invariant
                    self.wf(),
                    self@ == v0,
                    v0 == old(self)@,
                    on_board(start),
                    row < 8,
                    col <= 8,
                    forall|dx: int, dy: int|
                        in_range(dx, dy) && (dy < row || (dy == row && dx < col))
                            ==> !#[trigger] v0.safe_move(
                            piece,
                            start[0] as int,
                            start[1] as int,
                            dx,
                            dy,
                        ),
                decreases 8 - col,
            {
                if piece.test_move(start, [col, row], self) {
                    if !self.test_check(start, [col, row], piece.is_white) {
                        assert(v0.safe_move(
                            piece,
                            start[0] as int,
                            start[1] as int,
                            col as int,
                            row as int,
                        ));
                        return true;
                    }
                }
                col = col + 1;
            }
            row = row + 1;
        }
        false
    }

    /// Whether colour `is_white` has no legal move at all: true on checkmate and on
    /// stalemate alike (`test_checkmate` then tells them apart).
    pub fn test_stalemate(&mut self, is_white: bool) -> (r: bool)
        requires
            old(self).wf(),
        ensures
            final(self).wf(),
            final(self)@ == old(self)@,
            r == !old(self)@.has_legal_move(is_white),
    {
        let ghost v0 = self@;
        let mut row: usize = 0;
        while row < 8
            invariant
                self.wf(),
                self@ == v0,
                v0 == old(self)@,
                row <= 8,
                forall|sx: int, sy: int, dx: int, dy: int|
                    in_range(sx, sy) && in_range(dx, dy) && sy < row ==> !#[trigger] v0.legal_move(
                        sx,
                        sy,
                        dx,
                        dy,
                        is_white,
                    ),
            decreases 8 - row,
        {
            let mut col: usize = 0;
            while col < 8
                invariant
                    self.wf(),
                    self@ == v0,
                    v0 == old(self)@,
                    row < 8,
                    col <= 8,
                    forall|sx: int, sy: int, dx: int, dy: int|
                        in_range(sx, sy) && in_range(dx, dy) && (sy < row || (sy == row && sx
                            < col)) ==> !#[trigger] v0.legal_move(sx, sy, dx, dy, is_white),
                decreases 8 - col,
            {
                if let Some(piece) = self.get([col, row]) {
                    if piece.is_white == is_white {
                        if self.test_block([col, row], piece) {
                            let ghost (dx, dy) = choose|dx: int, dy: int|
                                in_range(dx, dy) && #[trigger] v0.safe_move(
                                    piece,
                                    col as int,
                                    row as int,
                                    dx,
                                    dy,
                                );
                            assert(v0.legal_move(col as int, row as int, dx, dy, is_white));
                            return false;
                        }
                    }
                }
                col = col + 1;
            }
            row = row + 1;
        }
        true
    }

    /// Whether colour `is_white` has at least one legal move.
    pub fn has_any_legal_move(&mut self, is_white: bool) -> (r: bool)
        requires
            old(self).wf(),
        ensures
            final(self).wf(),
            final(self)@ == old(self)@,
            r == old(self)@.has_legal_move(is_white),
    {
        !self.test_stalemate(is_white)
    }

    /// Whether the king of colour `is_white` is threatened where the board records
    /// it. After `test_stalemate` has reported no legal move, true means
    /// checkmate and false stalemate.
    pub fn test_checkmate(&mut self, is_white: bool) -> (r: bool)
        requires
            old(self).wf(),
        ensures
            final(self).wf(),
            final(self)@ == old(self)@,
            r == old(self)@.attacked(old(self)@.king_x(is_white), old(self)@.king_y(is_white), is_white),
    {
        let king_pos = if is_white {
            self.get_white_king_pos()
        } else {
            self.get_black_king_pos()
        };
        self.is_threatened(king_pos, is_white)
    }

    /// Terminal state of colour `is_white`, by the two queries in turn: whether it
    /// has any legal move, then whether its king is threatened.
    pub fn evaluate_terminal(&mut self, is_white: bool) -> (r: Outcome)
        requires
            old(self).wf(),
        ensures
            final(self).wf(),
            final(self)@ == old(self)@,
            r == old(self)@.terminal(is_white),
    {
        if self.test_stalemate(is_white) {
            if self.test_checkmate(is_white) {
                Outcome::Checkmate(is_white)
            } else {
                Outcome::Stalemate
            }
        } else {
            Outcome::Ongoing
        }
    }
}

} // verus!
