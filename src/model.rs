use vstd::prelude::*;
use crate::chesspiece::{Piece, PieceType, points_of};

verus! {

/// Absolute value on mathematical integers.
pub open spec fn abs(x: int) -> int {
    if x < 0 {
        -x
    } else {
        x
    }
}

/// Both coordinates lie in `0..8`.
pub open spec fn in_range(x: int, y: int) -> bool {
    0 <= x < 8 && 0 <= y < 8
}

/// Position of square (file `x`, rank `y`) in the flat 64-square layout.
pub open spec fn sq_index(x: int, y: int) -> int {
    x * 8 + y
}

/// The `k`-th coordinate from `a` toward `b` (stays at `a` when they are equal).
pub open spec fn step_toward(a: int, b: int, k: int) -> int {
    if a < b {
        a + k
    } else if b < a {
        a - k
    } else {
        a
    }
}

/// Number of single steps along a straight or diagonal line from `s` to `d`.
pub open spec fn span(sx: int, sy: int, dx: int, dy: int) -> int {
    if abs(dx - sx) > abs(dy - sy) {
        abs(dx - sx)
    } else {
        abs(dy - sy)
    }
}

/// An en-passant target equals square (x, y).
pub open spec fn is_target(ep: Option<[usize; 2]>, x: int, y: int) -> bool {
    match ep {
        Some(e) => e[0] == x && e[1] == y,
        None => false,
    }
}

/// The square holds a piece of colour `is_white`.
pub open spec fn same_color(is_white: bool, occupant: Option<Piece>) -> bool {
    match occupant {
        Some(q) => q.is_white == is_white,
        None => false,
    }
}

/// Knight geometry: one file and two ranks, or two files and one rank.
pub open spec fn knight_ok(sx: int, sy: int, dx: int, dy: int) -> bool {
    (abs(sx - dx) == 2 && abs(sy - dy) == 1) || (abs(sx - dx) == 1 && abs(sy - dy) == 2)
}

/// One step of a king in any direction.
pub open spec fn king_step_ok(sx: int, sy: int, dx: int, dy: int) -> bool {
    abs(sx - dx) <= 1 && abs(sy - dy) <= 1
}

/// Direction in which pawns of colour `is_white` advance along the ranks.
pub open spec fn forward(is_white: bool) -> int {
    if is_white {
        1
    } else {
        -1
    }
}

/// `a + b`, held at `u32::MAX`.
pub open spec fn sat_add(a: u32, b: u8) -> u32 {
    if a + b > u32::MAX {
        u32::MAX
    } else {
        (a + b) as u32
    }
}

/// Outcome of a side's terminal-state evaluation.
#[derive(Clone, Copy, Debug, PartialEq, Eq, Structural)]
pub enum Outcome {
    /// The side has a legal move.
    Ongoing,
    /// The side (white when `true`) has no legal move and its king is threatened.
    Checkmate(bool),
    /// The side has no legal move and its king is not threatened.
    Stalemate,
}

/// The mathematical state of a chess board and its game bookkeeping.
pub struct BoardView {
    /// The 64 squares; square (x, y) is `squares[x * 8 + y]`.
    pub squares: Seq<Option<Piece>>,
    /// Side to move: `true` for white.
    pub player: bool,
    pub white_score: u32,
    pub black_score: u32,
    /// Pieces captured by white, in capture order.
    pub white_captured: Seq<Piece>,
    /// Pieces captured by black, in capture order.
    pub black_captured: Seq<Piece>,
    pub white_en_passant: Option<[usize; 2]>,
    pub black_en_passant: Option<[usize; 2]>,
    pub white_can_castle_left: bool,
    pub white_can_castle_right: bool,
    pub black_can_castle_left: bool,
    pub black_can_castle_right: bool,
    pub white_king_pos: [usize; 2],
    pub black_king_pos: [usize; 2],
    /// 1: white won, -1: black won, 0: draw.
    pub winner: Option<i8>,
    /// Square of a pawn that reached the last rank and awaits its new kind.
    pub promotion: Option<[usize; 2]>,
}

impl BoardView {
    pub open spec fn at(self, x: int, y: int) -> Option<Piece> {
        self.squares[sq_index(x, y)]
    }

    /// The same state with square (x, y) holding `p`.
    pub open spec fn put(self, x: int, y: int, p: Option<Piece>) -> BoardView {
        BoardView { squares: self.squares.update(sq_index(x, y), p), ..self }
    }

    /// Every square strictly between `s` and `d` on their line is empty.
    pub open spec fn path_clear(self, sx: int, sy: int, dx: int, dy: int) -> bool {
        forall|k: int|
            0 < k < span(sx, sy, dx, dy) ==> (#[trigger] self.at(
                step_toward(sx, dx, k),
                step_toward(sy, dy, k),
            )).is_none()
    }

    pub open spec fn diagonal_ok(self, sx: int, sy: int, dx: int, dy: int) -> bool {
        abs(sx - dx) == abs(sy - dy) && self.path_clear(sx, sy, dx, dy)
    }

    pub open spec fn straight_ok(self, sx: int, sy: int, dx: int, dy: int) -> bool {
        (sx == dx || sy == dy) && self.path_clear(sx, sy, dx, dy)
    }

    /// The en-passant target that a pawn of colour `is_white` may capture onto:
    /// the one the opponent set.
    pub open spec fn ep_against(self, is_white: bool) -> Option<[usize; 2]> {
        if is_white {
            self.black_en_passant
        } else {
            self.white_en_passant
        }
    }

    /// Pawn geometry. White advances toward higher ranks, black toward lower.
    pub open spec fn pawn_ok(self, is_white: bool, sx: int, sy: int, dx: int, dy: int) -> bool {
        let adv = if is_white {
            dy - sy
        } else {
            sy - dy
        };
        let fwd = if is_white {
            1int
        } else {
            -1int
        };
        if sx == dx && self.at(dx, dy).is_some() {
            false
        } else if adv == 1 {
            if abs(sx - dx) == 1 {
                self.at(dx, dy).is_some() || is_target(self.ep_against(is_white), dx, dy)
            } else {
                sx == dx
            }
        } else if adv == 2 && (sy == 1 || sy == 6) {
            self.at(dx, dy).is_none() && sx == dx && self.at(dx, dy - fwd).is_none()
        } else {
            false
        }
    }

    /// Geometry of each kind, leaving castling aside.
    pub open spec fn basic_space_ok(self, p: Piece, sx: int, sy: int, dx: int, dy: int) -> bool {
        match p.kind {
            PieceType::Pawn => self.pawn_ok(p.is_white, sx, sy, dx, dy),
            PieceType::Knight => knight_ok(sx, sy, dx, dy),
            PieceType::Bishop => self.diagonal_ok(sx, sy, dx, dy),
            PieceType::Rook => self.straight_ok(sx, sy, dx, dy),
            PieceType::Queen => self.straight_ok(sx, sy, dx, dy) || self.diagonal_ok(
                sx,
                sy,
                dx,
                dy,
            ),
            PieceType::King => king_step_ok(sx, sy, dx, dy),
        }
    }

    /// The shared pre-filter and the geometry, leaving castling aside.
    pub open spec fn basic_move_ok(self, p: Piece, sx: int, sy: int, dx: int, dy: int) -> bool {
        !(sx == dx && sy == dy) && !same_color(p.is_white, self.at(dx, dy))
            && self.basic_space_ok(p, sx, sy, dx, dy)
    }

    /// The state used to probe square (x, y) for threats against colour `is_white`:
    /// an empty square receives a decoy pawn of that colour, so that enemy pawns
    /// register their capture geometry.
    pub open spec fn with_decoy(self, x: int, y: int, is_white: bool) -> BoardView {
        if self.at(x, y).is_none() {
            self.put(x, y, Some(Piece { kind: PieceType::Pawn, is_white }))
        } else {
            self
        }
    }

    /// The piece on (ax, ay) is an enemy of `is_white` that can move onto (x, y).
    pub open spec fn threatens(self, ax: int, ay: int, x: int, y: int, is_white: bool) -> bool {
        match self.at(ax, ay) {
            Some(p) => p.is_white != is_white && self.basic_move_ok(p, ax, ay, x, y),
            None => false,
        }
    }

    /// Square (x, y) is threatened by an opponent of colour `is_white`.
    pub open spec fn attacked(self, x: int, y: int, is_white: bool) -> bool {
        exists|ax: int, ay: int|
            in_range(ax, ay) && #[trigger] self.with_decoy(x, y, is_white).threatens(
                ax,
                ay,
                x,
                y,
                is_white,
            )
    }

    pub open spec fn king_x(self, is_white: bool) -> int {
        if is_white {
            self.white_king_pos[0] as int
        } else {
            self.black_king_pos[0] as int
        }
    }

    pub open spec fn king_y(self, is_white: bool) -> int {
        if is_white {
            self.white_king_pos[1] as int
        } else {
            self.black_king_pos[1] as int
        }
    }

    /// The piece on `s` relocated to `d`, whatever stood on `d` discarded.
    pub open spec fn moved(self, sx: int, sy: int, dx: int, dy: int) -> BoardView {
        self.put(dx, dy, self.at(sx, sy)).put(sx, sy, None)
    }

    pub open spec fn is_king_at(self, x: int, y: int) -> bool {
        match self.at(x, y) {
            Some(p) => p.kind == PieceType::King,
            None => false,
        }
    }

    /// After moving the piece on `s` to `d`, the king of colour `is_white` would be
    /// threatened (the king being the mover itself when a king moves).
    pub open spec fn check_after(self, sx: int, sy: int, dx: int, dy: int, is_white: bool) -> bool {
        if self.is_king_at(sx, sy) {
            self.moved(sx, sy, dx, dy).attacked(dx, dy, is_white)
        } else {
            self.moved(sx, sy, dx, dy).attacked(
                self.king_x(is_white),
                self.king_y(is_white),
                is_white,
            )
        }
    }

    pub open spec fn can_castle_left(self, is_white: bool) -> bool {
        if is_white {
            self.white_can_castle_left
        } else {
            self.black_can_castle_left
        }
    }

    pub open spec fn can_castle_right(self, is_white: bool) -> bool {
        if is_white {
            self.white_can_castle_right
        } else {
            self.black_can_castle_right
        }
    }

    /// Castling toward file 0: the right is held, files 1..=3 are empty, and the
    /// king neither passes through nor lands on a threatened square (the landing
    /// square probed with the rook already on file 3).
    pub open spec fn castle_left_ok(self, is_white: bool, sx: int, sy: int, dx: int, dy: int) -> bool {
        dx == 2 && self.can_castle_left(is_white) && self.at(3, dy).is_none() && self.at(
            2,
            dy,
        ).is_none() && self.at(1, dy).is_none() && !self.check_after(sx, sy, 3, dy, is_white)
            && !self.put(0, dy, None).put(3, dy, self.at(0, dy)).check_after(
            sx,
            sy,
            dx,
            dy,
            is_white,
        )
    }

    /// Castling toward file 7, as above with files 5 and 6.
    pub open spec fn castle_right_ok(self, is_white: bool, sx: int, sy: int, dx: int, dy: int) -> bool {
        dx == 6 && self.can_castle_right(is_white) && self.at(5, dy).is_none() && self.at(
            6,
            dy,
        ).is_none() && !self.check_after(sx, sy, 5, dy, is_white) && !self.put(7, dy, None).put(
            5,
            dy,
            self.at(7, dy),
        ).check_after(sx, sy, dx, dy, is_white)
    }

    /// A king of colour `is_white` on `s` may castle onto `d`.
    pub open spec fn castle_ok(self, is_white: bool, sx: int, sy: int, dx: int, dy: int) -> bool {
        abs(sx - dx) == 2 && sy == dy && !self.attacked(sx, sy, is_white) && (self.castle_left_ok(
            is_white,
            sx,
            sy,
            dx,
            dy,
        ) || self.castle_right_ok(is_white, sx, sy, dx, dy))
    }

    /// Geometry of each kind, castling included.
    pub open spec fn space_ok(self, p: Piece, sx: int, sy: int, dx: int, dy: int) -> bool {
        self.basic_space_ok(p, sx, sy, dx, dy) || (p.kind == PieceType::King && self.castle_ok(
            p.is_white,
            sx,
            sy,
            dx,
            dy,
        ))
    }

    /// `p` standing on `s` may move onto `d`, self-check aside.
    pub open spec fn move_ok(self, p: Piece, sx: int, sy: int, dx: int, dy: int) -> bool {
        !(sx == dx && sy == dy) && !same_color(p.is_white, self.at(dx, dy)) && self.space_ok(
            p,
            sx,
            sy,
            dx,
            dy,
        )
    }

    /// `p` on `s` may move onto `d`, and doing so leaves its own king unthreatened.
    pub open spec fn safe_move(self, p: Piece, sx: int, sy: int, dx: int, dy: int) -> bool {
        self.move_ok(p, sx, sy, dx, dy) && !self.check_after(sx, sy, dx, dy, p.is_white)
    }

    /// A piece of colour `is_white` on `s` may move onto `d` without exposing its king.
    pub open spec fn legal_move(self, sx: int, sy: int, dx: int, dy: int, is_white: bool) -> bool {
        match self.at(sx, sy) {
            Some(p) => p.is_white == is_white && self.safe_move(p, sx, sy, dx, dy),
            None => false,
        }
    }

    /// Colour `is_white` has at least one legal move.
    pub open spec fn has_legal_move(self, is_white: bool) -> bool {
        exists|sx: int, sy: int, dx: int, dy: int|
            in_range(sx, sy) && in_range(dx, dy) && #[trigger] self.legal_move(
                sx,
                sy,
                dx,
                dy,
                is_white,
            )
    }

    /// Terminal state of colour `is_white`: first whether it has a legal move,
    /// then, if not, whether its king is threatened.
    pub open spec fn terminal(self, is_white: bool) -> Outcome {
        if self.has_legal_move(is_white) {
            Outcome::Ongoing
        } else if self.attacked(self.king_x(is_white), self.king_y(is_white), is_white) {
            Outcome::Checkmate(is_white)
        } else {
            Outcome::Stalemate
        }
    }
}

/// What an accepted move did.
#[derive(Clone, Copy, Debug)]
pub struct TurnReport {
    /// The piece removed from the board, if any.
    pub captured: Option<Piece>,
    /// The square whose occupant was taken: the destination, or for an
    /// en-passant capture the square behind it.
    pub capture_square: [usize; 2],
    /// For castling, the square the rook came from.
    pub castled: Option<[usize; 2]>,
    /// The moved pawn reached the last rank and awaits `upgrade_pawn`.
    pub promotion_pending: bool,
    /// Terminal state of the opponent (`Ongoing` while a promotion is pending).
    pub outcome: Outcome,
}

impl BoardView {
    /// The piece on `s` (a white pawn stands in for an empty square).
    pub open spec fn mover(self, s: [usize; 2]) -> Piece {
        match self.at(s[0] as int, s[1] as int) {
            Some(p) => p,
            None => Piece { kind: PieceType::Pawn, is_white: true },
        }
    }

    /// The move from `s` to `d` is accepted: no promotion is pending, and it is a
    /// legal move of a piece of the side to move.
    pub open spec fn accepts(self, s: [usize; 2], d: [usize; 2]) -> bool {
        self.promotion is None && self.legal_move(
            s[0] as int,
            s[1] as int,
            d[0] as int,
            d[1] as int,
            self.player,
        )
    }

    /// `p` moving onto `d` takes en passant: `d` is the opponent's live target.
    pub open spec fn is_en_passant(self, p: Piece, d: [usize; 2]) -> bool {
        p.kind == PieceType::Pawn && is_target(self.ep_against(p.is_white), d[0] as int, d[1] as int)
    }

    /// The square whose occupant `p` takes by moving onto `d`.
    pub open spec fn capture_square(self, p: Piece, d: [usize; 2]) -> [usize; 2] {
        if self.is_en_passant(p, d) {
            [d[0], (d[1] - forward(p.is_white)) as usize]
        } else {
            d
        }
    }

    /// The occupant of (x, y), if any, removed and credited to the other side.
    pub open spec fn after_capture(self, x: int, y: int) -> BoardView {
        match self.at(x, y) {
            Some(q) => if q.is_white {
                BoardView {
                    black_score: sat_add(self.black_score, points_of(q.kind)),
                    black_captured: self.black_captured.push(q),
                    ..self.put(x, y, None)
                }
            } else {
                BoardView {
                    white_score: sat_add(self.white_score, points_of(q.kind)),
                    white_captured: self.white_captured.push(q),
                    ..self.put(x, y, None)
                }
            },
            None => self,
        }
    }

    /// For a king moving two files, the square its rook comes from.
    pub open spec fn castle_rook(p: Piece, s: [usize; 2], d: [usize; 2]) -> Option<[usize; 2]> {
        if p.kind == PieceType::King && abs(d[0] - s[0]) == 2 {
            if d[0] == 2 {
                Some([0usize, d[1]])
            } else if d[0] == 6 {
                Some([7usize, d[1]])
            } else {
                None
            }
        } else {
            None
        }
    }

    /// The castling rook, for a king moving two files, set beside the king.
    pub open spec fn after_castle(self, p: Piece, s: [usize; 2], d: [usize; 2]) -> BoardView {
        let rook = Some(Piece { kind: PieceType::Rook, is_white: p.is_white });
        match BoardView::castle_rook(p, s, d) {
            Some(r) => if r[0] == 0 {
                self.put(0, d[1] as int, None).put(3, d[1] as int, rook)
            } else {
                self.put(7, d[1] as int, None).put(5, d[1] as int, rook)
            },
            None => self,
        }
    }

    /// Castling rights lost by moving `p` from `s`: both for a king, one for a
    /// rook leaving file 0 or 7.
    pub open spec fn after_rights(self, p: Piece, s: [usize; 2]) -> BoardView {
        if p.kind == PieceType::King {
            if p.is_white {
                BoardView { white_can_castle_left: false, white_can_castle_right: false, ..self }
            } else {
                BoardView { black_can_castle_left: false, black_can_castle_right: false, ..self }
            }
        } else if p.kind == PieceType::Rook && s[0] == 0 {
            if p.is_white {
                BoardView { white_can_castle_left: false, ..self }
            } else {
                BoardView { black_can_castle_left: false, ..self }
            }
        } else if p.kind == PieceType::Rook && s[0] == 7 {
            if p.is_white {
                BoardView { white_can_castle_right: false, ..self }
            } else {
                BoardView { black_can_castle_right: false, ..self }
            }
        } else {
            self
        }
    }

    /// The cached king square follows a moving king.
    pub open spec fn after_king(self, p: Piece, d: [usize; 2]) -> BoardView {
        if p.kind == PieceType::King {
            if p.is_white {
                BoardView { white_king_pos: d, ..self }
            } else {
                BoardView { black_king_pos: d, ..self }
            }
        } else {
            self
        }
    }

    /// A pawn's two-square advance sets the mover's target to the skipped square;
    /// the opponent's target lapses.
    pub open spec fn after_en_passant(self, p: Piece, s: [usize; 2], d: [usize; 2]) -> BoardView {
        let two_step = p.kind == PieceType::Pawn && abs(d[1] - s[1]) == 2;
        let skipped = Some([d[0], (d[1] - forward(p.is_white)) as usize]);
        if p.is_white {
            BoardView {
                white_en_passant: if two_step {
                    skipped
                } else {
                    self.white_en_passant
                },
                black_en_passant: None,
                ..self
            }
        } else {
            BoardView {
                black_en_passant: if two_step {
                    skipped
                } else {
                    self.black_en_passant
                },
                white_en_passant: None,
                ..self
            }
        }
    }

    /// A pawn landing on the first or last rank awaits promotion.
    pub open spec fn after_promotion_gate(self, p: Piece, d: [usize; 2]) -> BoardView {
        if p.kind == PieceType::Pawn && (d[1] == 0 || d[1] == 7) {
            BoardView { promotion: Some(d), ..self }
        } else {
            self
        }
    }

    /// The board once the move from `s` to `d` is carried out, before any
    /// terminal-state evaluation.
    pub open spec fn applied(self, s: [usize; 2], d: [usize; 2]) -> BoardView {
        let p = self.mover(s);
        let c = self.capture_square(p, d);
        self.after_capture(c[0] as int, c[1] as int).after_castle(p, s, d).after_rights(
            p,
            s,
        ).after_king(p, d).after_en_passant(p, s, d).put(d[0] as int, d[1] as int, Some(p)).put(
            s[0] as int,
            s[1] as int,
            None,
        ).after_promotion_gate(p, d)
    }

    /// The winner recorded for a terminal outcome.
    pub open spec fn with_outcome(self, o: Outcome) -> BoardView {
        match o {
            Outcome::Checkmate(loser_is_white) => BoardView {
                winner: Some(
                    if loser_is_white {
                        -1i8
                    } else {
                        1i8
                    },
                ),
                ..self
            },
            Outcome::Stalemate => BoardView { winner: Some(0i8), ..self },
            Outcome::Ongoing => self,
        }
    }

    /// The board after an accepted move: carried out, then, unless a promotion
    /// is pending, the opponent's terminal state evaluated and recorded.
    pub open spec fn after_turn(self, s: [usize; 2], d: [usize; 2]) -> BoardView {
        let a = self.applied(s, d);
        if a.promotion is Some {
            a
        } else {
            a.with_outcome(a.terminal(!self.mover(s).is_white))
        }
    }

    /// What an accepted move from `s` to `d` reports.
    pub open spec fn turn_report(self, s: [usize; 2], d: [usize; 2]) -> TurnReport {
        let p = self.mover(s);
        let c = self.capture_square(p, d);
        let a = self.applied(s, d);
        TurnReport {
            captured: self.at(c[0] as int, c[1] as int),
            capture_square: c,
            castled: BoardView::castle_rook(p, s, d),
            promotion_pending: a.promotion is Some,
            outcome: if a.promotion is Some {
                Outcome::Ongoing
            } else {
                a.terminal(!p.is_white)
            },
        }
    }

    /// A promotion is pending on `d` and a pawn stands there.
    pub open spec fn pawn_awaits_promotion(self, d: [usize; 2]) -> bool {
        is_target(self.promotion, d[0] as int, d[1] as int) && match self.at(d[0] as int, d[1] as int) {
            Some(p) => p.kind == PieceType::Pawn,
            None => false,
        }
    }

    /// The pawn awaiting promotion on `d` replaced by a piece of `kind` of its
    /// colour, the promotion settled and the move handed to the opponent.
    pub open spec fn promoted_board(self, d: [usize; 2], kind: PieceType) -> BoardView {
        let w = self.mover(d).is_white;
        BoardView {
            promotion: None,
            player: !w,
            ..self.put(d[0] as int, d[1] as int, Some(Piece { kind, is_white: w }))
        }
    }

    /// The board after promotion on `d` to `kind`, with the opponent's terminal
    /// state recorded.
    pub open spec fn promoted(self, d: [usize; 2], kind: PieceType) -> BoardView {
        let b = self.promoted_board(d, kind);
        b.with_outcome(b.terminal(!self.mover(d).is_white))
    }
}

} // verus!
