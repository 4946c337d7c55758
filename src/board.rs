use vstd::prelude::*;
use vstd::string::StringSliceAdditionalSpecFns;
use crate::chesspiece::{ChessPiece, Piece, PieceType, promotable};
use crate::input::{is_resign, move_of, parse_move, resign_word, trim_bounds, trimmed};
use crate::model::{BoardView, Outcome, TurnReport, in_range, is_target};

verus! {

/// Square (x, y) is on the board.
pub open spec fn on_board(p: [usize; 2]) -> bool {
    p[0] < 8 && p[1] < 8
}

pub open spec fn target_on_board(ep: Option<[usize; 2]>) -> bool {
    match ep {
        Some(e) => on_board(e),
        None => true,
    }
}

/// The kind standing on file `x` of a back rank in the opening position.
pub open spec fn back_rank_kind(x: int) -> PieceType {
    if x == 0 || x == 7 {
        PieceType::Rook
    } else if x == 1 || x == 6 {
        PieceType::Knight
    } else if x == 2 || x == 5 {
        PieceType::Bishop
    } else if x == 3 {
        PieceType::Queen
    } else {
        PieceType::King
    }
}

/// What square (x, y) holds in the opening position.
pub open spec fn initial_square(x: int, y: int) -> Option<Piece> {
    if y == 1 {
        Some(Piece { kind: PieceType::Pawn, is_white: true })
    } else if y == 6 {
        Some(Piece { kind: PieceType::Pawn, is_white: false })
    } else if y == 0 {
        Some(Piece { kind: back_rank_kind(x), is_white: true })
    } else if y == 7 {
        Some(Piece { kind: back_rank_kind(x), is_white: false })
    } else {
        None
    }
}

/// The 64 squares of the opening position.
pub open spec fn initial_squares() -> Seq<Option<Piece>> {
    Seq::new(64, |i: int| initial_square(i / 8, i % 8))
}

/// A chess board with the bookkeeping of a game in progress.
pub struct ChessBoard {
    pub(crate) board: Vec<Option<Piece>>,
    pub(crate) player: bool,
    pub(crate) white_score: u32,
    pub(crate) black_score: u32,
    pub(crate) winner: Option<i8>,
    pub(crate) white_captured: Vec<Piece>,
    pub(crate) black_captured: Vec<Piece>,
    pub(crate) white_en_passant: Option<[usize; 2]>,
    pub(crate) black_en_passant: Option<[usize; 2]>,
    pub(crate) white_can_castle_left: bool,
    pub(crate) white_can_castle_right: bool,
    pub(crate) black_can_castle_left: bool,
    pub(crate) black_can_castle_right: bool,
    pub(crate) white_king_pos: [usize; 2],
    pub(crate) black_king_pos: [usize; 2],
    pub(crate) promotion: Option<[usize; 2]>,
}

impl View for ChessBoard {
    type V = BoardView;

    closed spec fn view(&self) -> BoardView {
        BoardView {
            squares: self.board@,
            player: self.player,
            white_score: self.white_score,
            black_score: self.black_score,
            white_captured: self.white_captured@,
            black_captured: self.black_captured@,
            white_en_passant: self.white_en_passant,
            black_en_passant: self.black_en_passant,
            white_can_castle_left: self.white_can_castle_left,
            white_can_castle_right: self.white_can_castle_right,
            black_can_castle_left: self.black_can_castle_left,
            black_can_castle_right: self.black_can_castle_right,
            white_king_pos: self.white_king_pos,
            black_king_pos: self.black_king_pos,
            winner: self.winner,
            promotion: self.promotion,
        }
    }
}

/// The state is well formed: 64 squares, and every stored square on the board.
pub open spec fn view_wf(v: BoardView) -> bool {
    v.squares.len() == 64 && on_board(v.white_king_pos) && on_board(v.black_king_pos)
        && target_on_board(v.white_en_passant) && target_on_board(v.black_en_passant)
        && target_on_board(v.promotion)
}

/// The state at the start of a game.
pub open spec fn initial_view(v: BoardView) -> bool {
    &&& v.squares == initial_squares()
    &&& v.player
    &&& v.white_score == 0 && v.black_score == 0
    &&& v.white_captured.len() == 0 && v.black_captured.len() == 0
    &&& v.white_en_passant is None && v.black_en_passant is None
    &&& v.white_can_castle_left && v.white_can_castle_right
    &&& v.black_can_castle_left && v.black_can_castle_right
    &&& v.white_king_pos == [4usize, 0usize] && v.black_king_pos == [4usize, 7usize]
    &&& v.winner is None
    &&& v.promotion is None
}

impl ChessBoard {
    pub open spec fn wf(&self) -> bool {
        view_wf(self@)
    }

    /// The squares of the opening position, square (x, y) at index `x * 8 + y`.
    pub fn new_board() -> (r: Vec<Option<Piece>>)
        ensures
            r@ == initial_squares(),
    {
        let mut board: Vec<Option<Piece>> = Vec::new();
        let mut i: usize = 0;
        while i < 64
            invariant
                i <= 64,
                board@.len() == i,
                forall|j: int| 0 <= j < i ==> board@[j] == initial_square(j / 8, j % 8),
            decreases 64 - i,
        {
            let x: usize = i / 8;
            let y: usize = i % 8;
            let kind = if x == 0 || x == 7 {
                PieceType::Rook
            } else if x == 1 || x == 6 {
                PieceType::Knight
            } else if x == 2 || x == 5 {
                PieceType::Bishop
            } else if x == 3 {
                PieceType::Queen
            } else {
                PieceType::King
            };
            let sq = if y == 1 {
                Some(Piece { kind: PieceType::Pawn, is_white: true })
            } else if y == 6 {
                Some(Piece { kind: PieceType::Pawn, is_white: false })
            } else if y == 0 {
                Some(Piece { kind, is_white: true })
            } else if y == 7 {
                Some(Piece { kind, is_white: false })
            } else {
                None
            };
            board.push(sq);
            i = i + 1;
        }
        assert(board@ =~= initial_squares());
        board
    }

    /// A board in the opening position, white to move.
    pub fn new() -> (r: Self)
        ensures
            r.wf(),
            initial_view(r@),
    {
        ChessBoard {
            board: Self::new_board(),
            player: true,
            white_score: 0,
            black_score: 0,
            winner: None,
            white_captured: Vec::new(),
            black_captured: Vec::new(),
            white_en_passant: None,
            black_en_passant: None,
            white_can_castle_left: true,
            white_can_castle_right: true,
            black_can_castle_left: true,
            black_can_castle_right: true,
            white_king_pos: [4, 0],
            black_king_pos: [4, 7],
            promotion: None,
        }
    }

    /// Discards the game and starts a new one.
    pub fn new_game(&mut self)
        ensures
            final(self).wf(),
            initial_view(final(self)@),
    {
        *self = Self::new();
    }

    /// What square `pos` holds.
    pub fn get(&self, pos: [usize; 2]) -> (r: Option<Piece>)
        requires
            self.wf(),
            on_board(pos),
        ensures
            r == self@.at(pos[0] as int, pos[1] as int),
    {
        self.board[pos[0] * 8 + pos[1]]
    }

    /// Places `piece` (or nothing) on square `pos`.
    pub fn set(&mut self, pos: [usize; 2], piece: Option<Piece>)
        requires
            old(self).wf(),
            on_board(pos),
        ensures
            final(self).wf(),
            final(self)@ == old(self)@.put(pos[0] as int, pos[1] as int, piece),
    {
        self.board.set(pos[0] * 8 + pos[1], piece);
    }

    /// The squares as eight files of eight ranks: `r[x][y]` is square (x, y).
    pub fn get_board(&self) -> (r: Vec<Vec<Option<Piece>>>)
        requires
            self.wf(),
        ensures
            r@.len() == 8,
            forall|x: int| 0 <= x < 8 ==> (#[trigger] r@[x])@.len() == 8,
            forall|x: int, y: int| in_range(x, y) ==> (#[trigger] r@[x]@[y]) == self@.at(x, y),
    {
        let mut files: Vec<Vec<Option<Piece>>> = Vec::new();
        let mut x: usize = 0;
        while x < 8
            invariant
                x <= 8,
                self.wf(),
                files@.len() == x,
                forall|i: int| 0 <= i < x ==> (#[trigger] files@[i])@.len() == 8,
                forall|i: int, j: int|
                    0 <= i < x && 0 <= j < 8 ==> (#[trigger] files@[i]@[j]) == self@.at(i, j),
            decreases 8 - x,
        {
            let mut file: Vec<Option<Piece>> = Vec::new();
            let mut y: usize = 0;
            while y < 8
                invariant
                    x < 8,
                    y <= 8,
                    self.wf(),
                    file@.len() == y,
                    forall|j: int| 0 <= j < y ==> (#[trigger] file@[j]) == self@.at(x as int, j),
                decreases 8 - y,
            {
                file.push(self.board[x * 8 + y]);
                y = y + 1;
            }
            files.push(file);
            x = x + 1;
        }
        files
    }

    pub fn get_player(&self) -> (r: bool)
        ensures
            r == self@.player,
    {
        self.player
    }

    pub fn set_player(&mut self, player: bool)
        requires
            old(self).wf(),
        ensures
            final(self).wf(),
            final(self)@ == (BoardView { player, ..old(self)@ }),
    {
        self.player = player;
    }

    /// Hands the move to the other side.
    pub fn switch_player(&mut self)
        requires
            old(self).wf(),
        ensures
            final(self).wf(),
            final(self)@ == (BoardView { player: !old(self)@.player, ..old(self)@ }),
    {
        self.player = !self.player;
    }

    pub fn get_winner(&self) -> (r: Option<i8>)
        ensures
            r == self@.winner,
    {
        self.winner
    }

    /// Points won by white and by black.
    pub fn get_score(&self) -> (r: [u32; 2])
        ensures
            r[0] == self@.white_score,
            r[1] == self@.black_score,
    {
        [self.white_score, self.black_score]
    }

    /// Pieces captured by white, in capture order.
    pub fn get_white_captured(&self) -> (r: &Vec<Piece>)
        ensures
            r@ == self@.white_captured,
    {
        &self.white_captured
    }

    /// Pieces captured by black, in capture order.
    pub fn get_black_captured(&self) -> (r: &Vec<Piece>)
        ensures
            r@ == self@.black_captured,
    {
        &self.black_captured
    }

    /// Square of a pawn that awaits promotion, if any.
    pub fn get_promotion(&self) -> (r: Option<[usize; 2]>)
        ensures
            r == self@.promotion,
    {
        self.promotion
    }

    /// Sets both castling rights of one colour, as when a saved game is restored.
    pub fn set_castle_rights(&mut self, is_white: bool, left: bool, right: bool)
        requires
            old(self).wf(),
        ensures
            final(self).wf(),
            final(self)@ == if is_white {
                BoardView {
                    white_can_castle_left: left,
                    white_can_castle_right: right,
                    ..old(self)@
                }
            } else {
                BoardView {
                    black_can_castle_left: left,
                    black_can_castle_right: right,
                    ..old(self)@
                }
            },
    {
        if is_white {
            self.white_can_castle_left = left;
            self.white_can_castle_right = right;
        } else {
            self.black_can_castle_left = left;
            self.black_can_castle_right = right;
        }
    }

    /// Sets the scores and the captured pieces of both sides, as when a saved
    /// game is restored.
    pub fn set_tally(
        &mut self,
        white_score: u32,
        black_score: u32,
        white_captured: Vec<Piece>,
        black_captured: Vec<Piece>,
    )
        requires
            old(self).wf(),
        ensures
            final(self).wf(),
            final(self)@ == (BoardView {
                white_score,
                black_score,
                white_captured: white_captured@,
                black_captured: black_captured@,
                ..old(self)@
            }),
    {
        self.white_score = white_score;
        self.black_score = black_score;
        self.white_captured = white_captured;
        self.black_captured = black_captured;
    }

    pub fn get_white_king_pos(&self) -> (r: [usize; 2])
        ensures
            r == self@.white_king_pos,
    {
        self.white_king_pos
    }

    pub fn get_black_king_pos(&self) -> (r: [usize; 2])
        ensures
            r == self@.black_king_pos,
    {
        self.black_king_pos
    }

    pub fn set_white_king_pos(&mut self, pos: [usize; 2])
        requires
            old(self).wf(),
            on_board(pos),
        ensures
            final(self).wf(),
            final(self)@ == (BoardView { white_king_pos: pos, ..old(self)@ }),
    {
        self.white_king_pos = pos;
    }

    pub fn set_black_king_pos(&mut self, pos: [usize; 2])
        requires
            old(self).wf(),
            on_board(pos),
        ensures
            final(self).wf(),
            final(self)@ == (BoardView { black_king_pos: pos, ..old(self)@ }),
    {
        self.black_king_pos = pos;
    }

    pub fn get_white_en_passant(&self) -> (r: Option<[usize; 2]>)
        ensures
            r == self@.white_en_passant,
    {
        self.white_en_passant
    }

    pub fn get_black_en_passant(&self) -> (r: Option<[usize; 2]>)
        ensures
            r == self@.black_en_passant,
    {
        self.black_en_passant
    }

    pub fn set_white_en_passant(&mut self, space: Option<[usize; 2]>)
        requires
            old(self).wf(),
            target_on_board(space),
        ensures
            final(self).wf(),
            final(self)@ == (BoardView { white_en_passant: space, ..old(self)@ }),
    {
        self.white_en_passant = space;
    }

    pub fn set_black_en_passant(&mut self, space: Option<[usize; 2]>)
        requires
            old(self).wf(),
            target_on_board(space),
        ensures
            final(self).wf(),
            final(self)@ == (BoardView { black_en_passant: space, ..old(self)@ }),
    {
        self.black_en_passant = space;
    }

    pub fn get_white_can_castle_left(&self) -> (r: bool)
        ensures
            r == self@.white_can_castle_left,
    {
        self.white_can_castle_left
    }

    pub fn get_white_can_castle_right(&self) -> (r: bool)
        ensures
            r == self@.white_can_castle_right,
    {
        self.white_can_castle_right
    }

    pub fn get_black_can_castle_left(&self) -> (r: bool)
        ensures
            r == self@.black_can_castle_left,
    {
        self.black_can_castle_left
    }

    pub fn get_black_can_castle_right(&self) -> (r: bool)
        ensures
            r == self@.black_can_castle_right,
    {
        self.black_can_castle_right
    }
}

impl ChessBoard {
    /// Removes the piece on `space`, if any, crediting its points and the piece
    /// itself to the other side. Returns the piece removed.
    pub fn capture(&mut self, space: [usize; 2]) -> (r: Option<Piece>)
        requires
            old(self).wf(),
            on_board(space),
        ensures
            final(self).wf(),
            r == old(self)@.at(space[0] as int, space[1] as int),
            final(self)@ == old(self)@.after_capture(space[0] as int, space[1] as int),
    {
        match self.get(space) {
            Some(piece) => {
                self.set(space, None);
                if piece.is_white {
                    self.black_score = self.black_score.saturating_add(piece.get_points() as u32);
                    self.black_captured.push(piece);
                } else {
                    self.white_score = self.white_score.saturating_add(piece.get_points() as u32);
                    self.white_captured.push(piece);
                }
                Some(piece)
            },
            None => None,
        }
    }

    /// Records the winner that a terminal outcome implies.
    fn record_outcome(&mut self, outcome: Outcome)
        requires
            old(self).wf(),
        ensures
            final(self).wf(),
            final(self)@ == old(self)@.with_outcome(outcome),
    {
        match outcome {
            Outcome::Checkmate(loser_is_white) => {
                self.winner = Some(
                    if loser_is_white {
                        -1
                    } else {
                        1
                    },
                );
            },
            Outcome::Stalemate => {
                self.winner = Some(0);
            },
            Outcome::Ongoing => {},
        }
    }

    /// For a king moving two files, puts a rook of its colour beside it and
    /// empties the corner it came from. Returns that corner.
    fn move_castle_rook(&mut self, piece: Piece, start: [usize; 2], dest: [usize; 2]) -> (r: Option<
        [usize; 2],
    >)
        requires
            old(self).wf(),
            on_board(start),
            on_board(dest),
        ensures
            final(self).wf(),
            r == BoardView::castle_rook(piece, start, dest),
            final(self)@ == old(self)@.after_castle(piece, start, dest),
    {
        let mut castled: Option<[usize; 2]> = None;
        if piece.kind == PieceType::King && (start[0] == dest[0] + 2 || dest[0] == start[0] + 2) {
            let rook = Some(Piece { kind: PieceType::Rook, is_white: piece.is_white });
            if dest[0] == 2 {
                self.set([0, dest[1]], None);
                self.set([3, dest[1]], rook);
                castled = Some([0, dest[1]]);
            } else if dest[0] == 6 {
                self.set([7, dest[1]], None);
                self.set([5, dest[1]], rook);
                castled = Some([7, dest[1]]);
            }
        }
        castled
    }

    /// Castling rights lost by moving `piece` from `start`.
    fn revoke_rights(&mut self, piece: Piece, start: [usize; 2])
        requires
            old(self).wf(),
        ensures
            final(self).wf(),
            final(self)@ == old(self)@.after_rights(piece, start),
    {
        if piece.kind == PieceType::King {
            if piece.is_white {
                self.white_can_castle_left = false;
                self.white_can_castle_right = false;
            } else {
                self.black_can_castle_left = false;
                self.black_can_castle_right = false;
            }
        } else if piece.kind == PieceType::Rook && start[0] == 0 {
            if piece.is_white {
                self.white_can_castle_left = false;
            } else {
                self.black_can_castle_left = false;
            }
        } else if piece.kind == PieceType::Rook && start[0] == 7 {
            if piece.is_white {
                self.white_can_castle_right = false;
            } else {
                self.black_can_castle_right = false;
            }
        }
    }

    /// The cached king square follows a moving king.
    fn follow_king(&mut self, piece: Piece, dest: [usize; 2])
        requires
            old(self).wf(),
            on_board(dest),
        ensures
            final(self).wf(),
            final(self)@ == old(self)@.after_king(piece, dest),
    {
        if piece.kind == PieceType::King {
            if piece.is_white {
                self.white_king_pos = dest;
            } else {
                self.black_king_pos = dest;
            }
        }
    }

    /// A two-square pawn advance sets the mover's en-passant target to the
    /// skipped square; the opponent's target lapses.
    fn update_en_passant(&mut self, piece: Piece, start: [usize; 2], dest: [usize; 2])
        requires
            old(self).wf(),
            on_board(start),
            on_board(dest),
            piece.kind == PieceType::Pawn && (dest[1] == start[1] + 2 || start[1] == dest[1] + 2)
                ==> (if piece.is_white {
                dest[1] >= 1
            } else {
                dest[1] < 7
            }),
        ensures
            final(self).wf(),
            final(self)@ == old(self)@.after_en_passant(piece, start, dest),
    {
        if piece.kind == PieceType::Pawn && (dest[1] == start[1] + 2 || start[1] == dest[1] + 2) {
            let skipped: [usize; 2] = if piece.is_white {
                [dest[0], dest[1] - 1]
            } else {
                [dest[0], dest[1] + 1]
            };
            if piece.is_white {
                self.white_en_passant = Some(skipped);
            } else {
                self.black_en_passant = Some(skipped);
            }
        }
        if piece.is_white {
            self.black_en_passant = None;
        } else {
            self.white_en_passant = None;
        }
    }

    /// Plays the move from `start` to `dest` for the side to move, if it is
    /// legal: no promotion is pending, `start` holds a piece of the side to move,
    /// the piece may move onto `dest`, and its own king is not left threatened.
    /// A rejected move changes nothing. An accepted one captures (en passant
    /// included), moves the rook when castling, revokes castling rights, keeps
    /// the en-passant targets and the cached king square, relocates the piece,
    /// and then either waits for a promotion or evaluates and records the
    /// opponent's terminal state. The side to move is not switched here.
    pub fn take_turn(&mut self, start: [usize; 2], dest: [usize; 2]) -> (r: Option<TurnReport>)
        requires
            old(self).wf(),
            on_board(start),
            on_board(dest),
        ensures
            final(self).wf(),
            !old(self)@.accepts(start, dest) ==> r is None && final(self)@ == old(self)@,
            old(self)@.accepts(start, dest) ==> r == Some(old(self)@.turn_report(start, dest))
                && final(self)@ == old(self)@.after_turn(start, dest),
    {
        let ghost v0 = self@;
        if self.promotion.is_some() {
            return None;
        }
        let piece = match self.get(start) {
            Some(p) => p,
            None => {
                return None;
            },
        };
        if piece.is_white != self.player {
            return None;
        }
        if self.test_check(start, dest, piece.is_white) {
            return None;
        }
        if !piece.test_move(start, dest, self) {
            return None;
        }
        assert(v0.accepts(start, dest));
        assert(piece == v0.mover(start));
        // capture, en passant included
        let target = if piece.is_white {
            self.black_en_passant
        } else {
            self.white_en_passant
        };
        let en_passant = piece.kind == PieceType::Pawn && match target {
            Some(e) => e[0] == dest[0] && e[1] == dest[1],
            None => false,
        };
        let cap: [usize; 2] = if en_passant {
            if piece.is_white {
                [dest[0], dest[1] - 1]
            } else {
                [dest[0], dest[1] + 1]
            }
        } else {
            dest
        };
        assert(cap == v0.capture_square(piece, dest));
        let captured = self.capture(cap);
        let ghost captured_view = self@;
        let castled = self.move_castle_rook(piece, start, dest);
        self.revoke_rights(piece, start);
        self.follow_king(piece, dest);
        self.update_en_passant(piece, start, dest);
        assert(self@ == captured_view.after_castle(piece, start, dest).after_rights(piece, start).after_king(
            piece,
            dest,
        ).after_en_passant(piece, start, dest));
        // relocate
        self.set(dest, Some(piece));
        self.set(start, None);
        let ghost relocated = self@;
        // promotion gate
        let pending = piece.kind == PieceType::Pawn && (dest[1] == 0 || dest[1] == 7);
        if pending {
            self.promotion = Some(dest);
        }
        assert(self@ == relocated.after_promotion_gate(piece, dest));
        assert(self@ == v0.applied(start, dest));
        let outcome = if pending {
            Outcome::Ongoing
        } else {
            let o = self.evaluate_terminal(!piece.is_white);
            self.record_outcome(o);
            o
        };
        Some(TurnReport { captured, capture_square: cap, castled, promotion_pending: pending, outcome })
    }

    /// Plays a turn: `take_turn`, then, once no promotion is pending, the move
    /// passes to the other side.
    pub fn next_turn(&mut self, start: [usize; 2], dest: [usize; 2]) -> (r: Option<TurnReport>)
        requires
            old(self).wf(),
            on_board(start),
            on_board(dest),
        ensures
            final(self).wf(),
            !old(self)@.accepts(start, dest) ==> r is None && final(self)@ == old(self)@,
            old(self)@.accepts(start, dest) ==> r == Some(old(self)@.turn_report(start, dest))
                && final(self)@ == if old(self)@.turn_report(start, dest).promotion_pending {
                old(self)@.after_turn(start, dest)
            } else {
                BoardView { player: !old(self)@.player, ..old(self)@.after_turn(start, dest) }
            },
    {
        let report = self.take_turn(start, dest);
        if let Some(rep) = report {
            if !rep.promotion_pending {
                self.switch_player();
            }
        }
        report
    }

    /// Settles the pending promotion on `dest` by replacing the pawn with a piece
    /// of `piece_type` (queen, rook, bishop or knight) of the same colour, then
    /// evaluates and records the opponent's terminal state and hands the move to
    /// the opponent. Refused, with nothing changed, when no promotion is pending
    /// on `dest`, no pawn stands there, or the kind is not one a pawn may become.
    pub fn upgrade_pawn(&mut self, dest: [usize; 2], piece_type: PieceType) -> (r: Option<Outcome>)
        requires
            old(self).wf(),
        ensures
            final(self).wf(),
            !(old(self)@.pawn_awaits_promotion(dest) && promotable(piece_type)) ==> r is None
                && final(self)@ == old(self)@,
            old(self)@.pawn_awaits_promotion(dest) && promotable(piece_type) ==> final(self)@ == old(
                self,
            )@.promoted(dest, piece_type) && r == Some(
                old(self)@.promoted_board(dest, piece_type).terminal(
                    !old(self)@.mover(dest).is_white,
                ),
            ),
    {
        let ghost v0 = self@;
        let pending = match self.promotion {
            Some(p) => p[0] == dest[0] && p[1] == dest[1],
            None => false,
        };
        if !pending {
            return None;
        }
        if !(piece_type == PieceType::Queen || piece_type == PieceType::Rook || piece_type
            == PieceType::Bishop || piece_type == PieceType::Knight) {
            return None;
        }
        let (is_pawn, is_white) = match self.get(dest) {
            Some(p) => (p.kind == PieceType::Pawn, p.is_white),
            None => (false, true),
        };
        if !is_pawn {
            return None;
        }
        assert(is_white == v0.mover(dest).is_white);
        self.set(dest, Some(Piece { kind: piece_type, is_white }));
        self.promotion = None;
        self.player = !is_white;
        let o = self.evaluate_terminal(!is_white);
        self.record_outcome(o);
        Some(o)
    }
}

impl ChessBoard {
    /// Reads a line typed by the side to move, once whitespace (any Unicode
    /// White_Space character) is cut from both ends. The word `resign` records
    /// the opponent as winner and yields no move; otherwise the line is read as
    /// a move such as `e2 e4`.
    pub fn parse_input(&mut self, input: &str) -> (r: Option<([usize; 2], [usize; 2])>)
        requires
            old(self).wf(),
        ensures
            final(self).wf(),
            trimmed(input.spec_bytes()) == resign_word() ==> r is None && final(self)@ == (
            BoardView {
                winner: Some(
                    if old(self)@.player {
                        -1i8
                    } else {
                        1i8
                    },
                ),
                ..old(self)@
            }),
            trimmed(input.spec_bytes()) != resign_word() ==> r == move_of(
                trimmed(input.spec_bytes()),
            ) && final(self)@ == old(self)@,
    {
        let bytes = input.as_bytes();
        let (lo, hi) = trim_bounds(bytes);
        if is_resign(bytes, lo, hi) {
            self.winner = Some(
                if self.player {
                    -1
                } else {
                    1
                },
            );
            return None;
        }
        parse_move(bytes, lo, hi)
    }
}

} // verus!
