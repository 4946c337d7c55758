use vstd::prelude::*;
use crate::chesspiece::{Piece, PieceType};
use crate::board::{on_board, view_wf};
use crate::model::{BoardView, Outcome, abs, forward, in_range, is_target, same_color};

verus! {

/// A move never stays in place, and never lands on a piece of the mover's own
/// colour, whatever the kind of the piece.
pub proof fn lemma_move_prefilter(v: BoardView, p: Piece, sx: int, sy: int, dx: int, dy: int)
    ensures
        !v.move_ok(p, sx, sy, sx, sy),
        same_color(p.is_white, v.at(dx, dy)) ==> !v.move_ok(p, sx, sy, dx, dy),
{
}

/// A king's two-file move is only allowed as castling, and castling requires
/// that the king is not threatened where it stands, that the squares between
/// king and rook are empty, that the square the king passes through is not
/// threatened, and that the square it lands on is not threatened with the rook
/// beside it; the castling right alone never suffices.
pub proof fn lemma_castle_requires_safety(
    v: BoardView,
    is_white: bool,
    sx: int,
    sy: int,
    dx: int,
    dy: int,
)
    requires
        v.move_ok(Piece { kind: PieceType::King, is_white }, sx, sy, dx, dy),
        abs(sx - dx) == 2,
    ensures
        sy == dy,
        !v.attacked(sx, sy, is_white),
        dx == 2 ==> {
            &&& v.can_castle_left(is_white)
            &&& v.at(1, dy).is_none() && v.at(2, dy).is_none() && v.at(3, dy).is_none()
            &&& !v.check_after(sx, sy, 3, dy, is_white)
            &&& !v.put(0, dy, None).put(3, dy, v.at(0, dy)).check_after(sx, sy, dx, dy, is_white)
        },
        dx == 6 ==> {
            &&& v.can_castle_right(is_white)
            &&& v.at(5, dy).is_none() && v.at(6, dy).is_none()
            &&& !v.check_after(sx, sy, 5, dy, is_white)
            &&& !v.put(7, dy, None).put(5, dy, v.at(7, dy)).check_after(sx, sy, dx, dy, is_white)
        },
        dx == 2 || dx == 6,
{
}

/// A two-square pawn advance sets the mover's en-passant target to the skipped
/// square, and any accepted move clears the target the opponent had set, whether
/// or not it was used: a target lives for exactly one reply.
pub proof fn lemma_en_passant_window(v: BoardView, s: [usize; 2], d: [usize; 2])
    requires
        v.accepts(s, d),
    ensures
        v.mover(s).kind == PieceType::Pawn && abs(d[1] - s[1]) == 2 ==> v.after_turn(
            s,
            d,
        ).white_en_passant == (if v.player {
            Some([d[0], (d[1] - 1) as usize])
        } else {
            None
        }) && v.after_turn(s, d).black_en_passant == (if v.player {
            None
        } else {
            Some([d[0], (d[1] + 1) as usize])
        }),
        v.player ==> v.after_turn(s, d).black_en_passant is None,
        !v.player ==> v.after_turn(s, d).white_en_passant is None,
{
}

/// Only the opponent's target opens an en-passant capture: a pawn stepping
/// diagonally onto an empty square may do so exactly when that square is the
/// target the other side set.
pub proof fn lemma_en_passant_only_for_opponent(
    v: BoardView,
    is_white: bool,
    sx: int,
    sy: int,
    dx: int,
    dy: int,
)
    requires
        v.at(dx, dy).is_none(),
        abs(sx - dx) == 1,
        dy - sy == (if is_white {
            1int
        } else {
            -1int
        }),
    ensures
        v.move_ok(Piece { kind: PieceType::Pawn, is_white }, sx, sy, dx, dy) <==> is_target(
            if is_white {
                v.black_en_passant
            } else {
                v.white_en_passant
            },
            dx,
            dy,
        ),
{
}

/// A pawn reaching the last rank halts the game: the pawn stands there awaiting
/// its new kind, the promotion is pending, no
/// winner is recorded, the move reports no terminal state, and no further move
/// is accepted until the promotion is settled; settling it records the
/// opponent's terminal state and clears the pending promotion.
pub proof fn lemma_promotion_gate(v: BoardView, s: [usize; 2], d: [usize; 2], kind: PieceType)
    requires
        view_wf(v),
        on_board(s),
        on_board(d),
        v.accepts(s, d),
        v.mover(s).kind == PieceType::Pawn,
        d[1] == 0 || d[1] == 7,
    ensures
        v.after_turn(s, d).promotion == Some(d),
        v.after_turn(s, d).at(d[0] as int, d[1] as int) == Some(v.mover(s)),
        v.after_turn(s, d).pawn_awaits_promotion(d),
        v.after_turn(s, d).winner == v.winner,
        v.turn_report(s, d).promotion_pending,
        v.turn_report(s, d).outcome == Outcome::Ongoing,
        forall|s2: [usize; 2], d2: [usize; 2]| !#[trigger] v.after_turn(s, d).accepts(s2, d2),
        v.after_turn(s, d).promoted(d, kind).promotion is None,
        v.after_turn(s, d).promoted(d, kind) == v.after_turn(s, d).promoted_board(
            d,
            kind,
        ).with_outcome(
            v.after_turn(s, d).promoted_board(d, kind).terminal(!v.mover(s).is_white),
        ),
{
    let a = v.after_turn(s, d);
    assert(a.at(d[0] as int, d[1] as int) == Some(v.mover(s)));
}

/// Castling rights only ever go from held to lost: neither an accepted move nor
/// a promotion grants one back.
pub proof fn lemma_castling_rights_monotone(
    v: BoardView,
    s: [usize; 2],
    d: [usize; 2],
    kind: PieceType,
)
    requires
        v.accepts(s, d),
    ensures
        v.after_turn(s, d).white_can_castle_left ==> v.white_can_castle_left,
        v.after_turn(s, d).white_can_castle_right ==> v.white_can_castle_right,
        v.after_turn(s, d).black_can_castle_left ==> v.black_can_castle_left,
        v.after_turn(s, d).black_can_castle_right ==> v.black_can_castle_right,
        v.promoted(d, kind).white_can_castle_left == v.white_can_castle_left,
        v.promoted(d, kind).white_can_castle_right == v.white_can_castle_right,
        v.promoted(d, kind).black_can_castle_left == v.black_can_castle_left,
        v.promoted(d, kind).black_can_castle_right == v.black_can_castle_right,
{
}

/// Each colour has exactly one king, standing on the square the board records
/// for it.
pub open spec fn kings_cached(v: BoardView) -> bool {
    &&& v.at(v.king_x(true), v.king_y(true)) == Some(Piece { kind: PieceType::King, is_white: true })
    &&& v.at(v.king_x(false), v.king_y(false)) == Some(
        Piece { kind: PieceType::King, is_white: false },
    )
    &&& forall|x: int, y: int|
        in_range(x, y) && #[trigger] v.at(x, y) == Some(
            Piece { kind: PieceType::King, is_white: true },
        ) ==> x == v.king_x(true) && y == v.king_y(true)
    &&& forall|x: int, y: int|
        in_range(x, y) && #[trigger] v.at(x, y) == Some(
            Piece { kind: PieceType::King, is_white: false },
        ) ==> x == v.king_x(false) && y == v.king_y(false)
}

/// The en-passant target the side to move may capture onto has the enemy pawn
/// behind it, as a two-square advance leaves it.
pub open spec fn en_passant_sound(v: BoardView) -> bool {
    match v.ep_against(v.player) {
        Some(e) => v.at(e[0] as int, e[1] - forward(v.player)) == Some(
            Piece { kind: PieceType::Pawn, is_white: !v.player },
        ),
        None => true,
    }
}

/// A move that is allowed never lands on the enemy king unless that king is
/// already threatened.
proof fn lemma_no_king_capture(v: BoardView, p: Piece, sx: int, sy: int, dx: int, dy: int)
    requires
        v.at(sx, sy) == Some(p),
        in_range(sx, sy),
        v.move_ok(p, sx, sy, dx, dy),
        v.at(dx, dy) == Some(Piece { kind: PieceType::King, is_white: !p.is_white }),
    ensures
        v.attacked(dx, dy, !p.is_white),
{
    assert(v.with_decoy(dx, dy, !p.is_white) == v);
    assert(v.basic_move_ok(p, sx, sy, dx, dy));
    assert(v.threatens(sx, sy, dx, dy, !p.is_white));
}

/// Castling never empties a corner that holds the enemy king: the king would
/// land next to it.
proof fn lemma_castle_corner(v: BoardView, is_white: bool, sx: int, sy: int, dx: int, dy: int)
    requires
        view_wf(v),
        in_range(sx, sy),
        in_range(dx, dy),
        v.at(sx, sy) == Some(Piece { kind: PieceType::King, is_white }),
        v.castle_ok(is_white, sx, sy, dx, dy),
    ensures
        dx == 2 ==> v.at(0, dy) != Some(Piece { kind: PieceType::King, is_white: !is_white }),
        dx == 6 ==> v.at(7, dy) != Some(Piece { kind: PieceType::King, is_white: !is_white }),
{
    let e = Piece { kind: PieceType::King, is_white: !is_white };
    if dx == 2 && v.at(0, dy) == Some(e) {
        let u = v.put(0, dy, None).put(3, dy, v.at(0, dy));
        assert(u.is_king_at(sx, sy));
        let m = u.moved(sx, sy, dx, dy);
        assert(m.at(3, dy) == Some(e));
        assert(m.with_decoy(dx, dy, is_white) == m);
        assert(m.threatens(3, dy, dx, dy, is_white));
        assert(m.attacked(dx, dy, is_white));
    }
    if dx == 6 && v.at(7, dy) == Some(e) {
        let u = v.put(7, dy, None).put(5, dy, v.at(7, dy));
        assert(u.is_king_at(sx, sy));
        let m = u.moved(sx, sy, dx, dy);
        assert(m.at(5, dy) == Some(e));
        assert(m.with_decoy(dx, dy, is_white) == m);
        assert(m.threatens(5, dy, dx, dy, is_white));
        assert(m.attacked(dx, dy, is_white));
    }
}

/// Where the squares and king records of a carried-out move come from.
proof fn lemma_applied_shape(v: BoardView, s: [usize; 2], d: [usize; 2])
    requires
        view_wf(v),
        on_board(s),
        on_board(d),
        !(s[0] == d[0] && s[1] == d[1]),
        on_board(v.capture_square(v.mover(s), d)),
    ensures
        ({
            let p = v.mover(s);
            let cs = v.capture_square(p, d);
            let b2 = v.after_capture(cs[0] as int, cs[1] as int).after_castle(p, s, d);
            let a = v.applied(s, d);
            &&& a.at(d[0] as int, d[1] as int) == Some(p)
            &&& a.at(s[0] as int, s[1] as int).is_none()
            &&& forall|x: int, y: int|
                in_range(x, y) && !(x == s[0] && y == s[1]) && !(x == d[0] && y == d[1])
                    ==> #[trigger] a.at(x, y) == b2.at(x, y)
            &&& a.king_x(!p.is_white) == v.king_x(!p.is_white)
            &&& a.king_y(!p.is_white) == v.king_y(!p.is_white)
            &&& p.kind == PieceType::King ==> a.king_x(p.is_white) == d[0] && a.king_y(p.is_white)
                == d[1]
            &&& p.kind != PieceType::King ==> a.king_x(p.is_white) == v.king_x(p.is_white)
                && a.king_y(p.is_white) == v.king_y(p.is_white)
        }),
{
    let p = v.mover(s);
    let cs = v.capture_square(p, d);
    let b1 = v.after_capture(cs[0] as int, cs[1] as int);
    let b2 = b1.after_castle(p, s, d);
    assert(b1.squares.len() == 64);
    assert(b2.squares.len() == 64);
    let b5 = b2.after_rights(p, s).after_king(p, d).after_en_passant(p, s, d);
    assert(b5.squares == b2.squares);
    let b6 = b5.put(d[0] as int, d[1] as int, Some(p)).put(s[0] as int, s[1] as int, None);
    let a = v.applied(s, d);
    assert(a == b6.after_promotion_gate(p, d));
    assert(a.squares == b6.squares);
    assert(a.white_king_pos == b5.white_king_pos && a.black_king_pos == b5.black_king_pos);
    assert(b2.white_king_pos == v.white_king_pos && b2.black_king_pos == v.black_king_pos);
}

/// A capture empties at most the capture square, and castling changes only the
/// four squares of its rank between which the rook moves.
proof fn lemma_capture_castle_shape(v: BoardView, s: [usize; 2], d: [usize; 2], x: int, y: int)
    requires
        view_wf(v),
        on_board(s),
        on_board(d),
        on_board(v.capture_square(v.mover(s), d)),
        in_range(x, y),
    ensures
        ({
            let p = v.mover(s);
            let cs = v.capture_square(p, d);
            let b1 = v.after_capture(cs[0] as int, cs[1] as int);
            let b2 = b1.after_castle(p, s, d);
            &&& b1.at(x, y) == v.at(x, y) || (x == cs[0] && y == cs[1] && b1.at(x, y).is_none())
            &&& b2.at(x, y) == b1.at(x, y) || (p.kind == PieceType::King && abs(d[0] - s[0]) == 2
                && y == d[1] && ((d[0] == 2 && (x == 0 || x == 3)) || (d[0] == 6 && (x == 7 || x
                == 5))) && (b2.at(x, y).is_none() || b2.at(x, y) == Some(
                Piece { kind: PieceType::Rook, is_white: p.is_white },
            )))
        }),
{
    let p = v.mover(s);
    let cs = v.capture_square(p, d);
    let b1 = v.after_capture(cs[0] as int, cs[1] as int);
    assert(b1.squares.len() == 64);
    let b2 = b1.after_castle(p, s, d);
    if p.kind == PieceType::King && abs(d[0] - s[0]) == 2 {
        if d[0] == 2 {
            assert(BoardView::castle_rook(p, s, d) == Some([0usize, d[1]]));
            assert([0usize, d[1]][0] == 0);
        } else if d[0] == 6 {
            assert(BoardView::castle_rook(p, s, d) == Some([7usize, d[1]]));
            assert([7usize, d[1]][0] == 7);
        }
    }
}

/// An accepted move keeps exactly one king of each colour on its recorded
/// square, provided the side that is not moving is not in check (as after any
/// legal move) and the en-passant target has its pawn behind it.
#[verifier::rlimit(50)]
pub proof fn lemma_king_squares_kept(v: BoardView, s: [usize; 2], d: [usize; 2])
    requires
        view_wf(v),
        on_board(s),
        on_board(d),
        v.accepts(s, d),
        kings_cached(v),
        en_passant_sound(v),
        !v.attacked(v.king_x(!v.player), v.king_y(!v.player), !v.player),
    ensures
        kings_cached(v.after_turn(s, d)),
{
    let c = v.player;
    let p = v.mover(s);
    let (sx, sy, dx, dy) = (s[0] as int, s[1] as int, d[0] as int, d[1] as int);
    let ek = Piece { kind: PieceType::King, is_white: !c };
    let ok = Piece { kind: PieceType::King, is_white: c };
    assert(v.at(sx, sy) == Some(p) && p.is_white == c);
    // the destination never holds the enemy king
    if v.at(dx, dy) == Some(ek) {
        lemma_no_king_capture(v, p, sx, sy, dx, dy);
        assert(dx == v.king_x(!c) && dy == v.king_y(!c));
    }
    assert(v.at(dx, dy) != Some(ek));
    assert(v.at(dx, dy) != Some(ok));
    let castling = p.kind == PieceType::King && abs(dx - sx) == 2;
    if castling {
        assert(!v.basic_space_ok(p, sx, sy, dx, dy));
        assert(v.castle_ok(c, sx, sy, dx, dy));
        lemma_castle_corner(v, c, sx, sy, dx, dy);
    }
    if p.kind == PieceType::King {
        assert(sx == v.king_x(c) && sy == v.king_y(c));
    }
    let cs = v.capture_square(p, d);
    if v.is_en_passant(p, d) {
        assert(v.pawn_ok(c, sx, sy, dx, dy));
    }
    assert(on_board(cs));
    assert(v.at(cs[0] as int, cs[1] as int) != Some(ek));
    assert(v.at(cs[0] as int, cs[1] as int) != Some(ok));
    let b1 = v.after_capture(cs[0] as int, cs[1] as int);
    let b2 = b1.after_castle(p, s, d);
    let a = v.applied(s, d);
    lemma_applied_shape(v, s, d);
    // every square but the two of the move keeps its king, and gains none
    assert forall|x: int, y: int|
        in_range(x, y) && !(x == sx && y == sy) && !(x == dx && y == dy) && (#[trigger] a.at(
            x,
            y,
        ) == Some(ok) || a.at(x, y) == Some(ek) || v.at(x, y) == Some(ok) || v.at(x, y) == Some(
            ek,
        )) implies a.at(x, y) == v.at(x, y) by {
        lemma_capture_castle_shape(v, s, d, x, y);
        assert(a.at(x, y) == b2.at(x, y));
        if b2.at(x, y) != b1.at(x, y) {
            assert(v.castle_ok(c, sx, sy, dx, dy));
            if v.at(x, y) == Some(ok) {
                assert(x == v.king_x(c) && y == v.king_y(c));
            }
        }
    }
    assert(a.at(a.king_x(!c), a.king_y(!c)) == Some(ek));
    assert(a.at(a.king_x(c), a.king_y(c)) == Some(ok));
    assert(kings_cached(a));
    let t = v.after_turn(s, d);
    assert(t.squares == a.squares);
    assert(t.white_king_pos == a.white_king_pos);
    assert(t.black_king_pos == a.black_king_pos);
    assert(forall|x: int, y: int| #[trigger] t.at(x, y) == a.at(x, y));
    assert(t.king_x(true) == a.king_x(true) && t.king_y(true) == a.king_y(true));
    assert(t.king_x(false) == a.king_x(false) && t.king_y(false) == a.king_y(false));
}

} // verus!
