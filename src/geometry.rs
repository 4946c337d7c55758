use vstd::prelude::*;
use crate::board::{ChessBoard, on_board};
use crate::chesspiece::{Piece, PieceType};
use crate::model::{abs, king_step_ok, knight_ok, span, step_toward};

verus! {

/// Signed file and rank distance from `dest` to `start`.
pub fn find_dist(start: [usize; 2], dest: [usize; 2]) -> (r: (i32, i32))
    requires
        on_board(start),
        on_board(dest),
    ensures
        r.0 == start[0] - dest[0],
        r.1 == start[1] - dest[1],
{
    (start[0] as i32 - dest[0] as i32, start[1] as i32 - dest[1] as i32)
}

fn abs_i32(x: i32) -> (r: i32)
    requires
        -8 < x < 8,
    ensures
        r == abs(x as int),
{
    if x < 0 {
        -x
    } else {
        x
    }
}

/// The squares strictly between `start` and `dest`, from `start` outward, on the
/// straight or diagonal line that joins them.
pub fn path_iter(start: [usize; 2], dest: [usize; 2]) -> (r: Vec<[usize; 2]>)
    requires
        on_board(start),
        on_board(dest),
        start[0] == dest[0] || start[1] == dest[1] || abs(start[0] - dest[0]) == abs(
            start[1] - dest[1],
        ),
    ensures
        r@.len() == if span(start[0] as int, start[1] as int, dest[0] as int, dest[1] as int)
            > 0 {
            span(start[0] as int, start[1] as int, dest[0] as int, dest[1] as int) - 1
        } else {
            0
        },
        forall|k: int|
            0 <= k < r@.len() ==> (#[trigger] r@[k])[0] == step_toward(
                start[0] as int,
                dest[0] as int,
                k + 1,
            ) && r@[k][1] == step_toward(start[1] as int, dest[1] as int, k + 1),
        forall|k: int| 0 <= k < r@.len() ==> on_board(#[trigger] r@[k]),
{
    let (x_dist, y_dist) = find_dist(start, dest);
    let ax = abs_i32(x_dist);
    let ay = abs_i32(y_dist);
    let n: usize = if ax > ay {
        ax as usize
    } else {
        ay as usize
    };
    let ghost sp = span(start[0] as int, start[1] as int, dest[0] as int, dest[1] as int);
    let mut path: Vec<[usize; 2]> = Vec::new();
    let mut k: usize = 1;
    while k < n
        invariant
            1 <= k,
            k <= n || (n == 0 && k == 1),
            n == sp,
            n <= 7,
            start[0] != dest[0] ==> n == abs(start[0] - dest[0]),
            start[1] != dest[1] ==> n == abs(start[1] - dest[1]),
            on_board(start),
            on_board(dest),
            path@.len() == k - 1,
            forall|j: int| 0 <= j < path@.len() ==> on_board(#[trigger] path@[j]),
            forall|j: int|
                0 <= j < path@.len() ==> (#[trigger] path@[j])[0] == step_toward(
                    start[0] as int,
                    dest[0] as int,
                    j + 1,
                ) && path@[j][1] == step_toward(start[1] as int, dest[1] as int, j + 1),
        decreases n - k,
    {
        let x: usize = if start[0] < dest[0] {
            start[0] + k
        } else if dest[0] < start[0] {
            start[0] - k
        } else {
            start[0]
        };
        let y: usize = if start[1] < dest[1] {
            start[1] + k
        } else if dest[1] < start[1] {
            start[1] - k
        } else {
            start[1]
        };
        path.push([x, y]);
        k = k + 1;
    }
    path
}

/// The piece of colour `player` would land on a square held by its own side.
pub fn check_occupied(player: bool, dest_player: Option<bool>) -> (r: bool)
    ensures
        r == (dest_player == Some(player)),
{
    if let Some(dest_player) = dest_player {
        if player == dest_player {
            return true;
        }
    }
    false
}

/// Every square strictly between `start` and `dest` is empty.
fn path_is_clear(start: [usize; 2], dest: [usize; 2], board: &ChessBoard) -> (r: bool)
    requires
        board.wf(),
        on_board(start),
        on_board(dest),
        start[0] == dest[0] || start[1] == dest[1] || abs(start[0] - dest[0]) == abs(
            start[1] - dest[1],
        ),
    ensures
        r == board@.path_clear(start[0] as int, start[1] as int, dest[0] as int, dest[1] as int),
{
    let path = path_iter(start, dest);
    let ghost sp = span(start[0] as int, start[1] as int, dest[0] as int, dest[1] as int);
    let mut i: usize = 0;
    while i < path.len()
        invariant
            board.wf(),
            sp == span(start[0] as int, start[1] as int, dest[0] as int, dest[1] as int),
            i <= path@.len(),
            path@.len() == if sp > 0 {
                sp - 1
            } else {
                0
            },
            forall|k: int| 0 <= k < path@.len() ==> on_board(#[trigger] path@[k]),
            forall|k: int|
                0 <= k < path@.len() ==> (#[trigger] path@[k])[0] == step_toward(
                    start[0] as int,
                    dest[0] as int,
                    k + 1,
                ) && path@[k][1] == step_toward(start[1] as int, dest[1] as int, k + 1),
            forall|j: int|
                0 < j <= i ==> (#[trigger] board@.at(
                    step_toward(start[0] as int, dest[0] as int, j),
                    step_toward(start[1] as int, dest[1] as int, j),
                )).is_none(),
        decreases path@.len() - i,
    {
        let sq = path[i];
        assert(sq == path@[i as int]);
        if board.get(sq).is_some() {
            let ghost k: int = i + 1;
            assert(0 < k < sp);
            assert(board@.at(
                step_toward(start[0] as int, dest[0] as int, k),
                step_toward(start[1] as int, dest[1] as int, k),
            ).is_some());
            return false;
        }
        i = i + 1;
    }
    true
}

/// Bishop geometry: along a diagonal with nothing in between.
pub fn test_diagonal(start: [usize; 2], dest: [usize; 2], board: &ChessBoard) -> (r: bool)
    requires
        board.wf(),
        on_board(start),
        on_board(dest),
    ensures
        r == board@.diagonal_ok(start[0] as int, start[1] as int, dest[0] as int, dest[1] as int),
{
    let (x_dist, y_dist) = find_dist(start, dest);
    if abs_i32(x_dist) == abs_i32(y_dist) {
        return path_is_clear(start, dest, board);
    }
    false
}

/// Rook geometry: along a file or a rank with nothing in between.
pub fn test_straight(start: [usize; 2], dest: [usize; 2], board: &ChessBoard) -> (r: bool)
    requires
        board.wf(),
        on_board(start),
        on_board(dest),
    ensures
        r == board@.straight_ok(start[0] as int, start[1] as int, dest[0] as int, dest[1] as int),
{
    if start[0] == dest[0] || start[1] == dest[1] {
        return path_is_clear(start, dest, board);
    }
    false
}

/// Knight geometry.
pub fn test_knight(start: [usize; 2], dest: [usize; 2]) -> (r: bool)
    requires
        on_board(start),
        on_board(dest),
    ensures
        r == knight_ok(start[0] as int, start[1] as int, dest[0] as int, dest[1] as int),
{
    let (x_dist, y_dist) = find_dist(start, dest);
    let ax = abs_i32(x_dist);
    let ay = abs_i32(y_dist);
    if ax == 2 {
        if ay == 1 {
            return true;
        }
    } else if ay == 2 {
        if ax == 1 {
            return true;
        }
    }
    false
}

/// King geometry for a single step.
pub fn test_king_step(start: [usize; 2], dest: [usize; 2]) -> (r: bool)
    requires
        on_board(start),
        on_board(dest),
    ensures
        r == king_step_ok(start[0] as int, start[1] as int, dest[0] as int, dest[1] as int),
{
    let (x_dist, y_dist) = find_dist(start, dest);
    abs_i32(x_dist) <= 1 && abs_i32(y_dist) <= 1
}

/// Pawn geometry for a pawn of colour `is_white`: a step forward onto an empty
/// square, two steps from the home rank over an empty square, or a diagonal step
/// onto an enemy or onto the opponent's en-passant target.
pub fn test_pawn(is_white: bool, start: [usize; 2], dest: [usize; 2], board: &ChessBoard) -> (r:
    bool)
    requires
        board.wf(),
        on_board(start),
        on_board(dest),
    ensures
        r == board@.pawn_ok(
            is_white,
            start[0] as int,
            start[1] as int,
            dest[0] as int,
            dest[1] as int,
        ),
{
    let dest_piece = board.get(dest);
    if start[0] == dest[0] && dest_piece.is_some() {
        return false;
    }
    let one_step = if is_white {
        dest[1] == start[1] + 1
    } else {
        start[1] == dest[1] + 1
    };
    let two_steps = if is_white {
        dest[1] == start[1] + 2
    } else {
        start[1] == dest[1] + 2
    };
    if one_step {
        if start[0] == dest[0] + 1 || dest[0] == start[0] + 1 {
            if dest_piece.is_some() {
                return true;
            }
            let en_passant_space = if is_white {
                board.get_black_en_passant()
            } else {
                board.get_white_en_passant()
            };
            if let Some(space) = en_passant_space {
                if dest[0] == space[0] && dest[1] == space[1] {
                    return true;
                }
            }
            return false;
        }
        return start[0] == dest[0];
    } else if two_steps && (start[1] == 1 || start[1] == 6) {
        let mid: usize = if is_white {
            dest[1] - 1
        } else {
            dest[1] + 1
        };
        return dest_piece.is_none() && start[0] == dest[0] && board.get([dest[0], mid]).is_none();
    }
    false
}

/// Geometry of `piece`'s kind from `start` to `dest`, castling aside.
pub fn test_space_basic(piece: Piece, start: [usize; 2], dest: [usize; 2], board: &ChessBoard) -> (r:
    bool)
    requires
        board.wf(),
        on_board(start),
        on_board(dest),
    ensures
        r == board@.basic_space_ok(
            piece,
            start[0] as int,
            start[1] as int,
            dest[0] as int,
            dest[1] as int,
        ),
{
    match piece.kind {
        PieceType::Pawn => test_pawn(piece.is_white, start, dest, board),
        PieceType::Knight => test_knight(start, dest),
        PieceType::Bishop => test_diagonal(start, dest, board),
        PieceType::Rook => test_straight(start, dest, board),
        PieceType::Queen => test_straight(start, dest, board) || test_diagonal(start, dest, board),
        PieceType::King => test_king_step(start, dest),
    }
}

/// The colour of the piece on `pos`, if any.
pub fn occupant_color(pos: [usize; 2], board: &ChessBoard) -> (r: Option<bool>)
    requires
        board.wf(),
        on_board(pos),
    ensures
        r == match board@.at(pos[0] as int, pos[1] as int) {
            Some(q) => Some(q.is_white),
            None => None::<bool>,
        },
{
    match board.get(pos) {
        Some(q) => Some(q.is_white),
        None => None,
    }
}

/// `piece` on `start` can reach `dest` by the shared pre-filter and its kind's
/// geometry, castling aside.
pub fn test_reach(piece: Piece, start: [usize; 2], dest: [usize; 2], board: &ChessBoard) -> (r:
    bool)
    requires
        board.wf(),
        on_board(start),
        on_board(dest),
    ensures
        r == board@.basic_move_ok(
            piece,
            start[0] as int,
            start[1] as int,
            dest[0] as int,
            dest[1] as int,
        ),
{
    let dest_player = occupant_color(dest, board);
    if !(start[0] == dest[0] && start[1] == dest[1]) && !check_occupied(
        piece.is_white,
        dest_player,
    ) {
        return test_space_basic(piece, start, dest, board);
    }
    false
}

} // verus!
