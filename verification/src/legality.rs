//! How each kind of piece moves, and whether the way to a square is free.

use vstd::prelude::*;
use crate::board::{is_empty, Board};
use crate::types::{Color, Coord, Piece, PieceType};

verus! {

/// The absolute value of `v`.
pub open spec fn magnitude(v: int) -> int {
    if v < 0 {
        -v
    } else {
        v
    }
}

/// A displacement along a rank or a file.
pub open spec fn straight(dx: int, dy: int) -> bool {
    (dx == 0) != (dy == 0)
}

/// A displacement along a diagonal.
pub open spec fn diagonal(dx: int, dy: int) -> bool {
    magnitude(dx) == magnitude(dy)
}

/// Whether a piece of the given kind and side may move by `dx` files and `dy`
/// ranks, whatever stands in between.
///
/// The king's rule asks for one step along at least one axis and puts no bound
/// on the other. A pawn only ever advances one rank on its file.
pub open spec fn valid_geometry(kind: PieceType, color: Color, dx: int, dy: int) -> bool {
    match kind {
        PieceType::King => magnitude(dx) == 1 || magnitude(dy) == 1,
        PieceType::Pawn => dx == 0 && match color {
            Color::White => dy == 1,
            Color::Black => dy == -1,
        },
        PieceType::Queen => straight(dx, dy) || diagonal(dx, dy),
        PieceType::Rook => straight(dx, dy),
        PieceType::Bishop => diagonal(dx, dy),
        PieceType::Knight => magnitude(dx * dy) == 2,
        PieceType::Empty => false,
    }
}

/// Whether `piece` may go to `target` by the way it moves alone.
pub open spec fn spec_valid_move(piece: Piece, target: Coord) -> bool {
    target != piece.pos && valid_geometry(
        piece.kind,
        piece.color,
        target.x - piece.pos.x,
        target.y - piece.pos.y,
    )
}

/// The coordinate reached from `from` after `n` unit steps in the direction of
/// `delta`.
pub open spec fn toward(from: int, delta: int, n: int) -> int {
    if delta > 0 {
        from + n
    } else if delta < 0 {
        from - n
    } else {
        from
    }
}

/// The number of unit steps from a square to one `dx` files and `dy` ranks
/// away.
pub open spec fn span(dx: int, dy: int) -> int {
    if magnitude(dx) >= magnitude(dy) {
        magnitude(dx)
    } else {
        magnitude(dy)
    }
}

/// Whether the `n`th square on the way from `from` to `target` is a vacant
/// square of the board.
pub open spec fn step_is_vacant(board: Board, from: Coord, target: Coord, n: int) -> bool {
    board.vacant(
        toward(from.x as int, target.x - from.x, n),
        toward(from.y as int, target.y - from.y, n),
    )
}

/// Whether nothing stands between `piece` and `target`. The way goes from the
/// piece one step at a time, each step towards `target` along the file, along
/// the rank, or along both where both differ, and ends one step short of the
/// longer of the two distances; the two ends do not count. A square off the
/// board is not vacant, so a way that leaves the board is not free. A knight's
/// way is always free, a vacancy's never.
pub open spec fn spec_path_clear(piece: Piece, target: Coord, board: Board) -> bool {
    match piece.kind {
        PieceType::Knight => true,
        PieceType::Empty => false,
        _ => forall|n: int|
            1 <= n < span(target.x - piece.pos.x, target.y - piece.pos.y)
                ==> #[trigger] step_is_vacant(board, piece.pos, target, n),
    }
}

/// Whether `piece` attacks `square`: it moves that way and the way is free.
pub open spec fn spec_can_check(piece: Piece, square: Coord, board: Board) -> bool {
    spec_valid_move(piece, square) && spec_path_clear(piece, square, board)
}

/// Whether a way is free depends on what stands on the squares alone.
pub proof fn lemma_path_reads_squares(a: Board, b: Board, piece: Piece, target: Coord)
    requires
        a.board == b.board,
    ensures
        spec_path_clear(piece, target, a) == spec_path_clear(piece, target, b),
{
    assert forall|n: int| step_is_vacant(a, piece.pos, target, n) == step_is_vacant(
        b,
        piece.pos,
        target,
        n,
    ) by {}
}

fn abs(v: i32) -> (r: i32)
    requires
        v > i32::MIN,
    ensures
        r == magnitude(v as int),
{
    if v < 0 {
        -v
    } else {
        v
    }
}

/// Decides `spec_valid_move`. No piece may stay where it is.
pub fn valid_move(piece: &Piece, target: &Coord) -> (r: bool)
    ensures
        r == spec_valid_move(*piece, *target),
        *target == piece.pos ==> !r,
{
    if piece.pos == *target {
        return false;
    }
    let dx: i32 = target.x as i32 - piece.pos.x as i32;
    let dy: i32 = target.y as i32 - piece.pos.y as i32;
    match piece.kind {
        PieceType::King => abs(dx) == 1 || abs(dy) == 1,
        PieceType::Pawn => dx == 0 && match piece.color {
            Color::White => dy == 1,
            Color::Black => dy == -1,
        },
        PieceType::Queen => (dx == 0) != (dy == 0) || abs(dx) == abs(dy),
        PieceType::Rook => (dx == 0) != (dy == 0),
        PieceType::Bishop => abs(dx) == abs(dy),
        PieceType::Knight => {
            assert(-65025 <= dx * dy <= 65025) by (nonlinear_arith)
                requires
                    -255 <= dx <= 255,
                    -255 <= dy <= 255,
            ;
            abs(dx * dy) == 2
        },
        PieceType::Empty => false,
    }
}

/// Decides `spec_path_clear`. Any two squares may be asked about, whether or
/// not the piece moves that way.
pub fn path_clear(piece: &Piece, target: &Coord, board: &Board) -> (r: bool)
    ensures
        r == spec_path_clear(*piece, *target, *board),
        piece.kind == PieceType::Knight ==> r,
        piece.kind == PieceType::Empty ==> !r,
{
    match piece.kind {
        PieceType::Knight => true,
        PieceType::Empty => false,
        _ => {
            let dx: i32 = target.x as i32 - piece.pos.x as i32;
            let dy: i32 = target.y as i32 - piece.pos.y as i32;
            let steps: i32 = if abs(dx) >= abs(dy) {
                abs(dx)
            } else {
                abs(dy)
            };
            let mut n: i32 = 1;
            while n < steps
                invariant
                    piece.kind != PieceType::Knight,
                    piece.kind != PieceType::Empty,
                    1 <= n,
                    steps <= 255,
                    dx == target.x - piece.pos.x,
                    dy == target.y - piece.pos.y,
                    steps == span(dx as int, dy as int),
                    forall|k: int|
                        1 <= k < n ==> #[trigger] step_is_vacant(*board, piece.pos, *target, k),
                decreases steps - n,
            {
                let x: i32 = if dx > 0 {
                    piece.pos.x as i32 + n
                } else if dx < 0 {
                    piece.pos.x as i32 - n
                } else {
                    piece.pos.x as i32
                };
                let y: i32 = if dy > 0 {
                    piece.pos.y as i32 + n
                } else if dy < 0 {
                    piece.pos.y as i32 - n
                } else {
                    piece.pos.y as i32
                };
                if x < 0 || x >= 8 || y < 0 || y >= 8 || !is_empty(
                    &Coord { x: x as i8, y: y as i8 },
                    board,
                ) {
                    assert(!step_is_vacant(*board, piece.pos, *target, n as int));
                    return false;
                }
                n = n + 1;
            }
            true
        },
    }
}

/// Decides `spec_can_check`: whether `piece` attacks the square `king_coord`.
pub fn can_check(piece: &Piece, king_coord: &Coord, board: &Board) -> (r: bool)
    ensures
        r == spec_can_check(*piece, *king_coord, *board),
        piece.kind == PieceType::Empty ==> !r,
{
    valid_move(piece, king_coord) && path_clear(piece, king_coord, board)
}

} // verus!
