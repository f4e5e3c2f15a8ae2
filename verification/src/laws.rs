//! What holds of the rules, whatever the position and the command.

use vstd::prelude::*;
use crate::board::{king_home, lemma_relocate, lemma_without_rights, Board};
use crate::attack::lemma_attack_reads_squares;
use crate::legality::{
    magnitude, span, spec_can_check, spec_path_clear, spec_valid_move, step_is_vacant, toward,
    valid_geometry,
};
use crate::resolver::{
    castling_corner, castling_crossed, castling_reached, lemma_castle_keeps_wf,
    lemma_settle_keeps_wf, spec_can_move, Request,
};
use crate::types::{Color, Coord, MoveError, Operation, Piece, PieceType};

verus! {

/// No piece moves by staying where it is.
pub proof fn law_no_move_stays_in_place(piece: Piece)
    ensures
        !spec_valid_move(piece, piece.pos),
{
}

/// A knight's way is free whatever stands on the board.
pub proof fn law_knights_leap(piece: Piece, target: Coord, board: Board)
    requires
        piece.kind == PieceType::Knight,
    ensures
        spec_path_clear(piece, target, board),
{
}

/// A vacancy has no way anywhere.
pub proof fn law_vacancies_stay(piece: Piece, target: Coord, board: Board)
    requires
        piece.kind == PieceType::Empty,
    ensures
        !spec_path_clear(piece, target, board),
        !spec_valid_move(piece, target),
        !spec_can_check(piece, target, board),
{
}

/// The knight moves one step along one axis and two along the other.
pub proof fn law_knights_move_in_hooks(color: Color, dx: int, dy: int)
    ensures
        valid_geometry(PieceType::Knight, color, dx, dy) <==> (magnitude(dx) == 1 && magnitude(dy)
            == 2) || (magnitude(dx) == 2 && magnitude(dy) == 1),
{
    assert(magnitude(dx * dy) == 2 <==> (magnitude(dx) == 1 && magnitude(dy) == 2) || (magnitude(
        dx,
    ) == 2 && magnitude(dy) == 1)) by (nonlinear_arith)
        requires
            magnitude(dx) == if dx < 0 {
                -dx
            } else {
                dx
            },
            magnitude(dy) == if dy < 0 {
                -dy
            } else {
                dy
            },
            magnitude(dx * dy) == if dx * dy < 0 {
                -(dx * dy)
            } else {
                dx * dy
            },
    ;
}

/// A vacant square holds no attacker and no candidate for any request.
pub proof fn law_vacant_squares_are_inert(
    board: Board,
    x: int,
    y: int,
    by: Color,
    square: Coord,
    req: Request,
)
    requires
        board.square(x, y).kind == PieceType::Empty,
    ensures
        !board.attacker_at(x, y, by, square),
        !board.candidate(req, x, y),
        !board.accepts(req, x, y),
{
}

/// A command that succeeds leaves a position that is in order.
pub proof fn law_commands_keep_order(board: Board, operation: Operation)
    requires
        board.wf(),
        operation.well_formed(),
        board.outcome(operation) is Ok,
    ensures
        board.outcome(operation)->Ok_0.wf(),
{
    match operation {
        Operation::Move(kind, target, color) => {
            let req = Request { kind, color, target, capture: false };
            let (x, y) = choose|x: int, y: int| #[trigger] board.accepts(req, x, y);
            lemma_settle_keeps_wf(board, x, y, target);
        },
        Operation::Capture(kind, target, color) => {
            let req = Request { kind, color, target, capture: true };
            let (x, y) = choose|x: int, y: int| #[trigger] board.accepts(req, x, y);
            lemma_settle_keeps_wf(board, x, y, target);
        },
        Operation::Castle(color, queen_side) => {
            lemma_castle_keeps_wf(board, color, queen_side);
        },
        Operation::Invalid(_) => {},
    }
}

/// Where two different pieces of the kind and side asked for may both go to
/// the vacant square aimed at, the move is turned down as ambiguous, whatever
/// else stands on the board.
pub proof fn law_two_able_pieces_are_ambiguous(
    board: Board,
    kind: PieceType,
    target: Coord,
    color: Color,
    first: Coord,
    second: Coord,
)
    requires
        first != second,
        first.on_board(),
        second.on_board(),
        board.at(first) == (Piece { kind, color, pos: first }),
        board.at(second) == (Piece { kind, color, pos: second }),
        kind != PieceType::Empty,
        spec_can_move(board.at(first), target, board) is Ok,
        spec_can_move(board.at(second), target, board) is Ok,
    ensures
        board.outcome(Operation::Move(kind, target, color)) == Err::<Board, MoveError>(
            MoveError::AmbiguousMove,
        ),
{
    let req = Request { kind, color, target, capture: false };
    assert(board.accepts(req, first.x as int, first.y as int));
    assert(board.accepts(req, second.x as int, second.y as int));
}

/// A king is never captured: a capture aimed at a square that holds a king is
/// turned down for that reason, whichever piece was to make it.
pub proof fn law_kings_are_never_captured(
    board: Board,
    kind: PieceType,
    target: Coord,
    color: Color,
)
    requires
        target.on_board(),
        board.at(target).kind == PieceType::King,
    ensures
        board.outcome(Operation::Capture(kind, target, color)) == Err::<Board, MoveError>(
            MoveError::CannotCaptureKing,
        ),
{
}

/// The position after the commands `ops` have been given one after the other.
/// A command that is turned down leaves the position as it is.
pub open spec fn play_all(board: Board, ops: Seq<Operation>) -> Board
    decreases ops.len(),
{
    if ops.len() == 0 {
        board
    } else {
        let before = play_all(board, ops.drop_last());
        match before.outcome(ops.last()) {
            Ok(after) => after,
            Err(_) => before,
        }
    }
}

/// Castling costs the side its right to castle: a second attempt, on either
/// side of the board, is turned down as forfeited.
pub proof fn law_castling_forfeits(board: Board, color: Color, first: bool, second: bool)
    requires
        board.wf(),
        board.castle(color, first) is Ok,
    ensures
        !board.castle(color, first)->Ok_0.may_castle(color),
        board.castle(color, first)->Ok_0.castle(color, second) == Err::<Board, MoveError>(
            MoveError::CastleForfeited,
        ),
{
    lemma_castle_rights(board, color, first);
}

/// What castling does to the rights: the side that castles loses its own, the
/// other side keeps what it had.
proof fn lemma_castle_rights(board: Board, color: Color, queen_side: bool)
    requires
        board.wf(),
        board.castle(color, queen_side) is Ok,
    ensures
        !board.castle(color, queen_side)->Ok_0.may_castle(color),
        board.castle(color, queen_side)->Ok_0.may_castle(color.opposite()) == board.may_castle(
            color.opposite(),
        ),
{
    let from = king_home(color);
    let corner = castling_corner(color, queen_side);
    let first = board.after_move(board.at(from), castling_reached(color, queen_side));
    let second = first.after_move(board.at(corner), castling_crossed(color, queen_side));
    lemma_relocate(board, board.at(from), castling_reached(color, queen_side), Piece::vacancy(from));
    lemma_relocate(
        first,
        board.at(corner),
        castling_crossed(color, queen_side),
        Piece::vacancy(corner),
    );
    lemma_without_rights(second, color);
}

/// No command gives a right to castle back: a side that may castle after a
/// command could castle before it.
pub proof fn law_rights_never_return(board: Board, operation: Operation, side: Color)
    requires
        board.wf(),
        operation.well_formed(),
        board.outcome(operation) is Ok,
        !board.may_castle(side),
    ensures
        !board.outcome(operation)->Ok_0.may_castle(side),
{
    match operation {
        Operation::Move(kind, target, color) => {
            law_moves_and_rights(board, kind, target, color, false);
        },
        Operation::Capture(kind, target, color) => {
            law_moves_and_rights(board, kind, target, color, true);
        },
        Operation::Castle(color, queen_side) => {
            lemma_castle_rights(board, color, queen_side);
        },
        Operation::Invalid(_) => {},
    }
}

/// Once a side has lost the right to castle it never castles again, whatever
/// commands follow.
pub proof fn law_rights_are_lost_for_good(
    board: Board,
    ops: Seq<Operation>,
    side: Color,
    queen_side: bool,
)
    requires
        board.wf(),
        forall|i: int| 0 <= i < ops.len() ==> (#[trigger] ops[i]).well_formed(),
        !board.may_castle(side),
    ensures
        play_all(board, ops).wf(),
        !play_all(board, ops).may_castle(side),
        play_all(board, ops).castle(side, queen_side) == Err::<Board, MoveError>(
            MoveError::CastleForfeited,
        ),
    decreases ops.len(),
{
    if ops.len() > 0 {
        let earlier = ops.drop_last();
        law_rights_are_lost_for_good(board, earlier, side, queen_side);
        let before = play_all(board, earlier);
        if before.outcome(ops.last()) is Ok {
            law_commands_keep_order(before, ops.last());
            law_rights_never_return(before, ops.last(), side);
        }
    }
}

/// A move or a capture by a king or a rook costs the mover's side its right to
/// castle; one by any other piece leaves that right as it was. The other
/// side's right is untouched in either case.
pub proof fn law_moves_and_rights(
    board: Board,
    kind: PieceType,
    target: Coord,
    color: Color,
    capture: bool,
)
    requires
        board.wf(),
        target.on_board(),
        board.outcome(
            if capture {
                Operation::Capture(kind, target, color)
            } else {
                Operation::Move(kind, target, color)
            },
        ) is Ok,
    ensures
        ({
            let after = board.outcome(
                if capture {
                    Operation::Capture(kind, target, color)
                } else {
                    Operation::Move(kind, target, color)
                },
            )->Ok_0;
            &&& kind == PieceType::King || kind == PieceType::Rook ==> !after.may_castle(color)
            &&& kind != PieceType::King && kind != PieceType::Rook ==> after.may_castle(color)
                == board.may_castle(color)
            &&& after.may_castle(color.opposite()) == board.may_castle(color.opposite())
        }),
{
    let req = Request { kind, color, target, capture };
    let (x, y) = choose|x: int, y: int| #[trigger] board.accepts(req, x, y);
    let piece = board.square(x, y);
    lemma_relocate(board, piece, target, Piece::vacancy(piece.pos));
    lemma_without_rights(board.after_move(piece, target), color);
}

/// A capture that succeeds puts the capturing piece on the square aimed at and
/// leaves the square it came from vacant; every other square is as before. Of
/// the pieces in play the one that was taken is gone and the one that took it
/// has moved; the others are the same. No later reading of the board meets
/// the piece that was taken, as a candidate or as an attacker.
pub proof fn law_capture_removes_the_taken(
    board: Board,
    kind: PieceType,
    target: Coord,
    color: Color,
) -> (origin: Coord)
    requires
        board.wf(),
        target.on_board(),
        board.outcome(Operation::Capture(kind, target, color)) is Ok,
    ensures
        origin.on_board(),
        origin != target,
        board.at(origin) == (Piece { kind, color, pos: origin }),
        board.at(target).kind != PieceType::Empty,
        board.at(target).color == color.opposite(),
        ({
            let after = board.outcome(Operation::Capture(kind, target, color))->Ok_0;
            &&& after.at(target) == (Piece { kind, color, pos: target })
            &&& after.at(origin).kind == PieceType::Empty
            &&& forall|x: int, y: int|
                0 <= x < 8 && 0 <= y < 8 && !(x == target.x && y == target.y) && !(x == origin.x
                    && y == origin.y) ==> #[trigger] after.square(x, y) == board.square(x, y)
            &&& !after.live().contains(board.at(target))
            &&& after.live() == board.live().remove(board.at(target)).remove(
                board.at(origin),
            ).insert(after.at(target))
        }),
{
    let req = Request { kind, color, target, capture: true };
    let (x, y) = choose|x: int, y: int| #[trigger] board.accepts(req, x, y);
    let piece = board.square(x, y);
    let after = board.outcome(Operation::Capture(kind, target, color))->Ok_0;
    lemma_relocate(board, piece, target, Piece::vacancy(piece.pos));
    lemma_without_rights(board.after_move(piece, target), color);
    assert(after.live() =~= board.live().remove(board.at(target)).remove(piece).insert(
        after.at(target),
    ));
    piece.pos
}

/// A move that succeeds takes one piece of the kind and side asked for from
/// its square to the vacant square aimed at; every other square is as before,
/// and the pieces in play are the same but for the one that moved.
pub proof fn law_move_relocates_one_piece(
    board: Board,
    kind: PieceType,
    target: Coord,
    color: Color,
) -> (origin: Coord)
    requires
        board.wf(),
        target.on_board(),
        board.outcome(Operation::Move(kind, target, color)) is Ok,
    ensures
        origin.on_board(),
        origin != target,
        board.at(origin) == (Piece { kind, color, pos: origin }),
        board.at(target).kind == PieceType::Empty,
        ({
            let after = board.outcome(Operation::Move(kind, target, color))->Ok_0;
            &&& after.at(target) == (Piece { kind, color, pos: target })
            &&& after.at(origin).kind == PieceType::Empty
            &&& forall|x: int, y: int|
                0 <= x < 8 && 0 <= y < 8 && !(x == target.x && y == target.y) && !(x == origin.x
                    && y == origin.y) ==> #[trigger] after.square(x, y) == board.square(x, y)
            &&& after.live() == board.live().remove(board.at(origin)).insert(after.at(target))
        }),
{
    let req = Request { kind, color, target, capture: false };
    let (x, y) = choose|x: int, y: int| #[trigger] board.accepts(req, x, y);
    let piece = board.square(x, y);
    let after = board.outcome(Operation::Move(kind, target, color))->Ok_0;
    lemma_relocate(board, piece, target, Piece::vacancy(piece.pos));
    lemma_without_rights(board.after_move(piece, target), color);
    assert(after.live() =~= board.live().remove(piece).insert(after.at(target)));
    piece.pos
}

/// A side that still holds the right castles whenever the squares between its
/// king and the corner are vacant and the other side attacks none of the
/// king's square, the square it crosses and the square it reaches.
pub proof fn law_castling_succeeds_when_free(board: Board, color: Color, queen_side: bool)
    requires
        board.wf(),
        board.may_castle(color),
        forall|x: int|
            (if queen_side {
                0 < x < 4
            } else {
                4 < x < 7
            }) ==> #[trigger] board.vacant(x, color.home()),
        !board.attacked(color.opposite(), king_home(color)),
        !board.attacked(color.opposite(), castling_crossed(color, queen_side)),
        !board.attacked(color.opposite(), castling_reached(color, queen_side)),
    ensures
        board.castle(color, queen_side) is Ok,
{
    let from = king_home(color);
    let corner = castling_corner(color, queen_side);
    assert(board.king_tracked(color) && board.rights_sound(color));
    assert forall|n: int| 1 <= n < span(corner.x - from.x, corner.y - from.y) implies step_is_vacant(
        board,
        from,
        corner,
        n,
    ) by {
        assert(board.vacant(toward(from.x as int, corner.x - from.x, n), color.home()));
    }
}

/// Castling that succeeds puts the king two files from its starting square,
/// on file 6 on the king's side and on file 2 on the queen's, and what stood
/// in the corner on the square the king crossed, file 5 or file 3. The king's
/// starting square and the corner are left vacant, every other square is as
/// before, and the king's record has gone along.
pub proof fn law_castling_places_king_and_rook(board: Board, color: Color, queen_side: bool)
    requires
        board.wf(),
        board.castle(color, queen_side) is Ok,
    ensures
        ({
            let after = board.castle(color, queen_side)->Ok_0;
            let from = king_home(color);
            let corner = castling_corner(color, queen_side);
            let crossed = castling_crossed(color, queen_side);
            let reached = castling_reached(color, queen_side);
            &&& board.at(from) == (Piece { kind: PieceType::King, color, pos: from })
            &&& after.at(reached) == (Piece { kind: PieceType::King, color, pos: reached })
            &&& after.at(crossed) == board.at(corner).moved_to(crossed)
            &&& after.at(from).kind == PieceType::Empty
            &&& after.at(corner).kind == PieceType::Empty
            &&& after.king_of(color) == reached
            &&& forall|x: int, y: int|
                0 <= x < 8 && 0 <= y < 8 && !(y == from.y && (x == from.x || x == corner.x || x
                    == crossed.x || x == reached.x)) ==> #[trigger] after.square(x, y)
                    == board.square(x, y)
        }),
{
    let from = king_home(color);
    let corner = castling_corner(color, queen_side);
    let first = board.after_move(board.at(from), castling_reached(color, queen_side));
    let second = first.after_move(board.at(corner), castling_crossed(color, queen_side));
    lemma_relocate(board, board.at(from), castling_reached(color, queen_side), Piece::vacancy(from));
    lemma_relocate(
        first,
        board.at(corner),
        castling_crossed(color, queen_side),
        Piece::vacancy(corner),
    );
    lemma_without_rights(second, color);
}

/// No move and no capture leaves the king of the side that made it attacked.
pub proof fn law_no_move_leaves_the_king_attacked(
    board: Board,
    kind: PieceType,
    target: Coord,
    color: Color,
    capture: bool,
)
    requires
        board.wf(),
        target.on_board(),
        board.outcome(
            if capture {
                Operation::Capture(kind, target, color)
            } else {
                Operation::Move(kind, target, color)
            },
        ) is Ok,
    ensures
        ({
            let after = board.outcome(
                if capture {
                    Operation::Capture(kind, target, color)
                } else {
                    Operation::Move(kind, target, color)
                },
            )->Ok_0;
            !after.attacked(color.opposite(), after.king_of(color))
        }),
{
    let req = Request { kind, color, target, capture };
    let (x, y) = choose|x: int, y: int| #[trigger] board.accepts(req, x, y);
    let piece = board.square(x, y);
    let moved = board.after_move(piece, target);
    lemma_without_rights(moved, color);
    lemma_attack_reads_squares(
        board.settle(piece, target),
        moved,
        color.opposite(),
        moved.king_of(color),
    );
}

/// The reasons for which a command can be turned down. A move or a capture is
/// never turned down as an `InvalidMove`: where no piece gives a reason that
/// says more, the reason is `NoLegalMove`.
pub proof fn law_reasons_are_of_the_command(board: Board, operation: Operation)
    requires
        board.outcome(operation) is Err,
    ensures
        ({
            let e = board.outcome(operation)->Err_0;
            match operation {
                Operation::Move(_, _, _) => e == MoveError::Occupied || e == MoveError::Blocked
                    || e == MoveError::SelfCheck || e == MoveError::AmbiguousMove || e
                    == MoveError::NoLegalMove,
                Operation::Capture(_, _, _) => e == MoveError::NoPieceThere || e
                    == MoveError::CannotCaptureKing || e == MoveError::SameColor || e
                    == MoveError::Blocked || e == MoveError::SelfCheck || e
                    == MoveError::AmbiguousMove || e == MoveError::NoLegalMove,
                Operation::Castle(_, _) => e == MoveError::CastleForfeited || e
                    == MoveError::CastleBlocked || e == MoveError::CastleSquareThreatened,
                Operation::Invalid(given) => e == given,
            }
        }),
{
    match operation {
        Operation::Move(kind, target, color) => {
            lemma_first_rejection(board, Request { kind, color, target, capture: false }, 0, 0);
        },
        Operation::Capture(kind, target, color) => {
            lemma_first_rejection(board, Request { kind, color, target, capture: true }, 0, 0);
        },
        _ => {},
    }
}

/// The first telling reason is one that a judgement can give, or `NoLegalMove`.
proof fn lemma_first_rejection(board: Board, req: Request, x: int, y: int)
    ensures
        ({
            let e = board.first_rejection(req, x, y);
            ||| e == MoveError::NoLegalMove
            ||| e == MoveError::Blocked
            ||| e == MoveError::SelfCheck
            ||| !req.capture && e == MoveError::Occupied
            ||| req.capture && e == MoveError::SameColor
        }),
    decreases 8 - x, 8 - y,
{
    if x < 0 || x >= 8 || y < 0 {
    } else if y >= 8 {
        lemma_first_rejection(board, req, x + 1, 0);
    } else {
        lemma_first_rejection(board, req, x, y + 1);
    }
}

} // verus!
