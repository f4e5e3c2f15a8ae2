//! Carrying out commands: finding the piece a command speaks of, judging the
//! move, and changing the position when exactly one piece can make it.

use vstd::prelude::*;
use crate::attack::{is_attacked, produces_check, spec_produces_check};
use crate::board::{
    is_empty, king_home, lemma_move_keeps_kings, lemma_relocate, lemma_without_rights, move_lose,
    read_before, Board,
};
use crate::legality::{
    path_clear, spec_path_clear, spec_valid_move, step_is_vacant, valid_move,
};
use crate::types::{Color, Coord, MoveError, Operation, Piece, PieceType};

verus! {

/// What a move or a capture asks for.
#[derive(Clone, Copy, Debug, PartialEq, Eq, Structural)]
pub struct Request {
    pub kind: PieceType,
    pub color: Color,
    pub target: Coord,
    pub capture: bool,
}

/// The judgement on `piece` going to the vacant square `target`. The first
/// test that fails decides: the destination is taken, the piece does not move
/// that way, the way is not free, the mover's king would be attacked.
pub open spec fn spec_can_move(piece: Piece, target: Coord, board: Board) -> Result<(), MoveError> {
    if !board.vacant(target.x as int, target.y as int) {
        Err(MoveError::Occupied)
    } else if !spec_valid_move(piece, target) {
        Err(MoveError::InvalidMove)
    } else if !spec_path_clear(piece, target, board) {
        Err(MoveError::Blocked)
    } else if spec_produces_check(piece, target, board) {
        Err(MoveError::SelfCheck)
    } else {
        Ok(())
    }
}

/// The judgement on `piece` taking what stands on `target`. The first test
/// that fails decides: the two are of one side, the piece does not move that
/// way, the way is not free, the mover's king would be attacked.
pub open spec fn spec_can_capture(piece: Piece, target: Coord, board: Board) -> Result<
    (),
    MoveError,
> {
    if piece.color == board.at(target).color {
        Err(MoveError::SameColor)
    } else if !spec_valid_move(piece, target) {
        Err(MoveError::InvalidMove)
    } else if !spec_path_clear(piece, target, board) {
        Err(MoveError::Blocked)
    } else if spec_produces_check(piece, target, board) {
        Err(MoveError::SelfCheck)
    } else {
        Ok(())
    }
}

/// The corner towards which `color` castles.
pub open spec fn castling_corner(color: Color, queen_side: bool) -> Coord {
    Coord { x: if queen_side { 0i8 } else { 7i8 }, y: color.home() as i8 }
}

/// The square that the king of `color` crosses when it castles, and to which
/// what stands in the corner goes.
pub open spec fn castling_crossed(color: Color, queen_side: bool) -> Coord {
    Coord { x: if queen_side { 3i8 } else { 5i8 }, y: color.home() as i8 }
}

/// The square that the king of `color` reaches when it castles.
pub open spec fn castling_reached(color: Color, queen_side: bool) -> Coord {
    Coord { x: if queen_side { 2i8 } else { 6i8 }, y: color.home() as i8 }
}

impl Board {
    /// The judgement on `piece` for the request.
    pub open spec fn verdict(self, req: Request, piece: Piece) -> Result<(), MoveError> {
        if req.capture {
            spec_can_capture(piece, req.target, self)
        } else {
            spec_can_move(piece, req.target, self)
        }
    }

    /// A piece of the kind and side that the request names stands on file `x`,
    /// rank `y`.
    pub open spec fn candidate(self, req: Request, x: int, y: int) -> bool {
        let p = self.square(x, y);
        &&& 0 <= x < 8
        &&& 0 <= y < 8
        &&& p.kind == req.kind
        &&& p.color == req.color
        &&& p.kind != PieceType::Empty
    }

    /// The piece on file `x`, rank `y` is a candidate and may do what the
    /// request asks.
    pub open spec fn accepts(self, req: Request, x: int, y: int) -> bool {
        self.candidate(req, x, y) && self.verdict(req, self.square(x, y)) is Ok
    }

    /// Two different pieces may do what the request asks.
    pub open spec fn ambiguous(self, req: Request) -> bool {
        exists|x1: int, y1: int, x2: int, y2: int|
            #[trigger] self.accepts(req, x1, y1) && #[trigger] self.accepts(req, x2, y2) && (x1
                != x2 || y1 != y2)
    }

    /// Some piece may do what the request asks.
    pub open spec fn feasible(self, req: Request) -> bool {
        exists|x: int, y: int| #[trigger] self.accepts(req, x, y)
    }

    /// The reason that the candidate on file `x`, rank `y` gives, if it gives
    /// one that says more than that the piece does not move that way.
    pub open spec fn rejection_at(self, req: Request, x: int, y: int) -> Option<MoveError> {
        if self.candidate(req, x, y) {
            match self.verdict(req, self.square(x, y)) {
                Err(e) => if e != MoveError::InvalidMove {
                    Some(e)
                } else {
                    None
                },
                Ok(_) => None,
            }
        } else {
            None
        }
    }

    /// The first such reason from file `x`, rank `y` on, reading the board file
    /// by file; `NoLegalMove` where no candidate gives one.
    pub open spec fn first_rejection(self, req: Request, x: int, y: int) -> MoveError
        decreases 8 - x, 8 - y,
    {
        if x < 0 || x >= 8 || y < 0 {
            MoveError::NoLegalMove
        } else if y >= 8 {
            self.first_rejection(req, x + 1, 0)
        } else {
            match self.rejection_at(req, x, y) {
                Some(e) => e,
                None => self.first_rejection(req, x, y + 1),
            }
        }
    }

    /// The position after `piece` has gone to `target` for good: a king or a
    /// rook that moves costs its side the right to castle.
    pub open spec fn settle(self, piece: Piece, target: Coord) -> Board {
        let moved = self.after_move(piece, target);
        if piece.kind == PieceType::King || piece.kind == PieceType::Rook {
            moved.without_rights(piece.color)
        } else {
            moved
        }
    }

    /// What comes of a request: with two or more pieces that may do it,
    /// `AmbiguousMove`; with exactly one, the position after that piece has
    /// moved; with none, the first reason that says more than `InvalidMove`,
    /// or `NoLegalMove`.
    pub open spec fn resolve(self, req: Request) -> Result<Board, MoveError> {
        if self.ambiguous(req) {
            Err(MoveError::AmbiguousMove)
        } else if self.feasible(req) {
            let (x, y) = choose|x: int, y: int| #[trigger] self.accepts(req, x, y);
            Ok(self.settle(self.square(x, y), req.target))
        } else {
            Err(self.first_rejection(req, 0, 0))
        }
    }

    /// What comes of castling. The king is taken from its starting square and
    /// goes two files towards the corner; what stands in the corner goes to
    /// the square the king crossed.
    pub open spec fn castle(self, color: Color, queen_side: bool) -> Result<Board, MoveError> {
        let from = king_home(color);
        let corner = castling_corner(color, queen_side);
        let crossed = castling_crossed(color, queen_side);
        let reached = castling_reached(color, queen_side);
        let enemy = color.opposite();
        if !self.may_castle(color) {
            Err(MoveError::CastleForfeited)
        } else if !spec_path_clear(self.at(from), corner, self) {
            Err(MoveError::CastleBlocked)
        } else if self.attacked(enemy, from) || self.attacked(enemy, crossed) || self.attacked(
            enemy,
            reached,
        ) {
            Err(MoveError::CastleSquareThreatened)
        } else {
            Ok(
                self.after_move(self.at(from), reached).after_move(
                    self.at(corner),
                    crossed,
                ).without_rights(color),
            )
        }
    }

    /// What comes of a command: the new position, or the reason why the
    /// position stays as it is.
    pub open spec fn outcome(self, operation: Operation) -> Result<Board, MoveError> {
        match operation {
            Operation::Move(kind, target, color) => self.resolve(
                Request { kind, color, target, capture: false },
            ),
            Operation::Capture(kind, target, color) => if self.vacant(
                target.x as int,
                target.y as int,
            ) {
                Err(MoveError::NoPieceThere)
            } else if self.at(target).kind == PieceType::King {
                Err(MoveError::CannotCaptureKing)
            } else {
                self.resolve(Request { kind, color, target, capture: true })
            },
            Operation::Castle(color, queen_side) => self.castle(color, queen_side),
            Operation::Invalid(e) => Err(e),
        }
    }
}

/// A piece that stands on the board, goes to a square of the board and takes
/// no king there leaves a position that is in order.
pub proof fn lemma_settle_keeps_wf(board: Board, x: int, y: int, target: Coord)
    requires
        board.wf(),
        0 <= x < 8,
        0 <= y < 8,
        target.on_board(),
        board.at(target).kind != PieceType::King,
    ensures
        board.settle(board.square(x, y), target).wf(),
{
    let piece = board.square(x, y);
    lemma_move_keeps_kings(board, x, y, target);
    lemma_relocate(board, piece, target, Piece::vacancy(piece.pos));
    lemma_rights_only(board.after_move(piece, target), piece.color);
}

/// Castling leaves a position that is in order.
pub proof fn lemma_castle_keeps_wf(board: Board, color: Color, queen_side: bool)
    requires
        board.wf(),
        board.castle(color, queen_side) is Ok,
    ensures
        board.castle(color, queen_side)->Ok_0.wf(),
{
    let from = king_home(color);
    let corner = castling_corner(color, queen_side);
    let crossed = castling_crossed(color, queen_side);
    let reached = castling_reached(color, queen_side);
    let first = board.after_move(board.at(from), reached);
    let second = first.after_move(board.at(corner), crossed);
    assert(step_is_vacant(board, from, corner, 1));
    assert(step_is_vacant(board, from, corner, 2));
    lemma_move_keeps_kings(board, from.x as int, from.y as int, reached);
    lemma_relocate(board, board.at(from), reached, Piece::vacancy(from));
    lemma_move_keeps_kings(first, corner.x as int, corner.y as int, crossed);
    lemma_relocate(first, board.at(corner), crossed, Piece::vacancy(corner));
    lemma_rights_only(second, color);
}

/// Taking a right to castle away leaves each king where it is recorded.
proof fn lemma_rights_only(board: Board, color: Color)
    requires
        board.kings_in_place(),
    ensures
        board.without_rights(color).kings_in_place(),
        board.without_rights(color).kings == board.kings,
        forall|side: Color| #[trigger]
            board.without_rights(color).may_castle(side) == (side != color && board.may_castle(
                side,
            )),
{
    let after = board.without_rights(color);
    lemma_without_rights(board, color);
    assert forall|i: int, j: int| 0 <= i < 8 && 0 <= j < 8 implies after.in_order_at(i, j) by {
        assert(board.in_order_at(i, j));
    }
}

/// What is known after the board has been read up to file `x`, rank `y`:
/// `found` is the first piece that may do what the request asks, `several`
/// tells whether a second one came after it, and `rejection` is the first
/// reason met that says more than `InvalidMove`.
spec fn read_so_far(
    board: Board,
    req: Request,
    x: int,
    y: int,
    found: Option<Piece>,
    several: bool,
    rejection: Option<MoveError>,
) -> bool {
    &&& match rejection {
        Some(e) => board.first_rejection(req, 0, 0) == e,
        None => board.first_rejection(req, 0, 0) == board.first_rejection(req, x, y),
    }
    &&& match found {
        None => !several && forall|i: int, j: int|
            read_before(i, j, x, y) ==> !#[trigger] board.accepts(req, i, j),
        Some(p) => {
            &&& read_before(p.pos.x as int, p.pos.y as int, x, y)
            &&& p == board.at(p.pos)
            &&& board.accepts(req, p.pos.x as int, p.pos.y as int)
            &&& several ==> board.ambiguous(req)
            &&& !several ==> forall|i: int, j: int|
                read_before(i, j, x, y) && #[trigger] board.accepts(req, i, j) ==> i == p.pos.x
                    && j == p.pos.y
        },
    }
}

/// What reading file `x`, rank `y` makes of what was known before.
spec fn read_on(
    board: Board,
    req: Request,
    x: int,
    y: int,
    found: Option<Piece>,
    several: bool,
    rejection: Option<MoveError>,
) -> (Option<Piece>, bool, Option<MoveError>) {
    if board.accepts(req, x, y) {
        if found is Some {
            (found, true, rejection)
        } else {
            (Some(board.square(x, y)), several, rejection)
        }
    } else if rejection is None {
        (found, several, board.rejection_at(req, x, y))
    } else {
        (found, several, rejection)
    }
}

/// Reading one more square keeps `read_so_far`.
proof fn lemma_read_on(
    board: Board,
    req: Request,
    x: int,
    y: int,
    found: Option<Piece>,
    several: bool,
    rejection: Option<MoveError>,
)
    requires
        board.kings_in_place(),
        0 <= x < 8,
        0 <= y < 8,
        read_so_far(board, req, x, y, found, several, rejection),
    ensures
        ({
            let (found2, several2, rejection2) = read_on(
                board,
                req,
                x,
                y,
                found,
                several,
                rejection,
            );
            read_so_far(board, req, x, y + 1, found2, several2, rejection2)
        }),
{
    assert(board.first_rejection(req, x, y) == match board.rejection_at(req, x, y) {
        Some(e) => e,
        None => board.first_rejection(req, x, y + 1),
    });
}

/// Decides `spec_can_move`. The position is the same after the call.
pub fn can_move(piece: &Piece, target: &Coord, board: &mut Board) -> (r: Result<(), MoveError>)
    requires
        piece.pos.on_board(),
        target.on_board(),
    ensures
        r == spec_can_move(*piece, *target, *old(board)),
        *final(board) == *old(board),
{
    if !is_empty(target, board) {
        return Err(MoveError::Occupied);
    }
    if !valid_move(piece, target) {
        return Err(MoveError::InvalidMove);
    }
    if !path_clear(piece, target, board) {
        return Err(MoveError::Blocked);
    }
    if produces_check(piece, target, board) {
        return Err(MoveError::SelfCheck);
    }
    Ok(())
}

/// Decides `spec_can_capture`. The position is the same after the call.
pub fn can_capture(piece: &Piece, target: &Coord, board: &mut Board) -> (r: Result<(), MoveError>)
    requires
        piece.pos.on_board(),
        target.on_board(),
    ensures
        r == spec_can_capture(*piece, *target, *old(board)),
        *final(board) == *old(board),
{
    if piece.color == board.board[target.x as usize][target.y as usize].color {
        return Err(MoveError::SameColor);
    }
    if !valid_move(piece, target) {
        return Err(MoveError::InvalidMove);
    }
    if !path_clear(piece, target, board) {
        return Err(MoveError::Blocked);
    }
    if produces_check(piece, target, board) {
        return Err(MoveError::SelfCheck);
    }
    Ok(())
}

/// Carries out a move or a capture: reads the board file by file, judges each
/// piece of the kind and side asked for, and moves the one that may go if it is
/// the only one. A capture is aimed at a square that holds a piece, and no
/// king.
pub fn resolve(board: &mut Board, req: &Request) -> (res: Result<(), MoveError>)
    requires
        old(board).wf(),
        req.target.on_board(),
        req.capture ==> !old(board).vacant(req.target.x as int, req.target.y as int) && old(
            board,
        ).at(req.target).kind != PieceType::King,
    ensures
        match old(board).resolve(*req) {
            Ok(after) => res is Ok && *final(board) == after,
            Err(e) => res == Err::<(), MoveError>(e) && *final(board) == *old(board),
        },
        final(board).wf(),
{
    let mut found: Option<Piece> = None;
    let mut several = false;
    let mut rejection: Option<MoveError> = None;
    let mut x: usize = 0;
    while x < 8
        invariant
            *board == *old(board),
            board.wf(),
            req.target.on_board(),
            x <= 8,
            read_so_far(*board, *req, x as int, 0, found, several, rejection),
        decreases 8 - x,
    {
        let mut y: usize = 0;
        while y < 8
            invariant
                *board == *old(board),
                board.wf(),
                req.target.on_board(),
                x < 8,
                y <= 8,
                read_so_far(*board, *req, x as int, y as int, found, several, rejection),
            decreases 8 - y,
        {
            let piece = board.board[x][y];
            let ghost before = (found, several, rejection);
            proof {
                lemma_read_on(*board, *req, x as int, y as int, found, several, rejection);
            }
            if piece.kind == req.kind && piece.color == req.color && piece.kind
                != PieceType::Empty {
                let verdict = if req.capture {
                    can_capture(&piece, &req.target, board)
                } else {
                    can_move(&piece, &req.target, board)
                };
                match verdict {
                    Ok(_) => {
                        if found.is_some() {
                            several = true;
                        } else {
                            found = Some(piece);
                        }
                    },
                    Err(e) => {
                        if e != MoveError::InvalidMove && rejection.is_none() {
                            rejection = Some(e);
                        }
                    },
                }
            }
            assert((found, several, rejection) == read_on(
                *board,
                *req,
                x as int,
                y as int,
                before.0,
                before.1,
                before.2,
            ));
            y = y + 1;
        }
        x = x + 1;
    }
    if several {
        return Err(MoveError::AmbiguousMove);
    }
    match found {
        None => {
            match rejection {
                Some(e) => Err(e),
                None => Err(MoveError::NoLegalMove),
            }
        },
        Some(piece) => {
            proof {
                lemma_settle_keeps_wf(*board, piece.pos.x as int, piece.pos.y as int, req.target);
            }
            move_lose(piece, &req.target, board);
            if piece.kind == PieceType::King || piece.kind == PieceType::Rook {
                board.can_castle[piece.color.index()] = false;
            }
            Ok(())
        },
    }
}

/// Castles: the king goes from its starting square two files towards the
/// corner, and what stands in the corner goes to the square the king crossed.
/// Refused where the side has lost the right, where a piece stands between
/// king and corner, and where the other side attacks the king's square, the
/// square it crosses or the square it reaches.
///
/// The right to castle is lost by moving the king or a rook, not by losing a
/// rook: a side that still holds the right castles with whatever stands in the
/// corner, a vacancy included.
pub fn castle(board: &mut Board, color: Color, is_long: bool) -> (res: Result<(), MoveError>)
    requires
        old(board).wf(),
    ensures
        match old(board).castle(color, is_long) {
            Ok(after) => res is Ok && *final(board) == after,
            Err(e) => res == Err::<(), MoveError>(e) && *final(board) == *old(board),
        },
        final(board).wf(),
{
    if !board.can_castle[color.index()] {
        return Err(MoveError::CastleForfeited);
    }
    let rank: i8 = color.home_rank();
    let king = board.board[4][rank as usize];
    let king_pos = king.pos;
    assert(king_pos == king_home(color));
    let toward_corner: i8 = if is_long {
        1
    } else {
        -1
    };
    let corner = Coord { x: if is_long { 0 } else { 7 }, y: rank };
    if !path_clear(&king, &corner, board) {
        return Err(MoveError::CastleBlocked);
    }
    let crossed = king_pos.minus_x(toward_corner);
    let reached = king_pos.minus_x(2 * toward_corner);
    let enemy = color.not();
    if is_attacked(board, enemy, &king_pos) || is_attacked(board, enemy, &crossed) || is_attacked(
        board,
        enemy,
        &reached,
    ) {
        return Err(MoveError::CastleSquareThreatened);
    }
    proof {
        lemma_castle_keeps_wf(*board, color, is_long);
        lemma_relocate(*board, king, reached, Piece::vacancy(king_pos));
    }
    move_lose(king, &reached, board);
    let rook = board.board[corner.x as usize][rank as usize];
    assert(rook == old(board).at(corner));
    move_lose(rook, &crossed, board);
    board.can_castle[color.index()] = false;
    Ok(())
}

/// Carries out a command. Either the command succeeds and the position is the
/// one `Board::outcome` gives, or it is turned down and the position is
/// untouched. A position that is in order stays so.
pub fn process(board: &mut Board, operation: Operation) -> (res: Result<(), MoveError>)
    requires
        old(board).wf(),
        operation.well_formed(),
    ensures
        match old(board).outcome(operation) {
            Ok(after) => res is Ok && *final(board) == after,
            Err(e) => res == Err::<(), MoveError>(e) && *final(board) == *old(board),
        },
        res is Err ==> *final(board) == *old(board),
        final(board).wf(),
{
    match operation {
        Operation::Move(kind, target, color) => {
            let req = Request { kind, color, target, capture: false };
            resolve(board, &req)
        },
        Operation::Capture(kind, target, color) => {
            if is_empty(&target, board) {
                return Err(MoveError::NoPieceThere);
            }
            if board.board[target.x as usize][target.y as usize].kind == PieceType::King {
                return Err(MoveError::CannotCaptureKing);
            }
            let req = Request { kind, color, target, capture: true };
            resolve(board, &req)
        },
        Operation::Castle(color, is_long) => castle(board, color, is_long),
        Operation::Invalid(e) => Err(e),
    }
}

} // verus!
