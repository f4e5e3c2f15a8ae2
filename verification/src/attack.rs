//! Which squares a side attacks, and whether a move would leave the mover's
//! own king attacked.

use vstd::prelude::*;
use crate::board::{lemma_board_equal, move_recover, Board};
use crate::legality::{can_check, lemma_path_reads_squares, spec_can_check};
use crate::types::{Color, Coord, Piece, PieceType};

verus! {

impl Board {
    /// A piece of side `by` stands on file `x`, rank `y` and attacks `square`.
    pub open spec fn attacker_at(self, x: int, y: int, by: Color, square: Coord) -> bool {
        let p = self.square(x, y);
        p.kind != PieceType::Empty && p.color == by && spec_can_check(p, square, self)
    }

    /// Some piece of side `by` attacks `square`.
    pub open spec fn attacked(self, by: Color, square: Coord) -> bool {
        exists|x: int, y: int|
            0 <= x < 8 && 0 <= y < 8 && #[trigger] self.attacker_at(x, y, by, square)
    }
}

/// Whether `piece`, once on `target`, leaves the king of its own side attacked.
/// The question is asked of the position after the move: the king's record has
/// gone along if it is the king that moved, and what stood on `target` is gone.
pub open spec fn spec_produces_check(piece: Piece, target: Coord, board: Board) -> bool {
    let after = board.after_move(piece, target);
    after.attacked(piece.color.opposite(), after.king_of(piece.color))
}

/// Whether a square is attacked depends on what stands on the squares alone,
/// not on the records kept beside them.
pub proof fn lemma_attack_reads_squares(a: Board, b: Board, by: Color, square: Coord)
    requires
        a.board == b.board,
    ensures
        a.attacked(by, square) == b.attacked(by, square),
{
    assert forall|x: int, y: int| a.attacker_at(x, y, by, square) == b.attacker_at(
        x,
        y,
        by,
        square,
    ) by {
        lemma_path_reads_squares(a, b, a.square(x, y), square);
    }
}

/// Decides `Board::attacked`.
pub fn is_attacked(board: &Board, by: Color, square: &Coord) -> (r: bool)
    ensures
        r == board.attacked(by, *square),
{
    let mut x: usize = 0;
    while x < 8
        invariant
            x <= 8,
            forall|i: int, j: int|
                0 <= i < x && 0 <= j < 8 ==> !#[trigger] board.attacker_at(i, j, by, *square),
        decreases 8 - x,
    {
        let mut y: usize = 0;
        while y < 8
            invariant
                x < 8,
                y <= 8,
                forall|i: int, j: int|
                    0 <= i < x && 0 <= j < 8 ==> !#[trigger] board.attacker_at(i, j, by, *square),
                forall|j: int| 0 <= j < y ==> !#[trigger] board.attacker_at(x as int, j, by, *square),
            decreases 8 - y,
        {
            let p = board.board[x][y];
            if p.kind != PieceType::Empty && p.color == by && can_check(&p, square, board) {
                assert(board.attacker_at(x as int, y as int, by, *square));
                return true;
            }
            y = y + 1;
        }
        x = x + 1;
    }
    false
}

/// Tries `piece` on `target`, looks whether any piece of the other side then
/// attacks the king of the mover's side, and takes the move back. The position
/// is the same after the call as before it, whatever the answer.
pub fn produces_check(piece: &Piece, target: &Coord, board: &mut Board) -> (r: bool)
    requires
        piece.pos.on_board(),
        target.on_board(),
    ensures
        r == spec_produces_check(*piece, *target, *old(board)),
        *final(board) == *old(board),
{
    let origin = piece.pos;
    let at_origin = board.board[origin.x as usize][origin.y as usize];
    let kings = board.kings;
    let at_target = move_recover(*piece, target, board, Piece::empty(origin));
    let king = board.kings[piece.color.index()];
    let r = is_attacked(board, piece.color.not(), &king);
    board.board[target.x as usize][target.y as usize] = at_target;
    board.board[origin.x as usize][origin.y as usize] = at_origin;
    board.kings = kings;
    proof {
        lemma_board_equal(*board, *old(board));
    }
    r
}

} // verus!
