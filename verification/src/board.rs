//! The position: what stands on each square, where the kings are, and which
//! side may still castle.

use vstd::prelude::*;
use vstd::array::spec_array_update;
use crate::types::{Color, Coord, Piece, PieceType};

verus! {

/// A position.
///
/// `board[x][y]` is what stands on file `x`, rank `y`. `kings` and
/// `can_castle` hold one entry per side, at `Color::index`.
#[derive(Clone, Copy, Debug, PartialEq, Eq)]
pub struct Board {
    pub board: [[Piece; 8]; 8],
    pub kings: [Coord; 2],
    pub can_castle: [bool; 2],
}

/// The square on which the king of `color` starts.
pub open spec fn king_home(color: Color) -> Coord {
    Coord { x: 4, y: color.home() as i8 }
}

/// What the starting position holds on file `x`, rank `y`.
pub open spec fn initial_piece(x: int, y: int) -> Piece {
    let pos = Coord { x: x as i8, y: y as i8 };
    let officer = if x == 0 || x == 7 {
        PieceType::Rook
    } else if x == 1 || x == 6 {
        PieceType::Knight
    } else if x == 2 || x == 5 {
        PieceType::Bishop
    } else if x == 3 {
        PieceType::Queen
    } else {
        PieceType::King
    };
    if y == 0 {
        Piece { kind: officer, color: Color::White, pos }
    } else if y == 1 {
        Piece { kind: PieceType::Pawn, color: Color::White, pos }
    } else if y == 6 {
        Piece { kind: PieceType::Pawn, color: Color::Black, pos }
    } else if y == 7 {
        Piece { kind: officer, color: Color::Black, pos }
    } else {
        Piece::vacancy(pos)
    }
}

impl Board {
    /// What stands on file `x`, rank `y`.
    pub open spec fn square(self, x: int, y: int) -> Piece {
        self.board[x][y]
    }

    /// What stands on `c`.
    pub open spec fn at(self, c: Coord) -> Piece {
        self.square(c.x as int, c.y as int)
    }

    /// File `x`, rank `y` is a square of the board and nothing stands on it.
    pub open spec fn vacant(self, x: int, y: int) -> bool {
        0 <= x < 8 && 0 <= y < 8 && self.square(x, y).kind == PieceType::Empty
    }

    /// The pieces in play: every piece that stands on a square of the board.
    /// A vacancy is no piece.
    pub open spec fn live(self) -> Set<Piece> {
        Set::new(|p: Piece| p.pos.on_board() && p.kind != PieceType::Empty && self.at(p.pos) == p)
    }

    /// The square on which the king of `color` is recorded to stand.
    pub open spec fn king_of(self, color: Color) -> Coord {
        self.kings[color.slot()]
    }

    /// Whether `color` may still castle.
    pub open spec fn may_castle(self, color: Color) -> bool {
        self.can_castle[color.slot()]
    }

    /// This position with `p` stored on `c`.
    pub open spec fn put(self, c: Coord, p: Piece) -> Board {
        Board {
            board: spec_array_update(
                self.board,
                c.x as int,
                spec_array_update(self.board[c.x as int], c.y as int, p),
            ),
            ..self
        }
    }

    /// This position with the king of `color` recorded on `c`.
    pub open spec fn with_king(self, color: Color, c: Coord) -> Board {
        Board { kings: spec_array_update(self.kings, color.slot(), c), ..self }
    }

    /// This position with the right of `color` to castle taken away.
    pub open spec fn without_rights(self, color: Color) -> Board {
        Board { can_castle: spec_array_update(self.can_castle, color.slot(), false), ..self }
    }

    /// `piece` goes to `target` and `left_behind` is stored where it stood.
    /// A king takes its record along.
    pub open spec fn relocate(self, piece: Piece, target: Coord, left_behind: Piece) -> Board {
        let tracked_king = if piece.kind == PieceType::King {
            self.with_king(piece.color, target)
        } else {
            self
        };
        tracked_king.put(piece.pos, left_behind).put(target, piece.moved_to(target))
    }

    /// `piece` goes to `target` and leaves a vacant square behind. Whatever
    /// stood on `target` is gone.
    pub open spec fn after_move(self, piece: Piece, target: Coord) -> Board {
        self.relocate(piece, target, Piece::vacancy(piece.pos))
    }

    /// This is the starting position.
    pub open spec fn is_initial(self) -> bool {
        &&& forall|x: int, y: int|
            0 <= x < 8 && 0 <= y < 8 ==> #[trigger] self.square(x, y) == initial_piece(x, y)
        &&& self.king_of(Color::White) == king_home(Color::White)
        &&& self.king_of(Color::Black) == king_home(Color::Black)
        &&& self.may_castle(Color::White)
        &&& self.may_castle(Color::Black)
    }

    /// The square on file `x`, rank `y` records its own coordinates, and if it
    /// holds a king, that is where the king of its side is recorded.
    pub open spec fn in_order_at(self, x: int, y: int) -> bool {
        let p = self.square(x, y);
        let here = Coord { x: x as i8, y: y as i8 };
        p.pos == here && (p.kind == PieceType::King ==> self.king_of(p.color) == here)
    }

    /// The record of the king of `color` points at a king of that side.
    pub open spec fn king_tracked(self, color: Color) -> bool {
        let k = self.king_of(color);
        k.on_board() && self.at(k).kind == PieceType::King && self.at(k).color == color
    }

    /// A side that may still castle has its king on the starting square.
    pub open spec fn rights_sound(self, color: Color) -> bool {
        self.may_castle(color) ==> self.king_of(color) == king_home(color)
    }

    /// Every square records its own coordinates, and each side has exactly
    /// one king, recorded where it stands.
    pub open spec fn kings_in_place(self) -> bool {
        &&& forall|x: int, y: int|
            #![trigger self.square(x, y)]
            0 <= x < 8 && 0 <= y < 8 ==> self.in_order_at(x, y)
        &&& self.king_tracked(Color::White)
        &&& self.king_tracked(Color::Black)
    }

    /// The invariant of a position in play: each side has exactly one king,
    /// the records say where it stands, and a side whose king has left its
    /// starting square may no longer castle.
    pub open spec fn wf(self) -> bool {
        &&& self.kings_in_place()
        &&& self.rights_sound(Color::White)
        &&& self.rights_sound(Color::Black)
    }
}

/// Two positions that agree square by square and entry by entry are the same.
pub proof fn lemma_board_equal(a: Board, b: Board)
    requires
        forall|x: int, y: int| 0 <= x < 8 && 0 <= y < 8 ==> a.square(x, y) == b.square(x, y),
        a.kings[0] == b.kings[0],
        a.kings[1] == b.kings[1],
        a.can_castle[0] == b.can_castle[0],
        a.can_castle[1] == b.can_castle[1],
    ensures
        a == b,
{
    assert forall|x: int| 0 <= x < 8 implies a.board[x] == b.board[x] by {
        assert forall|y: int| 0 <= y < 8 implies a.board[x][y] == b.board[x][y] by {
            assert(a.square(x, y) == b.square(x, y));
        }
    }
    assert(a.board =~= b.board);
    assert(a.kings =~= b.kings);
    assert(a.can_castle =~= b.can_castle);
}

/// What `relocate` leaves on each square and in each record.
pub proof fn lemma_relocate(board: Board, piece: Piece, target: Coord, left_behind: Piece)
    requires
        piece.pos.on_board(),
        target.on_board(),
    ensures
        forall|x: int, y: int|
            0 <= x < 8 && 0 <= y < 8 ==> #[trigger] board.relocate(
                piece,
                target,
                left_behind,
            ).square(x, y) == if x == target.x && y == target.y {
                piece.moved_to(target)
            } else if x == piece.pos.x && y == piece.pos.y {
                left_behind
            } else {
                board.square(x, y)
            },
        forall|color: Color| #[trigger]
            board.relocate(piece, target, left_behind).king_of(color) == if piece.kind
                == PieceType::King && color == piece.color {
                target
            } else {
                board.king_of(color)
            },
        board.relocate(piece, target, left_behind).can_castle == board.can_castle,
{
}

/// A piece that stands on the board and goes to a square that holds no king
/// leaves each king where it is recorded.
pub proof fn lemma_move_keeps_kings(board: Board, x: int, y: int, target: Coord)
    requires
        board.kings_in_place(),
        0 <= x < 8,
        0 <= y < 8,
        target.on_board(),
        board.at(target).kind != PieceType::King,
    ensures
        board.after_move(board.square(x, y), target).kings_in_place(),
{
    let piece = board.square(x, y);
    lemma_relocate(board, piece, target, Piece::vacancy(piece.pos));
}

/// What `without_rights` changes: the one flag, and nothing else.
pub proof fn lemma_without_rights(board: Board, color: Color)
    ensures
        board.without_rights(color).board == board.board,
        board.without_rights(color).kings == board.kings,
        forall|side: Color| #[trigger]
            board.without_rights(color).may_castle(side) == (side != color && board.may_castle(
                side,
            )),
{
}

/// Whether nothing stands on `coord`. A square off the board is not vacant.
pub fn is_empty(coord: &Coord, board: &Board) -> (r: bool)
    ensures
        r == board.vacant(coord.x as int, coord.y as int),
{
    if !coord.is_on_board() {
        return false;
    }
    board.board[coord.x as usize][coord.y as usize].kind == PieceType::Empty
}

/// Moves `piece` to `target`, stores `new_piece` where it stood, and hands back
/// what `target` held just before `piece` arrived.
pub fn move_recover(piece: Piece, target: &Coord, board: &mut Board, new_piece: Piece) -> (previous:
    Piece)
    requires
        piece.pos.on_board(),
        target.on_board(),
    ensures
        *final(board) == old(board).relocate(piece, *target, new_piece),
        previous == if *target == piece.pos {
            new_piece
        } else {
            old(board).at(*target)
        },
{
    if piece.kind == PieceType::King {
        board.kings[piece.color.index()] = *target;
    }
    board.board[piece.pos.x as usize][piece.pos.y as usize] = new_piece;
    let previous = board.board[target.x as usize][target.y as usize];
    board.board[target.x as usize][target.y as usize] = Piece { pos: *target, ..piece };
    previous
}

/// Moves `piece` to `target`, leaving a vacant square behind; what `target`
/// held is lost.
pub fn move_lose(piece: Piece, target: &Coord, board: &mut Board)
    requires
        piece.pos.on_board(),
        target.on_board(),
    ensures
        *final(board) == old(board).after_move(piece, *target),
{
    if piece.kind == PieceType::King {
        board.kings[piece.color.index()] = *target;
    }
    board.board[piece.pos.x as usize][piece.pos.y as usize] = Piece::empty(piece.pos);
    board.board[target.x as usize][target.y as usize] = Piece { pos: *target, ..piece };
}

/// The kind of officer that starts on file `x`.
fn officer(x: usize) -> (kind: PieceType)
    requires
        x < 8,
    ensures
        kind == initial_piece(x as int, 0).kind,
{
    if x == 0 || x == 7 {
        PieceType::Rook
    } else if x == 1 || x == 6 {
        PieceType::Knight
    } else if x == 2 || x == 5 {
        PieceType::Bishop
    } else if x == 3 {
        PieceType::Queen
    } else {
        PieceType::King
    }
}

/// File `x` of the starting position.
fn initial_file(x: usize) -> (file: [Piece; 8])
    requires
        x < 8,
    ensures
        forall|y: int| 0 <= y < 8 ==> file[y] == initial_piece(x as int, y),
{
    let fx: i8 = x as i8;
    let kind = officer(x);
    [
        Piece { kind, color: Color::White, pos: Coord { x: fx, y: 0 } },
        Piece { kind: PieceType::Pawn, color: Color::White, pos: Coord { x: fx, y: 1 } },
        Piece::empty(Coord { x: fx, y: 2 }),
        Piece::empty(Coord { x: fx, y: 3 }),
        Piece::empty(Coord { x: fx, y: 4 }),
        Piece::empty(Coord { x: fx, y: 5 }),
        Piece { kind: PieceType::Pawn, color: Color::Black, pos: Coord { x: fx, y: 6 } },
        Piece { kind, color: Color::Black, pos: Coord { x: fx, y: 7 } },
    ]
}

/// The starting position: the standard setup, both kings recorded on their
/// starting squares, both sides free to castle.
pub fn new_board() -> (board: Board)
    ensures
        board.is_initial(),
        board.wf(),
{
    let squares = [
        initial_file(0),
        initial_file(1),
        initial_file(2),
        initial_file(3),
        initial_file(4),
        initial_file(5),
        initial_file(6),
        initial_file(7),
    ];
    let board = Board {
        board: squares,
        kings: [Coord { x: 4, y: 7 }, Coord { x: 4, y: 0 }],
        can_castle: [true, true],
    };
    assert forall|x: int, y: int| 0 <= x < 8 && 0 <= y < 8 implies #[trigger] board.square(x, y)
        == initial_piece(x, y) by {}
    board
}

impl Board {
    /// Whether the king of `color` is recorded on a square that holds it, and
    /// on its starting square if the side may still castle.
    fn king_in_order(&self, color: Color) -> (r: bool)
        ensures
            r == (self.king_tracked(color) && self.rights_sound(color)),
    {
        let k = self.kings[color.index()];
        if !k.is_on_board() {
            return false;
        }
        let p = self.board[k.x as usize][k.y as usize];
        if p.kind != PieceType::King || p.color != color {
            return false;
        }
        !self.can_castle[color.index()] || (k.x == 4 && k.y == color.home_rank())
    }

    /// Decides `wf`.
    pub fn is_wf(&self) -> (r: bool)
        ensures
            r == self.wf(),
    {
        if !self.king_in_order(Color::White) || !self.king_in_order(Color::Black) {
            return false;
        }
        let mut x: usize = 0;
        while x < 8
            invariant
                x <= 8,
                forall|i: int, j: int| 0 <= i < x && 0 <= j < 8 ==> #[trigger] self.in_order_at(i, j),
            decreases 8 - x,
        {
            let mut y: usize = 0;
            while y < 8
                invariant
                    x < 8,
                    y <= 8,
                    forall|i: int, j: int|
                        0 <= i < x && 0 <= j < 8 ==> #[trigger] self.in_order_at(i, j),
                    forall|j: int| 0 <= j < y ==> #[trigger] self.in_order_at(x as int, j),
                decreases 8 - y,
            {
                let p = self.board[x][y];
                let here = Coord { x: x as i8, y: y as i8 };
                if p.pos != here || (p.kind == PieceType::King && self.kings[p.color.index()]
                    != here) {
                    assert(!self.in_order_at(x as int, y as int));
                    return false;
                }
                y = y + 1;
            }
            x = x + 1;
        }
        true
    }
}

/// File `i`, rank `j` is a square of the board that comes before file `x`,
/// rank `y` when the board is read file by file, each file from the first rank
/// up.
pub open spec fn read_before(i: int, j: int, x: int, y: int) -> bool {
    0 <= i < 8 && 0 <= j < 8 && (i < x || (i == x && j < y))
}

impl Board {
    /// The pieces in play, listed as the board is read: file by file, each
    /// file from the first rank up. The list is made from the squares each
    /// time; no second record of the pieces is kept.
    pub fn pieces(&self) -> (list: Vec<Piece>)
        ensures
            list@.to_set() == self.live(),
            forall|a: int, b: int|
                0 <= a < b < list.len() ==> read_before(
                    list[a].pos.x as int,
                    list[a].pos.y as int,
                    list[b].pos.x as int,
                    list[b].pos.y as int,
                ),
    {
        let mut list: Vec<Piece> = Vec::new();
        let mut x: usize = 0;
        while x < 8
            invariant
                x <= 8,
                self.listed(list@, x as int, 0),
            decreases 8 - x,
        {
            let mut y: usize = 0;
            while y < 8
                invariant
                    x < 8,
                    y <= 8,
                    self.listed(list@, x as int, y as int),
                decreases 8 - y,
            {
                let p = self.board[x][y];
                let ghost before = list@;
                if p.kind != PieceType::Empty && p.pos.x == x as i8 && p.pos.y == y as i8 {
                    list.push(p);
                    assert(list@[before.len() as int] == p);
                    assert forall|q: Piece|
                        self.live().contains(q) && read_before(
                            q.pos.x as int,
                            q.pos.y as int,
                            x as int,
                            y + 1,
                        ) implies list@.contains(q) by {
                        if q.pos != p.pos {
                            assert(before.contains(q));
                            let k = choose|k: int| 0 <= k < before.len() && before[k] == q;
                            assert(list@[k] == q);
                        }
                    }
                }
                y = y + 1;
            }
            x = x + 1;
        }
        assert(list@.to_set() =~= self.live());
        list
    }

    /// `list` holds, in the order of reading, the pieces in play on the squares
    /// before file `x`, rank `y`.
    spec fn listed(self, list: Seq<Piece>, x: int, y: int) -> bool {
        &&& forall|k: int|
            0 <= k < list.len() ==> self.live().contains(#[trigger] list[k]) && read_before(
                list[k].pos.x as int,
                list[k].pos.y as int,
                x,
                y,
            )
        &&& forall|a: int, b: int|
            0 <= a < b < list.len() ==> read_before(
                (#[trigger] list[a]).pos.x as int,
                list[a].pos.y as int,
                (#[trigger] list[b]).pos.x as int,
                list[b].pos.y as int,
            )
        &&& forall|q: Piece|
            self.live().contains(q) && read_before(q.pos.x as int, q.pos.y as int, x, y)
                ==> #[trigger] list.contains(q)
    }
}

} // verus!
