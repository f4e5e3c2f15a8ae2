//! The plain values the engine speaks in: squares, colours, pieces, commands
//! and the reasons for which a command is turned down.

use vstd::prelude::*;

verus! {

/// A square, by zero-based file `x` and rank `y`.
///
/// The fields are signed so that differences between squares need no
/// conversion; a square of the board has both in `0..8`.
#[derive(Clone, Copy, Debug, PartialEq, Eq, Structural)]
pub struct Coord {
    pub x: i8,
    pub y: i8,
}

impl Coord {
    /// Whether this is one of the 64 squares of the board.
    pub open spec fn on_board(self) -> bool {
        0 <= self.x < 8 && 0 <= self.y < 8
    }

    /// Decides `on_board`.
    pub fn is_on_board(&self) -> (r: bool)
        ensures
            r == self.on_board(),
    {
        0 <= self.x && self.x < 8 && 0 <= self.y && self.y < 8
    }

    /// The square `n` files to the left.
    pub fn minus_x(&self, n: i8) -> (r: Coord)
        requires
            i8::MIN <= self.x - n <= i8::MAX,
        ensures
            r.x == self.x - n,
            r.y == self.y,
    {
        Coord { x: self.x - n, y: self.y }
    }

    /// The square `n` ranks down.
    pub fn minus_y(&self, n: i8) -> (r: Coord)
        requires
            i8::MIN <= self.y - n <= i8::MAX,
        ensures
            r.x == self.x,
            r.y == self.y - n,
    {
        Coord { x: self.x, y: self.y - n }
    }
}

/// A side.
#[derive(Clone, Copy, Debug, PartialEq, Eq, Structural)]
pub enum Color {
    Black,
    White,
}

impl Color {
    /// The other side.
    pub open spec fn opposite(self) -> Color {
        match self {
            Color::Black => Color::White,
            Color::White => Color::Black,
        }
    }

    /// The slot of this side in the tables that a board keeps per side.
    pub open spec fn slot(self) -> int {
        match self {
            Color::Black => 0,
            Color::White => 1,
        }
    }

    /// The rank on which this side's pieces start.
    pub open spec fn home(self) -> int {
        match self {
            Color::Black => 7,
            Color::White => 0,
        }
    }

    /// The other side.
    pub fn not(self) -> (r: Color)
        ensures
            r == self.opposite(),
    {
        match self {
            Color::Black => Color::White,
            Color::White => Color::Black,
        }
    }

    /// The slot of this side in `Board::kings` and `Board::can_castle`.
    pub fn index(self) -> (r: usize)
        ensures
            r == self.slot(),
    {
        match self {
            Color::Black => 0,
            Color::White => 1,
        }
    }

    /// The rank on which this side's pieces start.
    pub fn home_rank(self) -> (r: i8)
        ensures
            r == self.home(),
    {
        match self {
            Color::Black => 7,
            Color::White => 0,
        }
    }
}

/// What stands on a square. `Empty` marks a vacant square; it is stored like a
/// piece but never moves, never attacks and is never a candidate for a command.
#[derive(Clone, Copy, Debug, PartialEq, Eq, Structural)]
pub enum PieceType {
    King,
    Queen,
    Rook,
    Bishop,
    Knight,
    Pawn,
    Empty,
}

impl PieceType {
    /// The place of the kind in the order king, queen, rook, bishop, knight,
    /// pawn, vacancy.
    pub open spec fn ordinal(self) -> int {
        match self {
            PieceType::King => 0,
            PieceType::Queen => 1,
            PieceType::Rook => 2,
            PieceType::Bishop => 3,
            PieceType::Knight => 4,
            PieceType::Pawn => 5,
            PieceType::Empty => 6,
        }
    }
}

/// What a square holds: a piece of a side, or a vacancy, together with the
/// coordinates of the square.
#[derive(Clone, Copy, Debug, PartialEq, Eq, Structural)]
pub struct Piece {
    pub kind: PieceType,
    pub color: Color,
    pub pos: Coord,
}

impl Piece {
    /// The marker of a vacant square at `pos`.
    pub open spec fn vacancy(pos: Coord) -> Piece {
        Piece { kind: PieceType::Empty, color: Color::White, pos }
    }

    /// This piece as it stands after going to `target`.
    pub open spec fn moved_to(self, target: Coord) -> Piece {
        Piece { pos: target, ..self }
    }

    /// The code point of the character that shows this piece: a blank for a
    /// vacancy, else one of the twelve chess symbols, which follow each other
    /// from U+2654 in the order king, queen, rook, bishop, knight, pawn, the
    /// six in outline before the six solid ones. Black pieces are shown in
    /// outline, white pieces solid.
    pub open spec fn symbol(self) -> int {
        if self.kind == PieceType::Empty {
            0x20
        } else {
            0x2654 + self.kind.ordinal() + 6 * self.color.slot()
        }
    }

    /// The character that shows this piece.
    pub fn glyph(&self) -> (c: char)
        ensures
            c as int == self.symbol(),
    {
        match (self.kind, self.color) {
            (PieceType::Empty, _) => ' ',
            (PieceType::King, Color::Black) => '\u{2654}',
            (PieceType::Queen, Color::Black) => '\u{2655}',
            (PieceType::Rook, Color::Black) => '\u{2656}',
            (PieceType::Bishop, Color::Black) => '\u{2657}',
            (PieceType::Knight, Color::Black) => '\u{2658}',
            (PieceType::Pawn, Color::Black) => '\u{2659}',
            (PieceType::King, Color::White) => '\u{265a}',
            (PieceType::Queen, Color::White) => '\u{265b}',
            (PieceType::Rook, Color::White) => '\u{265c}',
            (PieceType::Bishop, Color::White) => '\u{265d}',
            (PieceType::Knight, Color::White) => '\u{265e}',
            (PieceType::Pawn, Color::White) => '\u{265f}',
        }
    }

    /// The marker of a vacant square at `pos`.
    pub fn empty(pos: Coord) -> (r: Piece)
        ensures
            r == Piece::vacancy(pos),
    {
        Piece { kind: PieceType::Empty, color: Color::White, pos }
    }
}

/// Why a command was turned down.
#[derive(Clone, Copy, Debug, PartialEq, Eq, Structural)]
pub enum MoveError {
    /// The piece does not move that way.
    InvalidMove,
    /// A piece stands between origin and destination.
    Blocked,
    /// The destination of a plain move is taken.
    Occupied,
    /// Nothing stands on the square to capture on.
    NoPieceThere,
    /// The square to capture on holds a king.
    CannotCaptureKing,
    /// The square to capture on holds a piece of the mover's side.
    SameColor,
    /// The move would leave the mover's king attacked.
    SelfCheck,
    /// More than one piece could make the move.
    AmbiguousMove,
    /// No piece of the kind and side asked for can make the move, and none
    /// gives a reason that says more.
    NoLegalMove,
    /// The side has given up its right to castle.
    CastleForfeited,
    /// A piece stands between the king and the corner it castles towards.
    CastleBlocked,
    /// The king stands on, passes or reaches an attacked square.
    CastleSquareThreatened,
    /// The text of a command has none of the known shapes.
    UnrecognizedCommand,
    /// The file letter of a square is none of `a` to `h`.
    InvalidColumn,
    /// The rank digit of a square is none of `1` to `8`.
    InvalidRow,
    /// The piece letter is none of `K`, `Q`, `R`, `B`, `N`.
    InvalidPieceType,
}

impl MoveError {
    /// The words in which the reason is told to the player.
    pub open spec fn text(self) -> Seq<char> {
        match self {
            MoveError::InvalidMove => "Invalid move"@,
            MoveError::Blocked => "There is a piece in the way"@,
            MoveError::Occupied => "There's a piece there"@,
            MoveError::NoPieceThere => "There is no piece there"@,
            MoveError::CannotCaptureKing => "Can't capture the king"@,
            MoveError::SameColor => "Can't capture piece of the same color"@,
            MoveError::SelfCheck => "The king is/would be in check!!!"@,
            MoveError::AmbiguousMove => "Specify the piece you want to move"@,
            MoveError::NoLegalMove => "No such piece can make that move"@,
            MoveError::CastleForfeited => "Can't castle: the right to castle is lost"@,
            MoveError::CastleBlocked => "Can't castle: there is a piece in the way"@,
            MoveError::CastleSquareThreatened =>
                "Can't castle: the king would cross an attacked square"@,
            MoveError::UnrecognizedCommand => "Invalid command"@,
            MoveError::InvalidColumn => "Invalid column"@,
            MoveError::InvalidRow => "Invalid row"@,
            MoveError::InvalidPieceType => "Invalid piece type"@,
        }
    }

    /// The words in which the reason is told to the player.
    pub fn message(&self) -> (r: &'static str)
        ensures
            r@ == self.text(),
    {
        match self {
            MoveError::InvalidMove => "Invalid move",
            MoveError::Blocked => "There is a piece in the way",
            MoveError::Occupied => "There's a piece there",
            MoveError::NoPieceThere => "There is no piece there",
            MoveError::CannotCaptureKing => "Can't capture the king",
            MoveError::SameColor => "Can't capture piece of the same color",
            MoveError::SelfCheck => "The king is/would be in check!!!",
            MoveError::AmbiguousMove => "Specify the piece you want to move",
            MoveError::NoLegalMove => "No such piece can make that move",
            MoveError::CastleForfeited => "Can't castle: the right to castle is lost",
            MoveError::CastleBlocked => "Can't castle: there is a piece in the way",
            MoveError::CastleSquareThreatened =>
                "Can't castle: the king would cross an attacked square",
            MoveError::UnrecognizedCommand => "Invalid command",
            MoveError::InvalidColumn => "Invalid column",
            MoveError::InvalidRow => "Invalid row",
            MoveError::InvalidPieceType => "Invalid piece type",
        }
    }
}

/// A command to the engine.
#[derive(Clone, Copy, Debug, PartialEq, Eq, Structural)]
pub enum Operation {
    /// A piece of the given kind and side goes to a vacant square.
    Move(PieceType, Coord, Color),
    /// A piece of the given kind and side takes what stands on a square.
    Capture(PieceType, Coord, Color),
    /// The side castles, on the queen's side if the flag is set.
    Castle(Color, bool),
    /// Input that could not be read as a command, with the reason.
    Invalid(MoveError),
}

impl Operation {
    /// The square a move or capture names is a square of the board.
    pub open spec fn well_formed(self) -> bool {
        match self {
            Operation::Move(_, target, _) => target.on_board(),
            Operation::Capture(_, target, _) => target.on_board(),
            _ => true,
        }
    }

    /// Decides `well_formed`.
    pub fn is_well_formed(&self) -> (r: bool)
        ensures
            r == self.well_formed(),
    {
        match self {
            Operation::Move(_, target, _) => target.is_on_board(),
            Operation::Capture(_, target, _) => target.is_on_board(),
            _ => true,
        }
    }
}

} // verus!
