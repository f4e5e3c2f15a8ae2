//! Reading commands written in shorthand: a square alone moves a pawn, a piece
//! letter and a square move that piece, an `x` between the two makes it a
//! capture, and `O-O` and `O-O-O` castle.

use vstd::prelude::*;
use vstd::string::StrSliceExecFns;
use crate::types::{Color, Coord, MoveError, Operation, PieceType};

verus! {

/// The file that a letter names: `a` to `h` are files 0 to 7.
pub open spec fn file_of(c: char) -> Option<i8> {
    if 'a' <= c <= 'h' {
        Some((c as int - 'a' as int) as i8)
    } else {
        None
    }
}

/// The rank that a digit names: `1` to `8` are ranks 0 to 7.
pub open spec fn rank_of(c: char) -> Option<i8> {
    if '1' <= c <= '8' {
        Some((c as int - '1' as int) as i8)
    } else {
        None
    }
}

/// The kind of piece that a letter names.
pub open spec fn kind_of(c: char) -> Option<PieceType> {
    if c == 'K' {
        Some(PieceType::King)
    } else if c == 'Q' {
        Some(PieceType::Queen)
    } else if c == 'R' {
        Some(PieceType::Rook)
    } else if c == 'B' {
        Some(PieceType::Bishop)
    } else if c == 'N' {
        Some(PieceType::Knight)
    } else {
        None
    }
}

/// The square that a text names by its first two characters, a file letter and
/// a rank digit. What follows them is not read.
pub open spec fn spec_to_coord(s: Seq<char>) -> Result<Coord, MoveError> {
    if s.len() < 1 || file_of(s[0]) is None {
        Err(MoveError::InvalidColumn)
    } else if s.len() < 2 || rank_of(s[1]) is None {
        Err(MoveError::InvalidRow)
    } else {
        Ok(Coord { x: file_of(s[0])->Some_0, y: rank_of(s[1])->Some_0 })
    }
}

/// A move or capture of `kind` to the square that `square` names, or the
/// reason why `square` names none.
pub open spec fn aimed(kind: PieceType, square: Seq<char>, turn: Color, capture: bool) -> Operation {
    match spec_to_coord(square) {
        Ok(target) => if capture {
            Operation::Capture(kind, target, turn)
        } else {
            Operation::Move(kind, target, turn)
        },
        Err(e) => Operation::Invalid(e),
    }
}

/// The command that the text `s` stands for when it is the turn of `turn`.
/// The text is the command alone, without the end of its line.
pub open spec fn spec_parse(s: Seq<char>, turn: Color) -> Operation {
    if s.len() == 2 {
        aimed(PieceType::Pawn, s, turn, false)
    } else if s.len() == 3 {
        if s == seq!['O', '-', 'O'] {
            Operation::Castle(turn, false)
        } else {
            match kind_of(s[0]) {
                Some(kind) => aimed(kind, s.subrange(1, 3), turn, false),
                None => Operation::Invalid(MoveError::InvalidPieceType),
            }
        }
    } else if s.len() == 4 && s[1] == 'x' {
        match kind_of(s[0]) {
            Some(kind) => aimed(kind, s.subrange(2, 4), turn, true),
            None => Operation::Invalid(MoveError::InvalidPieceType),
        }
    } else if s.len() == 5 && s == seq!['O', '-', 'O', '-', 'O'] {
        Operation::Castle(turn, true)
    } else {
        Operation::Invalid(MoveError::UnrecognizedCommand)
    }
}

fn file_from(c: char) -> (r: Option<i8>)
    ensures
        r == file_of(c),
{
    let code: u32 = c as u32;
    if 97 <= code && code <= 104 {
        Some((code - 97) as i8)
    } else {
        None
    }
}

fn rank_from(c: char) -> (r: Option<i8>)
    ensures
        r == rank_of(c),
{
    let code: u32 = c as u32;
    if 49 <= code && code <= 56 {
        Some((code - 49) as i8)
    } else {
        None
    }
}

fn kind_from(c: char) -> (r: Option<PieceType>)
    ensures
        r == kind_of(c),
{
    match c {
        'K' => Some(PieceType::King),
        'Q' => Some(PieceType::Queen),
        'R' => Some(PieceType::Rook),
        'B' => Some(PieceType::Bishop),
        'N' => Some(PieceType::Knight),
        _ => None,
    }
}

/// The square named by the `i`th and the following character of `text`.
fn square_at(text: &str, i: usize) -> (r: Result<Coord, MoveError>)
    requires
        i <= text@.len(),
    ensures
        r == spec_to_coord(text@.subrange(i as int, text@.len() as int)),
{
    let len: usize = text.unicode_len();
    if len - i < 1 {
        return Err(MoveError::InvalidColumn);
    }
    let x: i8 = match file_from(text.get_char(i)) {
        Some(x) => x,
        None => {
            return Err(MoveError::InvalidColumn);
        },
    };
    if len - i < 2 {
        return Err(MoveError::InvalidRow);
    }
    let y: i8 = match rank_from(text.get_char(i + 1)) {
        Some(y) => y,
        None => {
            return Err(MoveError::InvalidRow);
        },
    };
    Ok(Coord { x, y })
}

/// Reads a square such as `e4`. The result is a square of the board; a first
/// character that is no file letter gives `InvalidColumn`, a second that is no
/// rank digit gives `InvalidRow`.
pub fn to_coord(pos: &str) -> (r: Result<Coord, MoveError>)
    ensures
        r == spec_to_coord(pos@),
        r matches Ok(c) ==> c.on_board(),
{
    square_at(pos, 0)
}

/// Reads a command. Whatever the text, the result is a command that
/// `process` takes: a square it names is a square of the board.
pub fn parse_operation(command: &str, turn: Color) -> (op: Operation)
    ensures
        op == spec_parse(command@, turn),
        op.well_formed(),
{
    let len: usize = command.unicode_len();
    if len == 2 {
        return match square_at(command, 0) {
            Ok(target) => Operation::Move(PieceType::Pawn, target, turn),
            Err(e) => Operation::Invalid(e),
        };
    }
    if len == 3 {
        let first = command.get_char(0);
        if first == 'O' && command.get_char(1) == '-' && command.get_char(2) == 'O' {
            assert(command@ == seq!['O', '-', 'O']);
            return Operation::Castle(turn, false);
        }
        return match kind_from(first) {
            Some(kind) => match square_at(command, 1) {
                Ok(target) => Operation::Move(kind, target, turn),
                Err(e) => Operation::Invalid(e),
            },
            None => Operation::Invalid(MoveError::InvalidPieceType),
        };
    }
    if len == 4 && command.get_char(1) == 'x' {
        return match kind_from(command.get_char(0)) {
            Some(kind) => match square_at(command, 2) {
                Ok(target) => Operation::Capture(kind, target, turn),
                Err(e) => Operation::Invalid(e),
            },
            None => Operation::Invalid(MoveError::InvalidPieceType),
        };
    }
    if len == 5 && command.get_char(0) == 'O' && command.get_char(1) == '-' && command.get_char(2)
        == 'O' && command.get_char(3) == '-' && command.get_char(4) == 'O' {
        assert(command@ == seq!['O', '-', 'O', '-', 'O']);
        return Operation::Castle(turn, true);
    }
    Operation::Invalid(MoveError::UnrecognizedCommand)
}

} // verus!
