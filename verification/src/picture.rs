//! The board drawn as text: a frame of seventeen lines, the eighth rank on
//! top, each square one character wide.

use vstd::prelude::*;
use crate::board::Board;

verus! {

/// The number of characters in a line of the picture, the line feed included.
pub const LINE: usize = 18;

/// The number of lines of the picture.
pub const LINES: usize = 17;

/// The character of a line of the frame at column `col`. `edge` tells the
/// line: 0 for the top, 2 for the bottom, 1 for a line between two ranks.
pub open spec fn frame_char(edge: int, col: int) -> char {
    if col == 0 {
        if edge == 0 {
            '\u{250c}'
        } else if edge == 2 {
            '\u{2514}'
        } else {
            '\u{251c}'
        }
    } else if col == 16 {
        if edge == 0 {
            '\u{2510}'
        } else if edge == 2 {
            '\u{2518}'
        } else {
            '\u{2524}'
        }
    } else if col % 2 == 1 {
        '\u{2500}'
    } else if edge == 0 {
        '\u{252c}'
    } else if edge == 2 {
        '\u{2534}'
    } else {
        '\u{253c}'
    }
}

/// The character at line `row`, column `col` of the picture of `board`. Even
/// lines belong to the frame. Odd lines show a rank, from the eighth down to
/// the first: bars in the even columns, the symbols of the pieces on files 0
/// to 7 in the odd ones. Every line ends in a line feed.
pub open spec fn picture_char(board: Board, row: int, col: int) -> char {
    if col == 17 {
        '\n'
    } else if row % 2 == 0 {
        frame_char(
            if row == 0 {
                0
            } else if row == 16 {
                2
            } else {
                1
            },
            col,
        )
    } else if col % 2 == 0 {
        '\u{2502}'
    } else {
        board.square((col - 1) / 2, 7 - (row - 1) / 2).symbol() as char
    }
}

/// The picture of `board`, line after line.
pub open spec fn picture(board: Board) -> Seq<char> {
    Seq::new((LINES * LINE) as nat, |k: int| picture_char(board, k / 18, k % 18))
}

fn frame_at(edge: usize, col: usize) -> (c: char)
    requires
        edge <= 2,
        col <= 16,
    ensures
        c == frame_char(edge as int, col as int),
{
    if col == 0 {
        if edge == 0 {
            '\u{250c}'
        } else if edge == 2 {
            '\u{2514}'
        } else {
            '\u{251c}'
        }
    } else if col == 16 {
        if edge == 0 {
            '\u{2510}'
        } else if edge == 2 {
            '\u{2518}'
        } else {
            '\u{2524}'
        }
    } else if col % 2 == 1 {
        '\u{2500}'
    } else if edge == 0 {
        '\u{252c}'
    } else if edge == 2 {
        '\u{2534}'
    } else {
        '\u{253c}'
    }
}

/// Draws the board.
pub fn render(board: &Board) -> (out: Vec<char>)
    ensures
        out@ == picture(*board),
{
    let mut out: Vec<char> = Vec::new();
    let mut row: usize = 0;
    while row < LINES
        invariant
            row <= LINES,
            out@.len() == row * 18,
            forall|k: int| 0 <= k < out@.len() ==> out@[k] == picture_char(*board, k / 18, k % 18),
        decreases LINES - row,
    {
        let mut col: usize = 0;
        while col < LINE
            invariant
                row < LINES,
                col <= LINE,
                out@.len() == row * 18 + col,
                forall|k: int|
                    0 <= k < out@.len() ==> out@[k] == picture_char(*board, k / 18, k % 18),
            decreases LINE - col,
        {
            let c = if col == 17 {
                '\n'
            } else if row % 2 == 0 {
                frame_at(
                    if row == 0 {
                        0
                    } else if row == 16 {
                        2
                    } else {
                        1
                    },
                    col,
                )
            } else if col % 2 == 0 {
                '\u{2502}'
            } else {
                board.board[(col - 1) / 2][7 - (row - 1) / 2].glyph()
            };
            out.push(c);
            col = col + 1;
        }
        row = row + 1;
    }
    out
}

} // verus!
