use chess_rules::board::{new_board, Board};
use chess_rules::legality::{can_check, path_clear, valid_move};
use chess_rules::types::{Color, Coord, Piece, PieceType};

const KINDS: [PieceType; 7] = [
    PieceType::King,
    PieceType::Queen,
    PieceType::Rook,
    PieceType::Bishop,
    PieceType::Knight,
    PieceType::Pawn,
    PieceType::Empty,
];

fn sq(x: i8, y: i8) -> Coord {
    Coord { x, y }
}

fn piece(kind: PieceType, color: Color, x: i8, y: i8) -> Piece {
    Piece { kind, color, pos: sq(x, y) }
}

fn position(pieces: &[Piece]) -> Board {
    let mut board = new_board();
    for x in 0..8 {
        for y in 0..8 {
            board.board[x][y] = Piece::empty(sq(x as i8, y as i8));
        }
    }
    for p in pieces {
        board.board[p.pos.x as usize][p.pos.y as usize] = *p;
        if p.kind == PieceType::King {
            board.kings[p.color.index()] = p.pos;
        }
    }
    board.can_castle = [false, false];
    assert!(board.is_wf());
    board
}

/// The squares a piece on d4 may go to, by the way it moves alone.
fn reach(kind: PieceType, color: Color) -> Vec<(i8, i8)> {
    let p = piece(kind, color, 3, 3);
    let mut out = vec![];
    for x in 0..8 {
        for y in 0..8 {
            if valid_move(&p, &sq(x, y)) {
                out.push((x, y));
            }
        }
    }
    out
}

#[test]
fn no_piece_moves_to_its_own_square() {
    for kind in KINDS {
        for color in [Color::White, Color::Black] {
            for x in 0..8 {
                for y in 0..8 {
                    assert!(!valid_move(&piece(kind, color, x, y), &sq(x, y)));
                }
            }
        }
    }
}

#[test]
fn rook_moves_along_ranks_and_files() {
    let mut expected = vec![];
    for x in 0..8 {
        for y in 0..8 {
            if (x == 3) != (y == 3) {
                expected.push((x, y));
            }
        }
    }
    assert_eq!(expected.len(), 14);
    assert_eq!(reach(PieceType::Rook, Color::White), expected);
    assert_eq!(reach(PieceType::Rook, Color::Black), expected);
}

#[test]
fn bishop_moves_along_diagonals() {
    let expected = vec![
        (0, 0),
        (0, 6),
        (1, 1),
        (1, 5),
        (2, 2),
        (2, 4),
        (4, 2),
        (4, 4),
        (5, 1),
        (5, 5),
        (6, 0),
        (6, 6),
        (7, 7),
    ];
    assert_eq!(reach(PieceType::Bishop, Color::White), expected);
}

#[test]
fn queen_moves_like_rook_and_bishop() {
    let mut expected = reach(PieceType::Rook, Color::White);
    expected.extend(reach(PieceType::Bishop, Color::White));
    expected.sort();
    assert_eq!(expected.len(), 27);
    assert_eq!(reach(PieceType::Queen, Color::Black), expected);
}

#[test]
fn knight_moves_in_hooks() {
    let expected = vec![(1, 2), (1, 4), (2, 1), (2, 5), (4, 1), (4, 5), (5, 2), (5, 4)];
    assert_eq!(reach(PieceType::Knight, Color::White), expected);
}

#[test]
fn white_pawn_advances_one_rank() {
    assert_eq!(reach(PieceType::Pawn, Color::White), vec![(3, 4)]);
}

#[test]
fn black_pawn_advances_one_rank_down() {
    assert_eq!(reach(PieceType::Pawn, Color::Black), vec![(3, 2)]);
}

#[test]
fn pawn_has_no_double_step_and_no_diagonal() {
    let pawn = piece(PieceType::Pawn, Color::White, 4, 1);
    assert!(valid_move(&pawn, &sq(4, 2)));
    assert!(!valid_move(&pawn, &sq(4, 3)));
    assert!(!valid_move(&pawn, &sq(5, 2)));
    assert!(!valid_move(&pawn, &sq(3, 2)));
    assert!(!valid_move(&pawn, &sq(4, 0)));
    let pawn = piece(PieceType::Pawn, Color::Black, 4, 6);
    assert!(valid_move(&pawn, &sq(4, 5)));
    assert!(!valid_move(&pawn, &sq(4, 4)));
    assert!(!valid_move(&pawn, &sq(3, 5)));
    assert!(!valid_move(&pawn, &sq(4, 7)));
}

#[test]
fn king_steps_to_each_neighbour() {
    let king = piece(PieceType::King, Color::White, 3, 3);
    for (dx, dy) in [(-1, -1), (-1, 0), (-1, 1), (0, -1), (0, 1), (1, -1), (1, 0), (1, 1)] {
        assert!(valid_move(&king, &sq(3 + dx, 3 + dy)));
    }
}

#[test]
fn king_rule_asks_one_step_on_one_axis_only() {
    // One file aside and any number of ranks away counts, and the other way round.
    let mut expected = vec![];
    for x in 0i8..8 {
        for y in 0i8..8 {
            if (x - 3).abs() == 1 || (y - 3).abs() == 1 {
                expected.push((x, y));
            }
        }
    }
    assert_eq!(expected.len(), 28);
    assert_eq!(reach(PieceType::King, Color::Black), expected);
    let king = piece(PieceType::King, Color::White, 1, 1);
    assert!(valid_move(&king, &sq(2, 6)));
    assert!(valid_move(&king, &sq(7, 0)));
    assert!(!valid_move(&king, &sq(3, 3)));
    assert!(!valid_move(&king, &sq(1, 3)));
}

#[test]
fn a_vacancy_never_moves() {
    assert_eq!(reach(PieceType::Empty, Color::White), vec![]);
    assert_eq!(reach(PieceType::Empty, Color::Black), vec![]);
}

#[test]
fn valid_move_takes_squares_off_the_board() {
    let rook = piece(PieceType::Rook, Color::White, 0, 0);
    assert!(valid_move(&rook, &sq(0, 127)));
    assert!(valid_move(&rook, &sq(-128, 0)));
    assert!(!valid_move(&rook, &sq(-128, 127)));
    let far = piece(PieceType::Bishop, Color::White, 127, 127);
    assert!(valid_move(&far, &sq(-128, -128)));
    let knight = piece(PieceType::Knight, Color::Black, 127, -128);
    assert!(!valid_move(&knight, &sq(-128, 127)));
    assert!(valid_move(&knight, &sq(126, -126)));
}

#[test]
fn knight_path_is_clear_everywhere() {
    let board = new_board();
    for x in 0..8 {
        for y in 0..8 {
            for tx in -2..10 {
                for ty in -2..10 {
                    let knight = piece(PieceType::Knight, Color::White, x, y);
                    assert!(path_clear(&knight, &sq(tx, ty), &board));
                }
            }
        }
    }
}

#[test]
fn vacancy_path_is_clear_nowhere() {
    let board = position(&[
        piece(PieceType::King, Color::White, 0, 0),
        piece(PieceType::King, Color::Black, 7, 7),
    ]);
    for x in 0..8 {
        for y in 0..8 {
            for tx in -2..10 {
                for ty in -2..10 {
                    let vacancy = piece(PieceType::Empty, Color::White, x, y);
                    assert!(!path_clear(&vacancy, &sq(tx, ty), &board));
                }
            }
        }
    }
}

#[test]
fn path_does_not_count_its_ends() {
    let board = new_board();
    let rook = board.board[0][0];
    // a2 is taken, but it is the end of the path from a1.
    assert!(path_clear(&rook, &sq(0, 1), &board));
    // From a1 to a3 the pawn on a2 stands between.
    assert!(!path_clear(&rook, &sq(0, 2), &board));
    assert!(!path_clear(&rook, &sq(0, 7), &board));
    // From a1 to c1 the knight on b1 stands between.
    assert!(!path_clear(&rook, &sq(2, 0), &board));
}

#[test]
fn path_along_a_diagonal() {
    let board = new_board();
    let bishop = board.board[2][0];
    assert!(path_clear(&bishop, &sq(3, 1), &board));
    assert!(!path_clear(&bishop, &sq(4, 2), &board));
    let pawn = board.board[3][1];
    // From d2 the diagonal to h6 is free.
    let as_bishop = Piece { kind: PieceType::Bishop, ..pawn };
    assert!(path_clear(&as_bishop, &sq(7, 5), &board));
    assert!(path_clear(&as_bishop, &sq(0, 4), &board));
}

#[test]
fn path_across_an_open_board() {
    let board = position(&[
        piece(PieceType::King, Color::White, 4, 0),
        piece(PieceType::King, Color::Black, 4, 7),
        piece(PieceType::Rook, Color::White, 0, 0),
        piece(PieceType::Queen, Color::Black, 3, 3),
    ]);
    let rook = board.board[0][0];
    assert!(path_clear(&rook, &sq(0, 7), &board));
    assert!(path_clear(&rook, &sq(4, 0), &board));
    assert!(!path_clear(&rook, &sq(5, 0), &board));
    let queen = board.board[3][3];
    assert!(path_clear(&queen, &sq(0, 0), &board));
    assert!(path_clear(&queen, &sq(7, 7), &board));
    assert!(path_clear(&queen, &sq(3, 0), &board));
    assert!(path_clear(&queen, &sq(0, 6), &board));
}

#[test]
fn a_path_that_leaves_the_board_is_not_clear() {
    let board = position(&[
        piece(PieceType::King, Color::White, 6, 0),
        piece(PieceType::King, Color::Black, 0, 7),
    ]);
    let king = board.board[6][0];
    // One file aside, five ranks up: the steps go g1, h2, then off the board.
    assert!(valid_move(&king, &sq(7, 5)));
    assert!(!path_clear(&king, &sq(7, 5), &board));
    assert!(!can_check(&king, &sq(7, 5), &board));
    // One file aside, two ranks up: the one step between is h2.
    assert!(path_clear(&king, &sq(7, 2), &board));
    assert!(can_check(&king, &sq(7, 2), &board));
}

#[test]
fn a_target_off_the_board_has_a_path_of_board_squares_only() {
    let board = position(&[
        piece(PieceType::King, Color::White, 4, 0),
        piece(PieceType::King, Color::Black, 4, 7),
        piece(PieceType::Rook, Color::White, 0, 0),
    ]);
    let rook = board.board[0][0];
    // Up the a-file every square from a2 to a8 is vacant; a9 is the end.
    assert!(path_clear(&rook, &sq(0, 8), &board));
    // One further the path holds a9, which is no square of the board.
    assert!(!path_clear(&rook, &sq(0, 9), &board));
    assert!(!path_clear(&rook, &sq(0, 127), &board));
    assert!(!path_clear(&rook, &sq(0, -2), &board));
}

#[test]
fn can_check_asks_for_the_move_and_the_way() {
    let board = new_board();
    let rook = board.board[0][7];
    // The rook on a8 moves along the file, but its own pawn is in the way.
    assert!(!can_check(&rook, &sq(0, 0), &board));
    assert!(can_check(&rook, &sq(0, 6), &board));
    assert!(!can_check(&rook, &sq(1, 6), &board));
    let knight = board.board[1][7];
    assert!(can_check(&knight, &sq(2, 5), &board));
    assert!(can_check(&knight, &sq(3, 6), &board));
    assert!(!can_check(&knight, &sq(1, 5), &board));
}

#[test]
fn a_vacancy_attacks_nothing() {
    let board = new_board();
    for x in 0..8 {
        for y in 0..8 {
            let vacancy = piece(PieceType::Empty, Color::White, 4, 3);
            assert!(!can_check(&vacancy, &sq(x, y), &board));
        }
    }
}
