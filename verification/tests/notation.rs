use chess_rules::notation::{parse_operation, to_coord};
use chess_rules::types::{Color, Coord, MoveError, Operation, PieceType};

fn sq(x: i8, y: i8) -> Coord {
    Coord { x, y }
}

#[test]
fn squares_are_read_by_file_letter_and_rank_digit() {
    assert_eq!(to_coord("a1"), Ok(sq(0, 0)));
    assert_eq!(to_coord("e4"), Ok(sq(4, 3)));
    assert_eq!(to_coord("h8"), Ok(sq(7, 7)));
    assert_eq!(to_coord("b7"), Ok(sq(1, 6)));
    assert_eq!(to_coord("g2"), Ok(sq(6, 1)));
}

#[test]
fn every_square_has_its_name() {
    let files = ['a', 'b', 'c', 'd', 'e', 'f', 'g', 'h'];
    let ranks = ['1', '2', '3', '4', '5', '6', '7', '8'];
    for x in 0..8 {
        for y in 0..8 {
            let name = format!("{}{}", files[x], ranks[y]);
            let coord = to_coord(&name).unwrap();
            assert_eq!(coord, sq(x as i8, y as i8));
            assert!(coord.is_on_board());
        }
    }
}

#[test]
fn a_bad_file_letter_is_an_invalid_column() {
    assert_eq!(to_coord("i1"), Err(MoveError::InvalidColumn));
    assert_eq!(to_coord("A1"), Err(MoveError::InvalidColumn));
    assert_eq!(to_coord("`1"), Err(MoveError::InvalidColumn));
    assert_eq!(to_coord("11"), Err(MoveError::InvalidColumn));
    assert_eq!(to_coord(" 1"), Err(MoveError::InvalidColumn));
    assert_eq!(to_coord("\u{e9}4"), Err(MoveError::InvalidColumn));
    // The file is looked at first.
    assert_eq!(to_coord("z9"), Err(MoveError::InvalidColumn));
}

#[test]
fn a_bad_rank_digit_is_an_invalid_row() {
    assert_eq!(to_coord("a0"), Err(MoveError::InvalidRow));
    assert_eq!(to_coord("a9"), Err(MoveError::InvalidRow));
    assert_eq!(to_coord("aa"), Err(MoveError::InvalidRow));
    assert_eq!(to_coord("h/"), Err(MoveError::InvalidRow));
    // A character whose low byte is that of a digit is no digit.
    assert_eq!(to_coord("a\u{131}"), Err(MoveError::InvalidRow));
}

#[test]
fn a_text_too_short_for_a_square_is_turned_down() {
    assert_eq!(to_coord(""), Err(MoveError::InvalidColumn));
    assert_eq!(to_coord("a"), Err(MoveError::InvalidRow));
    assert_eq!(to_coord("x"), Err(MoveError::InvalidColumn));
}

#[test]
fn what_follows_the_square_is_not_read() {
    assert_eq!(to_coord("e4\r\n"), Ok(sq(4, 3)));
    assert_eq!(to_coord("c6xyz"), Ok(sq(2, 5)));
}

#[test]
fn a_square_alone_moves_a_pawn() {
    assert_eq!(
        parse_operation("e4", Color::White),
        Operation::Move(PieceType::Pawn, sq(4, 3), Color::White)
    );
    assert_eq!(
        parse_operation("a6", Color::Black),
        Operation::Move(PieceType::Pawn, sq(0, 5), Color::Black)
    );
}

#[test]
fn a_piece_letter_and_a_square_move_that_piece() {
    let kinds = [
        ("K", PieceType::King),
        ("Q", PieceType::Queen),
        ("R", PieceType::Rook),
        ("B", PieceType::Bishop),
        ("N", PieceType::Knight),
    ];
    for (letter, kind) in kinds {
        assert_eq!(
            parse_operation(&format!("{}f3", letter), Color::White),
            Operation::Move(kind, sq(5, 2), Color::White)
        );
        assert_eq!(
            parse_operation(&format!("{}xd5", letter), Color::Black),
            Operation::Capture(kind, sq(3, 4), Color::Black)
        );
    }
}

#[test]
fn castling_is_written_with_os() {
    assert_eq!(parse_operation("O-O", Color::White), Operation::Castle(Color::White, false));
    assert_eq!(parse_operation("O-O", Color::Black), Operation::Castle(Color::Black, false));
    assert_eq!(parse_operation("O-O-O", Color::White), Operation::Castle(Color::White, true));
    assert_eq!(parse_operation("O-O-O", Color::Black), Operation::Castle(Color::Black, true));
}

#[test]
fn near_misses_of_castling_are_not_castling() {
    assert_eq!(
        parse_operation("0-0", Color::White),
        Operation::Invalid(MoveError::InvalidPieceType)
    );
    assert_eq!(
        parse_operation("o-o", Color::White),
        Operation::Invalid(MoveError::InvalidPieceType)
    );
    assert_eq!(
        parse_operation("O-0", Color::White),
        Operation::Invalid(MoveError::InvalidPieceType)
    );
    assert_eq!(
        parse_operation("O-O-0", Color::White),
        Operation::Invalid(MoveError::UnrecognizedCommand)
    );
    assert_eq!(
        parse_operation("O-O-", Color::White),
        Operation::Invalid(MoveError::UnrecognizedCommand)
    );
    assert_eq!(
        parse_operation("O-O-O-O", Color::White),
        Operation::Invalid(MoveError::UnrecognizedCommand)
    );
}

#[test]
fn an_unknown_piece_letter_is_reported() {
    assert_eq!(
        parse_operation("Xe4", Color::White),
        Operation::Invalid(MoveError::InvalidPieceType)
    );
    assert_eq!(
        parse_operation("Pe4", Color::White),
        Operation::Invalid(MoveError::InvalidPieceType)
    );
    assert_eq!(
        parse_operation("ne4", Color::White),
        Operation::Invalid(MoveError::InvalidPieceType)
    );
    assert_eq!(
        parse_operation("exd5", Color::White),
        Operation::Invalid(MoveError::InvalidPieceType)
    );
    // The piece letter is looked at before the square.
    assert_eq!(
        parse_operation("Xz9", Color::White),
        Operation::Invalid(MoveError::InvalidPieceType)
    );
    assert_eq!(
        parse_operation("Zxz9", Color::White),
        Operation::Invalid(MoveError::InvalidPieceType)
    );
}

#[test]
fn a_bad_square_in_a_command_is_reported() {
    assert_eq!(parse_operation("i4", Color::White), Operation::Invalid(MoveError::InvalidColumn));
    assert_eq!(parse_operation("e9", Color::White), Operation::Invalid(MoveError::InvalidRow));
    assert_eq!(parse_operation("Ni4", Color::White), Operation::Invalid(MoveError::InvalidColumn));
    assert_eq!(parse_operation("Ne0", Color::White), Operation::Invalid(MoveError::InvalidRow));
    assert_eq!(parse_operation("Qxj4", Color::White), Operation::Invalid(MoveError::InvalidColumn));
    assert_eq!(parse_operation("Qxa9", Color::White), Operation::Invalid(MoveError::InvalidRow));
    assert_eq!(
        parse_operation("\u{e9}4", Color::White),
        Operation::Invalid(MoveError::InvalidColumn)
    );
}

#[test]
fn other_shapes_are_not_commands() {
    for text in ["", "e", "Nf3+", "abcd", "e2e4", "Nbd7", "O-O-O+", "Qxd5#", "hello world"] {
        assert_eq!(
            parse_operation(text, Color::White),
            Operation::Invalid(MoveError::UnrecognizedCommand)
        );
    }
}

#[test]
fn the_end_of_the_line_is_not_part_of_a_command() {
    assert_eq!(
        parse_operation("e4\n", Color::White),
        Operation::Invalid(MoveError::InvalidPieceType)
    );
    assert_eq!(
        parse_operation("e4\r\n", Color::White),
        Operation::Invalid(MoveError::UnrecognizedCommand)
    );
}

#[test]
fn every_command_read_can_be_carried_out() {
    for text in ["e4", "Nf3", "Qxd5", "O-O", "O-O-O", "z4", "Ke9", "", "Rxa1", "Bh8", "a1", "h8"] {
        for turn in [Color::White, Color::Black] {
            assert!(parse_operation(text, turn).is_well_formed());
        }
    }
}
