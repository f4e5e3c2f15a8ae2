use chess_rules::board::new_board;
use chess_rules::game::Game;
use chess_rules::types::{Color, Coord, MoveError, Operation, Piece, PieceType};

fn sq(x: i8, y: i8) -> Coord {
    Coord { x, y }
}

fn piece(kind: PieceType, color: Color, x: i8, y: i8) -> Piece {
    Piece { kind, color, pos: sq(x, y) }
}

#[test]
fn a_new_game_starts_with_white() {
    let game = Game::new();
    assert_eq!(game.turn, Color::White);
    assert_eq!(game.board, new_board());
    assert!(game.board.is_wf());
}

#[test]
fn a_move_made_passes_the_turn() {
    let mut game = Game::new();
    assert_eq!(game.play("e3"), Ok(()));
    assert_eq!(game.turn, Color::Black);
    assert_eq!(game.board.board[4][2], piece(PieceType::Pawn, Color::White, 4, 2));
    assert_eq!(game.play("e6"), Ok(()));
    assert_eq!(game.turn, Color::White);
    assert_eq!(game.board.board[4][5], piece(PieceType::Pawn, Color::Black, 4, 5));
    assert_eq!(game.board.board[4][6], Piece::empty(sq(4, 6)));
}

#[test]
fn a_command_turned_down_keeps_the_turn() {
    let mut game = Game::new();
    let before = game;
    assert_eq!(game.play("e4"), Err(MoveError::NoLegalMove));
    assert_eq!(game, before);
    assert_eq!(game.play("nonsense"), Err(MoveError::UnrecognizedCommand));
    assert_eq!(game.play("Xe4"), Err(MoveError::InvalidPieceType));
    assert_eq!(game.play("e9"), Err(MoveError::InvalidRow));
    assert_eq!(game.play("k3"), Err(MoveError::InvalidColumn));
    assert_eq!(game.play("O-O"), Err(MoveError::CastleBlocked));
    assert_eq!(game.play("Ra3"), Err(MoveError::Blocked));
    assert_eq!(game.play("Qxd2"), Err(MoveError::SameColor));
    assert_eq!(game.play("Qxd7"), Err(MoveError::Blocked));
    assert_eq!(game.play("Qxd5"), Err(MoveError::NoPieceThere));
    assert_eq!(game.play("Qxe8"), Err(MoveError::CannotCaptureKing));
    assert_eq!(game, before);
    assert_eq!(game.turn, Color::White);
}

#[test]
fn the_side_to_move_is_the_side_that_moves() {
    let mut game = Game::new();
    // White to move: the pawn that goes to e3 is white's, and no white pawn
    // reaches e6.
    assert_eq!(game.play("e6"), Err(MoveError::NoLegalMove));
    assert_eq!(game.play("e3"), Ok(()));
    // Black to move.
    assert_eq!(game.play("d3"), Err(MoveError::NoLegalMove));
    assert_eq!(game.play("d6"), Ok(()));
    assert_eq!(game.turn, Color::White);
}

#[test]
fn both_sides_castle_in_an_opening() {
    let mut game = Game::new();
    for command in ["e3", "e6", "Be2", "Be7", "Nf3", "Nf6", "O-O", "O-O"] {
        assert_eq!(game.play(command), Ok(()));
        assert!(game.board.is_wf());
    }
    assert_eq!(game.turn, Color::White);
    assert_eq!(game.board.board[6][0], piece(PieceType::King, Color::White, 6, 0));
    assert_eq!(game.board.board[5][0], piece(PieceType::Rook, Color::White, 5, 0));
    assert_eq!(game.board.board[6][7], piece(PieceType::King, Color::Black, 6, 7));
    assert_eq!(game.board.board[5][7], piece(PieceType::Rook, Color::Black, 5, 7));
    assert_eq!(game.board.kings, [sq(6, 7), sq(6, 0)]);
    assert_eq!(game.board.can_castle, [false, false]);
    assert_eq!(game.play("O-O-O"), Err(MoveError::CastleForfeited));
    assert_eq!(game.turn, Color::White);
}

#[test]
fn a_capture_in_a_game() {
    let mut game = Game::new();
    for command in ["Nc3", "e6", "Nd5", "e5", "Nxc7"] {
        assert_eq!(game.play(command), Ok(()));
    }
    assert_eq!(game.turn, Color::Black);
    assert_eq!(game.board.board[2][6], piece(PieceType::Knight, Color::White, 2, 6));
    // The knight on c7 attacks e8: black may not leave the king there.
    assert_eq!(game.play("a6"), Err(MoveError::SelfCheck));
    // The queen takes the knight.
    assert_eq!(game.play("Qxc7"), Ok(()));
    assert_eq!(game.board.board[2][6], piece(PieceType::Queen, Color::Black, 2, 6));
    assert_eq!(game.board.board[3][7], Piece::empty(sq(3, 7)));
    assert_eq!(game.play("Nf3"), Ok(()));
    assert_eq!(game.play("a6"), Ok(()));
}

#[test]
fn apply_takes_a_command_in_structured_form() {
    let mut game = Game::new();
    assert_eq!(game.apply(Operation::Move(PieceType::Knight, sq(5, 2), Color::White)), Ok(()));
    assert_eq!(game.turn, Color::Black);
    assert_eq!(
        game.apply(Operation::Invalid(MoveError::UnrecognizedCommand)),
        Err(MoveError::UnrecognizedCommand)
    );
    assert_eq!(game.turn, Color::Black);
}
