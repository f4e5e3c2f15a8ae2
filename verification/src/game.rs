//! A game in progress: the position and the side whose turn it is.

use vstd::prelude::*;
use crate::board::{new_board, Board};
use crate::notation::{parse_operation, spec_parse};
use crate::resolver::process;
use crate::types::{Color, MoveError, Operation};

verus! {

/// A game in progress. The side to move is the side in whose name `play`
/// reads the next command; it changes when a command succeeds and stays when
/// one is turned down.
#[derive(Clone, Copy, Debug, PartialEq, Eq)]
pub struct Game {
    pub board: Board,
    pub turn: Color,
}

impl Game {
    /// The position is in order.
    pub open spec fn wf(self) -> bool {
        self.board.wf()
    }

    /// What a command makes of the game: a command that succeeds changes the
    /// position and passes the turn; one that is turned down changes nothing.
    pub open spec fn step(self, operation: Operation) -> Result<Game, MoveError> {
        match self.board.outcome(operation) {
            Ok(after) => Ok(Game { board: after, turn: self.turn.opposite() }),
            Err(e) => Err(e),
        }
    }

    /// A new game: the starting position, White to move.
    pub fn new() -> (game: Game)
        ensures
            game.board.is_initial(),
            game.turn == Color::White,
            game.wf(),
    {
        Game { board: new_board(), turn: Color::White }
    }

    /// Carries out a command and passes the turn if it succeeded. The command
    /// itself says which side moves.
    pub fn apply(&mut self, operation: Operation) -> (res: Result<(), MoveError>)
        requires
            old(self).wf(),
            operation.well_formed(),
        ensures
            match old(self).step(operation) {
                Ok(after) => res is Ok && *final(self) == after,
                Err(e) => res == Err::<(), MoveError>(e) && *final(self) == *old(self),
            },
            final(self).wf(),
    {
        let res = process(&mut self.board, operation);
        if res.is_ok() {
            self.turn = self.turn.not();
        }
        res
    }

    /// Reads a command written in shorthand as one of the side to move, and
    /// carries it out.
    pub fn play(&mut self, command: &str) -> (res: Result<(), MoveError>)
        requires
            old(self).wf(),
        ensures
            match old(self).step(spec_parse(command@, old(self).turn)) {
                Ok(after) => res is Ok && *final(self) == after,
                Err(e) => res == Err::<(), MoveError>(e) && *final(self) == *old(self),
            },
            final(self).wf(),
    {
        let operation = parse_operation(command, self.turn);
        self.apply(operation)
    }
}

} // verus!
