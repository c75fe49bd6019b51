//! The players of a game: what a player must offer, and two players that need
//! no input.

use vstd::prelude::*;
use crate::board::Board;
use crate::error::GameError;

verus! {

/// What a game asks of a player: the mark it places, and a choice of cell for
/// the board in front of it. The trait promises nothing of either answer, so
/// that a player may read its choice from anywhere; the game works with
/// whatever it is given. A player type may promise more of its own answers.
pub trait Player: Copy {
    /// The mark that stands for this player on the board.
    fn get_sign(&self) -> (sign: char);

    /// The cell this player wants to mark on `board`, or the reason why it
    /// names none.
    fn get_coordinate(&self, board: Board) -> (choice: Result<(usize, usize), GameError>);
}

/// A player that follows a script instead of a strategy: whatever the board
/// shows, it asks for the top left cell.
#[derive(Clone, Copy, Debug, PartialEq, Eq)]
pub struct BotPlayer {
    pub sign: char,
}

impl Player for BotPlayer {
    fn get_sign(&self) -> (sign: char)
        ensures
            sign == self.sign,
    {
        self.sign
    }

    fn get_coordinate(&self, _board: Board) -> (choice: Result<(usize, usize), GameError>)
        ensures
            choice == Ok::<(usize, usize), GameError>((0usize, 0usize)),
    {
        Ok((0, 0))
    }
}

/// A player without any way to choose: asked for a coordinate, it fails with
/// `NotImplemented`. It stands in where a game's handling of a failed turn is
/// to be exercised without input.
#[derive(Clone, Copy, Debug, PartialEq, Eq)]
pub struct StubPlayer {
    pub sign: char,
}

impl Player for StubPlayer {
    fn get_sign(&self) -> (sign: char)
        ensures
            sign == self.sign,
    {
        self.sign
    }

    fn get_coordinate(&self, _board: Board) -> (choice: Result<(usize, usize), GameError>)
        ensures
            choice == Err::<(usize, usize), GameError>(GameError::NotImplemented),
    {
        Err(GameError::NotImplemented)
    }
}

} // verus!
