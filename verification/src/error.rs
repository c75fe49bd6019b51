//! The ways a turn can fail.

use vstd::prelude::*;

verus! {

/// Why a turn could not be carried out. None of these ends the game: the same
/// player is asked again.
#[derive(Clone, Copy, Debug, PartialEq, Eq, Structural)]
pub enum GameError {
    /// A coordinate component lies outside `0..=2`.
    OutOfBounds,
    /// The chosen cell already holds a mark.
    CellOccupied,
    /// The player's input could not be read as a coordinate.
    InvalidInput,
    /// The player has no strategy to choose a coordinate with.
    NotImplemented,
}

impl GameError {
    /// What the message for this error reads.
    pub open spec fn text(self) -> Seq<char> {
        match self {
            GameError::OutOfBounds => "Coordinate is out of bounds"@,
            GameError::CellOccupied => "Cell is already occupied"@,
            GameError::InvalidInput => "Invalid input"@,
            GameError::NotImplemented => "Not implemented"@,
        }
    }

    /// The message to show a player for this error.
    pub fn message(&self) -> (message: &'static str)
        ensures
            message@ == self.text(),
    {
        match self {
            GameError::OutOfBounds => "Coordinate is out of bounds",
            GameError::CellOccupied => "Cell is already occupied",
            GameError::InvalidInput => "Invalid input",
            GameError::NotImplemented => "Not implemented",
        }
    }
}

} // verus!
