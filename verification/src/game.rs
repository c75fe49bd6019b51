//! The state of a game and its turn-by-turn transition.

use vstd::prelude::*;
use crate::board::{Board, Cell, empty_grid, grid_with, grid_with_changes_one_cell, in_bounds};
use crate::error::GameError;
use crate::players::Player;
use crate::win_condition::{is_winning_board, winning};

verus! {

/// Which player of the pair is to move.
#[derive(Clone, Copy, Debug, PartialEq, Eq, Structural)]
pub enum Turn {
    First,
    Second,
}

impl Turn {
    /// The turn of the other player.
    pub open spec fn other(self) -> Turn {
        match self {
            Turn::First => Turn::Second,
            Turn::Second => Turn::First,
        }
    }

    /// Passes the turn on to the other player.
    pub fn toggled(self) -> (next: Turn)
        ensures
            next == self.other(),
    {
        match self {
            Turn::First => Turn::Second,
            Turn::Second => Turn::First,
        }
    }
}

/// What one step of the game did, for the caller to show.
#[derive(Clone, Copy, Debug, PartialEq, Eq, Structural)]
pub enum Outcome {
    /// The game had ended before: nothing was asked and nothing changed.
    GameOver,
    /// The current player's mark was placed and the turn passed on.
    Placed,
    /// The turn failed and nothing changed: the same player moves again.
    Rejected(GameError),
}

/// A snapshot of a game. A turn does not change a snapshot: it yields the
/// next one.
pub struct Game<T: Player> {
    pub board: Board,
    pub players: (T, T),
    pub current_player: Turn,
    pub is_over: bool,
}

impl<T: Player> Game<T> {
    /// The player who is to move.
    pub open spec fn current(&self) -> T {
        match self.current_player {
            Turn::First => self.players.0,
            Turn::Second => self.players.1,
        }
    }

    /// Whether `sign` and `choice` are answers that the player who is to move
    /// may give when asked for its mark and for a coordinate on this board.
    pub open spec fn answers(&self, sign: char, choice: Result<(usize, usize), GameError>) -> bool {
        &&& call_ensures(T::get_sign, (&self.current(),), sign)
        &&& call_ensures(T::get_coordinate, (&self.current(), self.board), choice)
    }

    /// Whether `next` and `outcome` are what this game becomes and reports
    /// when its current player, whose mark is `sign`, answers `choice`.
    pub open spec fn turn(
        &self,
        sign: char,
        choice: Result<(usize, usize), GameError>,
        next: Game<T>,
        outcome: Outcome,
    ) -> bool {
        if self.is_over {
            next == *self && outcome == Outcome::GameOver
        } else {
            match choice {
                Err(e) => next == *self && outcome == Outcome::Rejected(e),
                Ok(coordinate) => if !in_bounds(coordinate) {
                    next == *self && outcome == Outcome::Rejected(GameError::OutOfBounds)
                } else if self.board@[coordinate.0 as int][coordinate.1 as int] is Mark {
                    next == *self && outcome == Outcome::Rejected(GameError::CellOccupied)
                } else {
                    &&& outcome == Outcome::Placed
                    &&& next.board@ == grid_with(
                        self.board@,
                        coordinate.0 as int,
                        coordinate.1 as int,
                        Cell::Mark(sign),
                    )
                    &&& next.players == self.players
                    &&& next.current_player == self.current_player.other()
                    &&& next.is_over == winning(next.board@)
                },
            }
        }
    }

    /// Only a placement changes a game. After any other outcome the next
    /// snapshot is the one before. After a placement the game was not over,
    /// the chosen cell was in bounds and empty, it now holds the mark, and
    /// every other cell is as it was.
    pub proof fn only_placement_changes_the_game(
        self,
        sign: char,
        choice: Result<(usize, usize), GameError>,
        next: Game<T>,
        outcome: Outcome,
    )
        requires
            self.turn(sign, choice, next, outcome),
        ensures
            outcome != Outcome::Placed ==> next == self,
            outcome == Outcome::Placed ==> {
                &&& !self.is_over
                &&& choice is Ok
                &&& in_bounds(choice->Ok_0)
                &&& self.board@[choice->Ok_0.0 as int][choice->Ok_0.1 as int] == Cell::Empty
                &&& next.board@[choice->Ok_0.0 as int][choice->Ok_0.1 as int] == Cell::Mark(sign)
                &&& forall|r: int, c: int|
                    0 <= r < 3 && 0 <= c < 3 && (r != choice->Ok_0.0 || c != choice->Ok_0.1)
                        ==> #[trigger] next.board@[r][c] == self.board@[r][c]
            },
    {
        if outcome == Outcome::Placed {
            self.board.view_is_wf();
            grid_with_changes_one_cell(
                self.board@,
                choice->Ok_0.0 as int,
                choice->Ok_0.1 as int,
                Cell::Mark(sign),
            );
        }
    }

    /// A game at its start: an empty board, the first player of the pair to
    /// move, not over.
    pub fn new(players: (T, T)) -> (game: Game<T>)
        ensures
            game.board@ == empty_grid(),
            game.players == players,
            game.current_player == Turn::First,
            !game.is_over,
    {
        let board = Board::new();
        let current_player = Turn::First;
        let is_over = false;
        Game { board, current_player, players, is_over }
    }

    /// The snapshot that follows a placement: the same board and players, the
    /// other player to move, and over exactly when the board is won.
    pub fn next_turn(&self) -> (next: Game<T>)
        ensures
            next.board == self.board,
            next.players == self.players,
            next.current_player == self.current_player.other(),
            next.is_over == winning(self.board@),
    {
        Game {
            board: self.board,
            is_over: is_winning_board(self.board),
            players: self.players,
            current_player: self.current_player.toggled(),
        }
    }

    /// A copy of this snapshot.
    fn snapshot(&self) -> (same: Game<T>)
        ensures
            same == *self,
    {
        Game {
            board: self.board,
            players: self.players,
            current_player: self.current_player,
            is_over: self.is_over,
        }
    }

    /// Carries out a turn, given the mark and the choice of the player who is
    /// to move. A game that is over stays as it is. So does one whose player
    /// answered with an error, with a coordinate out of bounds or with an
    /// occupied cell, and the error is reported. Otherwise `sign` is placed
    /// at the chosen cell, the game is over exactly when the new board is
    /// won, and the turn passes on.
    pub fn resolve(&self, sign: char, choice: Result<(usize, usize), GameError>) -> (result: (
        Game<T>,
        Outcome,
    ))
        ensures
            self.turn(sign, choice, result.0, result.1),
    {
        if self.is_over {
            return (self.snapshot(), Outcome::GameOver);
        }
        match choice {
            Err(e) => (self.snapshot(), Outcome::Rejected(e)),
            Ok(coordinate) => match self.board.add_value(coordinate, sign) {
                Err(e) => (self.snapshot(), Outcome::Rejected(e)),
                Ok(board) => {
                    let placed = Game {
                        board,
                        players: self.players,
                        is_over: self.is_over,
                        current_player: self.current_player,
                    };
                    (placed.next_turn(), Outcome::Placed)
                },
            },
        }
    }

    /// One step of the game. A game that is over stays as it is, and says so.
    /// Otherwise the player who is to move is asked for a coordinate and for
    /// its mark, and the turn is carried out with the answers, whatever they
    /// are: the result is that of `resolve` on answers that this player may
    /// give.
    pub fn advance(&self) -> (result: (Game<T>, Outcome))
        ensures
            self.is_over ==> result.0 == *self && result.1 == Outcome::GameOver,
            !self.is_over ==> exists|sign: char, choice: Result<(usize, usize), GameError>|
                self.answers(sign, choice) && #[trigger] self.turn(
                    sign,
                    choice,
                    result.0,
                    result.1,
                ),
    {
        if self.is_over {
            (self.snapshot(), Outcome::GameOver)
        } else {
            match self.current_player {
                Turn::First => {
                    let choice = self.players.0.get_coordinate(self.board);
                    self.resolve(self.players.0.get_sign(), choice)
                },
                Turn::Second => {
                    let choice = self.players.1.get_coordinate(self.board);
                    self.resolve(self.players.1.get_sign(), choice)
                },
            }
        }
    }
}

} // verus!
