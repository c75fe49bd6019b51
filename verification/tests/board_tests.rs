use tic_tac_toe::board::{Board, Cell};
use tic_tac_toe::error::GameError;

const O: Cell = Cell::Mark('O');
const X: Cell = Cell::Mark('X');
const E: Cell = Cell::Empty;

#[test]
fn new_board_has_nine_empty_cells() {
    assert_eq!(Board::new(), Board { grid: [[E; 3]; 3] });
}

#[test]
fn add_value_changes_only_the_chosen_cell() {
    let board = Board { grid: [[O, E, X], [E, X, E], [E, E, O]] };
    let result = board.add_value((1, 2), 'O').unwrap();
    assert_eq!(result, Board { grid: [[O, E, X], [E, X, O], [E, E, O]] });
    assert_eq!(board, Board { grid: [[O, E, X], [E, X, E], [E, E, O]] });
}

#[test]
fn add_value_reaches_every_cell() {
    for row in 0..3 {
        for col in 0..3 {
            let result = Board::new().add_value((row, col), 'X').unwrap();
            for r in 0..3 {
                for c in 0..3 {
                    let expected = if (r, c) == (row, col) { X } else { E };
                    assert_eq!(result.grid[r][c], expected);
                }
            }
        }
    }
}

#[test]
fn add_value_with_row_or_col_above_two_is_out_of_bounds() {
    let board = Board::new();
    assert_eq!(board.add_value((3, 0), 'X'), Err(GameError::OutOfBounds));
    assert_eq!(board.add_value((0, 3), 'X'), Err(GameError::OutOfBounds));
    assert_eq!(board.add_value((3, 3), 'X'), Err(GameError::OutOfBounds));
    assert_eq!(board.add_value((usize::MAX, 1), 'X'), Err(GameError::OutOfBounds));
    assert_eq!(board.add_value((1, usize::MAX), 'X'), Err(GameError::OutOfBounds));
}

#[test]
fn add_value_out_of_bounds_wins_over_occupied() {
    let board = Board { grid: [[X; 3]; 3] };
    assert_eq!(board.add_value((0, 5), 'O'), Err(GameError::OutOfBounds));
}

#[test]
fn add_value_into_marked_cell_is_occupied() {
    let board = Board { grid: [[X; 3], [E; 3], [E; 3]] };
    assert_eq!(board.add_value((0, 0), 'X'), Err(GameError::CellOccupied));
    assert_eq!(board.add_value((0, 2), 'O'), Err(GameError::CellOccupied));
    assert_eq!(board, Board { grid: [[X; 3], [E; 3], [E; 3]] });
}

#[test]
fn a_dash_placed_as_mark_occupies_its_cell() {
    let board = Board::new().add_value((1, 1), '-').unwrap();
    assert_eq!(board.grid[1][1], Cell::Mark('-'));
    assert_eq!(board.add_value((1, 1), 'X'), Err(GameError::CellOccupied));
}

#[test]
fn transpose_swaps_rows_and_columns() {
    let board = Board { grid: [[O, X, E], [E, O, X], [X, E, O]] };
    assert_eq!(board.transpose(), Board { grid: [[O, E, X], [X, O, E], [E, X, O]] });
    assert_eq!(board.transpose().transpose(), board);
}

#[test]
fn symbol_of_a_cell() {
    assert_eq!(E.symbol(), '-');
    assert_eq!(X.symbol(), 'X');
    assert_eq!(Cell::Mark('q').symbol(), 'q');
}

#[test]
fn render_of_the_empty_board() {
    let expected = "    0   1   2\n\
                    0   - | - | -\n\
                    \x20  ---+---+---\n\
                    1   - | - | -\n\
                    \x20  ---+---+---\n\
                    2   - | - | -\n";
    assert_eq!(Board::new().render(), expected);
}

#[test]
fn render_shows_each_mark_in_its_place() {
    let board = Board { grid: [[O, X, E], [E, O, X], [X, E, O]] };
    let mut expected = String::new();
    expected.push_str("    0   1   2\n");
    expected.push_str("0   O | X | -\n");
    expected.push_str("   ---+---+---\n");
    expected.push_str("1   - | O | X\n");
    expected.push_str("   ---+---+---\n");
    expected.push_str("2   X | - | O\n");
    assert_eq!(board.render(), expected);
}

#[test]
fn message_of_each_error() {
    assert_eq!(GameError::OutOfBounds.message(), "Coordinate is out of bounds");
    assert_eq!(GameError::CellOccupied.message(), "Cell is already occupied");
    assert_eq!(GameError::InvalidInput.message(), "Invalid input");
    assert_eq!(GameError::NotImplemented.message(), "Not implemented");
}
