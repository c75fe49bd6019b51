//! The 3x3 grid and the operations that produce new grids from it.

use vstd::prelude::*;
use vstd::string::StringExecFns;
use crate::error::GameError;

verus! {

/// What one position of the grid holds. A cell that holds a mark keeps it:
/// nothing is taken back.
#[derive(Clone, Copy, Debug, PartialEq, Eq, Structural)]
pub enum Cell {
    /// No player has marked this cell.
    Empty,
    /// A player has put this character here.
    Mark(char),
}

/// The mathematical model of a board: rows of cells, row-major.
pub type Grid = Seq<Seq<Cell>>;

/// A grid is well formed when it has three rows of three cells.
pub open spec fn grid_wf(g: Grid) -> bool {
    g.len() == 3 && forall|r: int| 0 <= r < 3 ==> (#[trigger] g[r]).len() == 3
}

/// The grid in which no cell holds a mark.
pub open spec fn empty_grid() -> Grid {
    Seq::new(3, |r: int| Seq::new(3, |c: int| Cell::Empty))
}

/// The grid `g` with `cell` written at `(row, col)`.
pub open spec fn grid_with(g: Grid, row: int, col: int, cell: Cell) -> Grid {
    g.update(row, g[row].update(col, cell))
}

/// The grid whose rows are the columns of `g`.
pub open spec fn transposed(g: Grid) -> Grid {
    Seq::new(3, |r: int| Seq::new(3, |c: int| g[c][r]))
}

/// A coordinate names a cell when both components are at most 2.
pub open spec fn in_bounds(coordinate: (usize, usize)) -> bool {
    coordinate.0 <= 2 && coordinate.1 <= 2
}

/// The character a cell is drawn with: its mark, or `-` where it is empty.
pub open spec fn cell_symbol(cell: Cell) -> char {
    match cell {
        Cell::Empty => '-',
        Cell::Mark(c) => c,
    }
}

/// The digit that a row is labelled with.
pub open spec fn row_label(r: int) -> char {
    if r == 0 {
        '0'
    } else if r == 1 {
        '1'
    } else {
        '2'
    }
}

/// The line of text that shows row `r`: its label, then its three cells
/// between bars.
pub open spec fn row_text(g: Grid, r: int) -> Seq<char> {
    seq![row_label(r)] + "   "@ + seq![cell_symbol(g[r][0])] + " | "@ + seq![cell_symbol(g[r][1])]
        + " | "@ + seq![cell_symbol(g[r][2])] + "\n"@
}

/// The text that shows a grid: a line of column labels, then the three rows
/// with a rule between them.
pub open spec fn rendered(g: Grid) -> Seq<char> {
    "    0   1   2\n"@ + row_text(g, 0) + "   ---+---+---\n"@ + row_text(g, 1)
        + "   ---+---+---\n"@ + row_text(g, 2)
}

/// Writing a cell changes that cell and no other.
pub proof fn grid_with_changes_one_cell(g: Grid, row: int, col: int, cell: Cell)
    requires
        grid_wf(g),
        0 <= row < 3,
        0 <= col < 3,
    ensures
        grid_wf(grid_with(g, row, col, cell)),
        grid_with(g, row, col, cell)[row][col] == cell,
        forall|r: int, c: int|
            0 <= r < 3 && 0 <= c < 3 && (r != row || c != col) ==> #[trigger] grid_with(
                g,
                row,
                col,
                cell,
            )[r][c] == g[r][c],
{
}

/// Transposing twice gives the grid back.
pub proof fn transposed_twice(g: Grid)
    requires
        grid_wf(g),
    ensures
        transposed(transposed(g)) == g,
{
    assert forall|r: int| 0 <= r < 3 implies #[trigger] transposed(transposed(g))[r] == g[r] by {
        assert(transposed(transposed(g))[r] =~= g[r]);
    }
}

/// `String::push` puts the character at the end of the string and leaves
/// what stood before it as it was.
#[verifier::external_body]
fn push_char(text: &mut String, c: char)
    ensures
        final(text)@ == old(text)@.push(c),
{
    text.push(c);
}

impl Cell {
    /// The character this cell is drawn with.
    pub fn symbol(&self) -> (c: char)
        ensures
            c == cell_symbol(*self),
    {
        match self {
            Cell::Empty => '-',
            Cell::Mark(c) => *c,
        }
    }
}

/// A snapshot of the playing field. Placing a mark does not change a board:
/// it yields a new one.
#[derive(Clone, Copy, Debug, PartialEq, Eq)]
pub struct Board {
    /// The cells, row by row: `grid[row][col]`.
    pub grid: [[Cell; 3]; 3],
}

impl View for Board {
    type V = Grid;

    open spec fn view(&self) -> Grid {
        Seq::new(3, |r: int| self.grid[r]@)
    }
}

impl Board {
    /// The model of a board is a well-formed grid.
    pub proof fn view_is_wf(self)
        ensures
            grid_wf(self@),
    {
    }

    /// Two boards with the same model are the same board.
    pub proof fn view_is_injective(self, other: Board)
        requires
            self@ == other@,
        ensures
            self == other,
    {
        assert forall|r: int| 0 <= r < 3 implies self.grid[r] == other.grid[r] by {
            assert(self@[r] == other@[r]);
            assert(self.grid[r] =~= other.grid[r]);
        }
        assert(self.grid =~= other.grid);
    }

    /// The board on which nothing has been placed yet.
    pub fn new() -> (board: Board)
        ensures
            board@ == empty_grid(),
    {
        let board = Board { grid: [[Cell::Empty; 3]; 3] };
        assert(board@ =~~= empty_grid());
        board
    }

    /// Places `value` at `coordinate`, given as `(row, col)`, and gives the
    /// board that results: this board with that one cell marked. This board
    /// itself stays as it is. A coordinate with a component above 2 is out
    /// of bounds, whatever the cells hold; a cell that holds a mark already
    /// cannot take another.
    pub fn add_value(&self, coordinate: (usize, usize), value: char) -> (result: Result<
        Board,
        GameError,
    >)
        ensures
            !in_bounds(coordinate) ==> result == Err::<Board, GameError>(GameError::OutOfBounds),
            in_bounds(coordinate) && self@[coordinate.0 as int][coordinate.1 as int] is Mark
                ==> result == Err::<Board, GameError>(GameError::CellOccupied),
            in_bounds(coordinate) && self@[coordinate.0 as int][coordinate.1 as int] is Empty
                ==> result is Ok && result->Ok_0@ == grid_with(
                    self@, coordinate.0 as int, coordinate.1 as int, Cell::Mark(value)),
    {
        let (row, col) = coordinate;
        if row > 2 || col > 2 {
            return Err(GameError::OutOfBounds);
        }
        match self.grid[row][col] {
            Cell::Mark(_) => Err(GameError::CellOccupied),
            Cell::Empty => {
                let mut grid = self.grid;
                grid[row][col] = Cell::Mark(value);
                let board = Board { grid };
                Ok(board)
            },
        }
    }

    /// The board whose rows are the columns of this one.
    pub fn transpose(&self) -> (board: Board)
        ensures
            board@ == transposed(self@),
    {
        let g = &self.grid;
        let board = Board {
            grid: [
                [g[0][0], g[1][0], g[2][0]],
                [g[0][1], g[1][1], g[2][1]],
                [g[0][2], g[1][2], g[2][2]],
            ],
        };
        assert(board@ =~~= transposed(self@));
        board
    }

    /// Adds the line that shows row `index` of this board to `text`.
    fn render_row(&self, text: &mut String, index: usize)
        requires
            index < 3,
        ensures
            final(text)@ == old(text)@ + row_text(self@, index as int),
    {
        let label = if index == 0 {
            '0'
        } else if index == 1 {
            '1'
        } else {
            '2'
        };
        let row = &self.grid[index];
        push_char(text, label);
        text.append("   ");
        push_char(text, row[0].symbol());
        text.append(" | ");
        push_char(text, row[1].symbol());
        text.append(" | ");
        push_char(text, row[2].symbol());
        text.append("\n");
    }

    /// The board as text: a line of column labels, then the rows, each
    /// behind its label, with a rule between them. An empty cell shows as
    /// `-`, any other as its mark.
    pub fn render(&self) -> (text: String)
        ensures
            text@ == rendered(self@),
    {
        let mut text = String::new();
        text.append("    0   1   2\n");
        self.render_row(&mut text, 0);
        text.append("   ---+---+---\n");
        self.render_row(&mut text, 1);
        text.append("   ---+---+---\n");
        self.render_row(&mut text, 2);
        text
    }
}

} // verus!
