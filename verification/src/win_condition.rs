//! Deciding whether a board holds three equal marks in a line.

use itertools::Itertools;
use vstd::prelude::*;
use vstd::seq_lib::seq_to_set_is_finite;
use crate::board::{Board, Cell, Grid, empty_grid, grid_wf};

verus! {

/// The integer that stands for a cell where cells are compared: a mark's
/// scalar value, and for the empty cell the first integer above every scalar
/// value. Different cells have different codes.
pub open spec fn cell_code(cell: Cell) -> u32 {
    match cell {
        Cell::Empty => 0x11_0000u32,
        Cell::Mark(c) => c as u32,
    }
}

/// A line is won when it has a cell, its first cell holds a mark, and every
/// cell equals the first.
pub open spec fn same_mark(cells: Seq<Cell>) -> bool {
    &&& cells.len() > 0
    &&& cells[0] is Mark
    &&& forall|i: int| 0 <= i < cells.len() ==> #[trigger] cells[i] == cells[0]
}

/// Column `c` of a grid, top to bottom.
pub open spec fn column(g: Grid, c: int) -> Seq<Cell> {
    Seq::new(3, |r: int| g[r][c])
}

/// The diagonal from the top left to the bottom right.
pub open spec fn diagonal(g: Grid) -> Seq<Cell> {
    Seq::new(3, |i: int| g[i][i])
}

/// The diagonal from the top right to the bottom left.
pub open spec fn anti_diagonal(g: Grid) -> Seq<Cell> {
    Seq::new(3, |i: int| g[i][2 - i])
}

/// Some row of the grid is won.
pub open spec fn row_win(g: Grid) -> bool {
    exists|r: int| 0 <= r < 3 && same_mark(#[trigger] g[r])
}

/// Some column of the grid is won.
pub open spec fn column_win(g: Grid) -> bool {
    exists|c: int| 0 <= c < 3 && same_mark(#[trigger] column(g, c))
}

/// One of the two diagonals of the grid is won.
pub open spec fn diagonal_win(g: Grid) -> bool {
    same_mark(diagonal(g)) || same_mark(anti_diagonal(g))
}

/// A grid is won when some row, column or diagonal is.
pub open spec fn winning(g: Grid) -> bool {
    row_win(g) || column_win(g) || diagonal_win(g)
}

/// The three cells at `a`, `b` and `c` hold one and the same mark.
pub open spec fn three_alike(g: Grid, a: (int, int), b: (int, int), c: (int, int)) -> bool {
    &&& g[a.0][a.1] is Mark
    &&& g[b.0][b.1] == g[a.0][a.1]
    &&& g[c.0][c.1] == g[a.0][a.1]
}

/// Calls `Itertools::unique` on the items of `codes` and counts what the
/// adaptor yields. The adaptor passes on the first occurrence of each value
/// and drops the later ones, so the count is the number of distinct values in
/// `codes`. This is taken from the itertools documentation, not proved.
#[verifier::external_body]
fn distinct_count(codes: &[u32]) -> (n: usize)
    ensures
        n == codes@.to_set().len(),
{
    codes.iter().unique().count()
}

/// A sequence has exactly one distinct value when it is non-empty and all its
/// items equal the first.
proof fn lemma_one_distinct_value(s: Seq<u32>)
    ensures
        s.to_set().len() == 1 <==> (s.len() > 0 && forall|i: int|
            0 <= i < s.len() ==> #[trigger] s[i] == s[0]),
{
    seq_to_set_is_finite(s);
    Set::lemma_is_singleton(s.to_set());
    s.lemma_cardinality_of_empty_set_is_0();
    if s.to_set().len() == 1 {
        assert forall|i: int| 0 <= i < s.len() implies #[trigger] s[i] == s[0] by {
            assert(s.to_set().contains(s[i]));
            assert(s.to_set().contains(s[0]));
        }
    }
}

/// A line of three cells is won when its first cell holds a mark and the two
/// others equal it.
proof fn lemma_same_mark_of_three(s: Seq<Cell>)
    requires
        s.len() == 3,
    ensures
        same_mark(s) <==> (s[0] is Mark && s[1] == s[0] && s[2] == s[0]),
{
}

/// Cells with the same code are the same cell.
proof fn lemma_cell_code_injective(a: Cell, b: Cell)
    ensures
        cell_code(a) == cell_code(b) <==> a == b,
{
}

/// The code of a cell.
fn code_of(cell: Cell) -> (code: u32)
    ensures
        code == cell_code(cell),
{
    match cell {
        Cell::Empty => 0x11_0000u32,
        Cell::Mark(c) => c as u32,
    }
}

/// Whether `row` has at least one cell and all its cells hold the one same
/// mark: the count of distinct cell values is 1, and that value is a mark.
pub fn unique_non_empty_row(row: &[Cell]) -> (won: bool)
    ensures
        won == same_mark(row@),
{
    let mut codes: Vec<u32> = Vec::new();
    let mut i: usize = 0;
    while i < row.len()
        invariant
            i <= row.len(),
            codes@.len() == i,
            forall|j: int| 0 <= j < i ==> codes@[j] == cell_code(#[trigger] row@[j]),
        decreases row.len() - i,
    {
        codes.push(code_of(row[i]));
        i += 1;
    }
    let distinct = distinct_count(codes.as_slice());
    proof {
        lemma_one_distinct_value(codes@);
        if same_mark(row@) {
            assert forall|j: int| 0 <= j < codes@.len() implies #[trigger] codes@[j]
                == codes@[0] by {
                assert(row@[j] == row@[0]);
            }
        }
        if distinct == 1 {
            assert forall|j: int| 0 <= j < row@.len() implies #[trigger] row@[j] == row@[0] by {
                lemma_cell_code_injective(row@[j], row@[0]);
            }
        }
    }
    if distinct == 1 {
        match row[0] {
            Cell::Empty => false,
            Cell::Mark(_) => true,
        }
    } else {
        false
    }
}

/// Whether some row of the board holds three equal marks.
pub fn is_row_win(board: Board) -> (won: bool)
    ensures
        won == row_win(board@),
{
    let mut won = false;
    let mut r: usize = 0;
    while r < 3
        invariant
            r <= 3,
            won == exists|k: int| 0 <= k < r && same_mark(#[trigger] board@[k]),
        decreases 3 - r,
    {
        let row: &[Cell] = &board.grid[r];
        assert(row@ == board@[r as int]);
        if unique_non_empty_row(row) {
            won = true;
        }
        r += 1;
    }
    won
}

/// Whether some column of the board holds three equal marks: the rows of the
/// transposed board are the columns of this one.
pub fn is_column_win(board: Board) -> (won: bool)
    ensures
        won == column_win(board@),
{
    let flipped = board.transpose();
    proof {
        assert forall|c: int| 0 <= c < 3 implies #[trigger] flipped@[c] == column(board@, c) by {
            assert(flipped@[c] =~= column(board@, c));
        }
        if row_win(flipped@) {
            let r = choose|r: int| 0 <= r < 3 && same_mark(#[trigger] flipped@[r]);
            assert(same_mark(column(board@, r)));
        }
        if column_win(board@) {
            let c = choose|c: int| 0 <= c < 3 && same_mark(#[trigger] column(board@, c));
            assert(same_mark(flipped@[c]));
        }
    }
    is_row_win(flipped)
}

/// Whether one of the two diagonals holds three equal marks.
pub fn is_diagonal_win(board: Board) -> (won: bool)
    ensures
        won == diagonal_win(board@),
{
    let mut right_diagonal: Vec<Cell> = Vec::new();
    let mut left_diagonal: Vec<Cell> = Vec::new();
    let mut x: usize = 0;
    while x < 3
        invariant
            x <= 3,
            right_diagonal@.len() == x,
            left_diagonal@.len() == x,
            forall|j: int| 0 <= j < x ==> right_diagonal@[j] == board@[j][j],
            forall|j: int| 0 <= j < x ==> left_diagonal@[j] == board@[j][2 - j],
        decreases 3 - x,
    {
        right_diagonal.push(board.grid[x][x]);
        left_diagonal.push(board.grid[x][2 - x]);
        x += 1;
    }
    assert(right_diagonal@ =~= diagonal(board@));
    assert(left_diagonal@ =~= anti_diagonal(board@));
    unique_non_empty_row(right_diagonal.as_slice()) || unique_non_empty_row(
        left_diagonal.as_slice(),
    )
}

/// Whether the board is won: three equal marks stand in a row, in a column
/// or on a diagonal.
pub fn is_winning_board(board: Board) -> (won: bool)
    ensures
        won == winning(board@),
{
    is_column_win(board) || is_row_win(board) || is_diagonal_win(board)
}

/// A well-formed grid is won exactly when one of its eight lines holds three
/// times the same mark.
pub proof fn winning_means_three_alike(g: Grid)
    requires
        grid_wf(g),
    ensures
        winning(g) <==> {
            ||| three_alike(g, (0, 0), (0, 1), (0, 2))
            ||| three_alike(g, (1, 0), (1, 1), (1, 2))
            ||| three_alike(g, (2, 0), (2, 1), (2, 2))
            ||| three_alike(g, (0, 0), (1, 0), (2, 0))
            ||| three_alike(g, (0, 1), (1, 1), (2, 1))
            ||| three_alike(g, (0, 2), (1, 2), (2, 2))
            ||| three_alike(g, (0, 0), (1, 1), (2, 2))
            ||| three_alike(g, (0, 2), (1, 1), (2, 0))
        },
{
    lemma_same_mark_of_three(g[0]);
    lemma_same_mark_of_three(g[1]);
    lemma_same_mark_of_three(g[2]);
    lemma_same_mark_of_three(column(g, 0));
    lemma_same_mark_of_three(column(g, 1));
    lemma_same_mark_of_three(column(g, 2));
    lemma_same_mark_of_three(diagonal(g));
    lemma_same_mark_of_three(anti_diagonal(g));
    assert(row_win(g) <==> same_mark(g[0]) || same_mark(g[1]) || same_mark(g[2]));
    assert(column_win(g) <==> same_mark(column(g, 0)) || same_mark(column(g, 1)) || same_mark(
        column(g, 2),
    ));
}

/// The grid without any mark is not won.
pub proof fn empty_grid_is_not_winning()
    ensures
        !winning(empty_grid()),
{
    winning_means_three_alike(empty_grid());
}

} // verus!
