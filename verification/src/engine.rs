//! The simulation engine: one generation of the Game of Life on a flattened
//! square board.
//!
//! A board is a sequence of cells, `true` for alive. The cell in row `row`
//! and column `col` of a board of side `size` sits at index
//! `row * size + col`.
//!
//! Neighbours are found by linear offset, not by row and column: the eight
//! neighbours of index `i` are `i ± 1`, `i ± size`, `i ± (size - 1)` and
//! `i ± (size + 1)`, and an offset that leaves the board counts as dead. The
//! board does not wrap around. Away from the first and the last column this
//! is the usual neighbourhood of eight adjacent cells, cut off at the top and
//! bottom rows (`lemma_neighbors_are_adjacent_cells`). A cell in the first
//! column has no column to its left: in its place it sees the last cell of
//! its own row and of the two rows above. A cell in the last column likewise
//! sees the first cell of its own row and of the two rows below.

use vstd::prelude::*;

verus! {

/// The linear index of the cell in row `row` and column `col` of a board of
/// side `size`.
pub open spec fn cell_index(size: int, row: int, col: int) -> int {
    row * size + col
}

/// The number of cells of a board of side `size`.
pub open spec fn board_len(size: int) -> nat {
    (size * size) as nat
}

/// The board of side `size` on which every cell is dead.
pub open spec fn dead_board(size: int) -> Seq<bool> {
    Seq::new(board_len(size), |index: int| false)
}

/// What the cell at `position` adds to a neighbour count: 1 if `position` is
/// on the board and alive there, 0 if it is dead or off the board.
pub open spec fn live_at(board: Seq<bool>, position: int) -> int {
    if 0 <= position < board.len() && board[position] {
        1
    } else {
        0
    }
}

/// The number of live cells among the eight linear neighbours of `index`.
pub open spec fn live_neighbors(board: Seq<bool>, size: int, index: int) -> int {
    live_at(board, index - size - 1) + live_at(board, index - size) + live_at(
        board,
        index - size + 1,
    ) + live_at(board, index - 1) + live_at(board, index + 1) + live_at(board, index + size - 1)
        + live_at(board, index + size) + live_at(board, index + size + 1)
}

/// The rule of the game: a live cell stays alive with two or three live
/// neighbours, a dead cell comes alive with exactly three.
pub open spec fn alive_after(alive: bool, neighbors: int) -> bool {
    if alive {
        neighbors == 2 || neighbors == 3
    } else {
        neighbors == 3
    }
}

/// The state of the cell at `index` one generation later.
pub open spec fn next_cell(board: Seq<bool>, size: int, index: int) -> bool {
    alive_after(board[index], live_neighbors(board, size, index))
}

/// The board one generation later: every cell advanced at once from `board`.
pub open spec fn next_generation(board: Seq<bool>, size: int) -> Seq<bool> {
    Seq::new(board.len(), |index: int| next_cell(board, size, index))
}

/// What the cell in row `row` and column `col` adds to a neighbour count: 1
/// if the position lies on the square and the cell there is alive, else 0.
pub open spec fn live_at_position(board: Seq<bool>, size: int, row: int, col: int) -> int {
    if 0 <= row < size && 0 <= col < size {
        live_at(board, cell_index(size, row, col))
    } else {
        0
    }
}

/// The number of live cells among the eight positions that touch row `row`,
/// column `col` on the square.
pub open spec fn live_adjacent(board: Seq<bool>, size: int, row: int, col: int) -> int {
    live_at_position(board, size, row - 1, col - 1) + live_at_position(board, size, row - 1, col)
        + live_at_position(board, size, row - 1, col + 1) + live_at_position(
        board,
        size,
        row,
        col - 1,
    ) + live_at_position(board, size, row, col + 1) + live_at_position(
        board,
        size,
        row + 1,
        col - 1,
    ) + live_at_position(board, size, row + 1, col) + live_at_position(
        board,
        size,
        row + 1,
        col + 1,
    )
}

/// Where the cells around row `row`, column `col` sit in the flattened board:
/// the rows above and below are `size` cells away, the first row starts at
/// index 0, and the last row ends where the board ends.
pub proof fn lemma_cell_index_layout(size: int, row: int, col: int)
    by (nonlinear_arith)
    requires
        0 <= row < size,
        0 <= col < size,
    ensures
        cell_index(size, row - 1, col) == cell_index(size, row, col) - size,
        cell_index(size, row + 1, col) == cell_index(size, row, col) + size,
        0 <= cell_index(size, row, col) < size * size,
        row == 0 ==> cell_index(size, row, col) == col,
        1 <= row ==> size <= cell_index(size, row, col) - col,
        row + 1 == size ==> cell_index(size, row, col) - col + size == size * size,
        row + 1 < size ==> cell_index(size, row, col) - col + 2 * size <= size * size,
{
}

/// Away from the first and the last column, the linear neighbours of a cell
/// are the cells that touch it on the square: every cell of a board of side
/// `size` that has a column on either side counts as its live neighbours
/// exactly the live cells adjacent to it, in whichever row it lies.
pub proof fn lemma_neighbors_are_adjacent_cells(board: Seq<bool>, size: int, row: int, col: int)
    requires
        board.len() == size * size,
        0 <= row < size,
        1 <= col,
        col + 1 < size,
    ensures
        live_neighbors(board, size, cell_index(size, row, col)) == live_adjacent(
            board,
            size,
            row,
            col,
        ),
{
    lemma_cell_index_layout(size, row, col);
    let center = cell_index(size, row, col);
    assert(cell_index(size, row, col - 1) == center - 1);
    assert(cell_index(size, row, col + 1) == center + 1);
    assert(cell_index(size, row - 1, col - 1) == center - size - 1);
    assert(cell_index(size, row - 1, col + 1) == center - size + 1);
    assert(cell_index(size, row + 1, col - 1) == center + size - 1);
    assert(cell_index(size, row + 1, col + 1) == center + size + 1);
}

/// Reads one neighbour: 1 for a live cell, 0 for a dead cell and for a
/// position off the board.
fn live_count_at(tiles: &[bool], position: i128) -> (count: u8)
    ensures
        count == live_at(tiles@, position as int),
{
    if position < 0 || position >= tiles.len() as i128 {
        0
    } else if tiles[position as usize] {
        1
    } else {
        0
    }
}

/// Counts the live cells among the eight linear neighbours of `index`.
pub fn count_live_neighbors(tiles: &[bool], board_size: i32, index: usize) -> (count: u8)
    ensures
        count == live_neighbors(tiles@, board_size as int, index as int),
        count <= 8,
{
    let center: i128 = index as i128;
    let size: i128 = board_size as i128;
    live_count_at(tiles, center - size - 1) + live_count_at(tiles, center - size) + live_count_at(
        tiles,
        center - size + 1,
    ) + live_count_at(tiles, center - 1) + live_count_at(tiles, center + 1) + live_count_at(
        tiles,
        center + size - 1,
    ) + live_count_at(tiles, center + size) + live_count_at(tiles, center + size + 1)
}

/// Applies the rule of the game to one cell.
pub fn apply_rule(alive: bool, neighbors: u8) -> (next: bool)
    ensures
        next == alive_after(alive, neighbors as int),
{
    if alive {
        neighbors == 2 || neighbors == 3
    } else {
        neighbors == 3
    }
}

/// Computes the next generation of `tiles`.
///
/// The result has the length of `tiles`, and its cell at each index is the
/// rule applied to the old cell and its old live neighbours. `tiles` is left
/// as it was. Every board and every `board_size` is accepted; a board of the
/// simulator has `board_size * board_size` cells.
pub fn step(tiles: &[bool], board_size: i32) -> (next: Vec<bool>)
    ensures
        next@ == next_generation(tiles@, board_size as int),
{
    let mut next: Vec<bool> = Vec::with_capacity(tiles.len());
    let mut index: usize = 0;
    while index < tiles.len()
        invariant
            index <= tiles.len(),
            next@.len() == index,
            forall|j: int| 0 <= j < index ==> next@[j] == next_cell(tiles@, board_size as int, j),
        decreases tiles.len() - index,
    {
        let neighbors: u8 = count_live_neighbors(tiles, board_size, index);
        next.push(apply_rule(tiles[index], neighbors));
        index += 1;
    }
    next
}

} // verus!
