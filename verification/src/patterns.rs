//! Well-known patterns of the game, and what one generation does to them.
//!
//! The patterns are boards of side `size` with a handful of live cells, given
//! by the row and column of the pattern. The lemmas state how the engine's
//! `next_generation` treats them.

use crate::engine::{
    board_len, cell_index, dead_board, lemma_cell_index_layout, live_neighbors, next_cell,
    next_generation,
};
use vstd::prelude::*;

verus! {

/// The board of side `size` whose only live cell is the one in row `row` and
/// column `col`.
pub open spec fn lone_cell(size: int, row: int, col: int) -> Seq<bool> {
    Seq::new(board_len(size), |index: int| index == cell_index(size, row, col))
}

/// The board of side `size` whose only live cells are the two-by-two block
/// with its upper left corner in row `row` and column `col`.
pub open spec fn block(size: int, row: int, col: int) -> Seq<bool> {
    Seq::new(
        board_len(size),
        |index: int|
            index == cell_index(size, row, col) || index == cell_index(size, row, col + 1) || index
                == cell_index(size, row + 1, col) || index == cell_index(size, row + 1, col + 1),
    )
}

/// The board of side `size` whose only live cells are three in a row, the
/// middle one in row `row` and column `col`.
pub open spec fn blinker_row(size: int, row: int, col: int) -> Seq<bool> {
    Seq::new(
        board_len(size),
        |index: int|
            index == cell_index(size, row, col - 1) || index == cell_index(size, row, col) || index
                == cell_index(size, row, col + 1),
    )
}

/// The board of side `size` whose only live cells are three in a column, the
/// middle one in row `row` and column `col`.
pub open spec fn blinker_column(size: int, row: int, col: int) -> Seq<bool> {
    Seq::new(
        board_len(size),
        |index: int|
            index == cell_index(size, row - 1, col) || index == cell_index(size, row, col) || index
                == cell_index(size, row + 1, col),
    )
}

/// No spontaneous life: a board on which every cell is dead stays as it is,
/// whatever its length and side.
pub proof fn lemma_dead_board_stays_dead(board: Seq<bool>, size: int)
    requires
        forall|index: int| 0 <= index < board.len() ==> !board[index],
    ensures
        next_generation(board, size) == board,
{
    assert forall|index: int| 0 <= index < board.len() implies next_cell(board, size, index)
        == board[index] by {
        assert(live_neighbors(board, size, index) == 0);
    }
}

/// The all-dead board of side `size` is its own next generation.
pub proof fn lemma_dead_board_of_side_stays_dead(size: int)
    ensures
        next_generation(dead_board(size), size) == dead_board(size),
{
    lemma_dead_board_stays_dead(dead_board(size), size);
}

/// Underpopulation: a live cell none of whose neighbours is alive is dead one
/// generation later.
pub proof fn lemma_lonely_cell_dies(board: Seq<bool>, size: int, index: int)
    requires
        0 <= index < board.len(),
        board[index],
        live_neighbors(board, size, index) == 0,
    ensures
        !next_generation(board, size)[index],
{
}

/// A board with a single live cell dies out: on a board of side 2 or more,
/// one generation takes the board with one live cell to the all-dead board.
pub proof fn lemma_lone_cell_dies_out(size: int, row: int, col: int)
    requires
        2 <= size,
        0 <= row < size,
        0 <= col < size,
    ensures
        next_generation(lone_cell(size, row, col), size) == dead_board(size),
{
    let board = lone_cell(size, row, col);
    lemma_cell_index_layout(size, row, col);
    assert forall|index: int| 0 <= index < board.len() implies !next_cell(board, size, index) by {
    }
}

/// A two-by-two block is a still life: on a board of side 4 or more, a block
/// that fits on the board is its own next generation, wherever it lies.
pub proof fn lemma_block_is_still_life(size: int, row: int, col: int)
    requires
        4 <= size,
        0 <= row,
        row + 1 < size,
        0 <= col,
        col + 1 < size,
    ensures
        next_generation(block(size, row, col), size) == block(size, row, col),
{
    let board = block(size, row, col);
    lemma_cell_index_layout(size, row, col);
    lemma_cell_index_layout(size, row, col + 1);
    lemma_cell_index_layout(size, row + 1, col);
    lemma_cell_index_layout(size, row + 1, col + 1);
    assert forall|index: int| 0 <= index < board.len() implies next_cell(board, size, index)
        == board[index] by {
    }
}

/// A blinker has period two: on a board of side 4 or more, three live cells
/// in a row that touch no edge of the board become three in a column through
/// the same middle cell, and those become the three in a row again. The two
/// boards differ.
pub proof fn lemma_blinker_has_period_two(size: int, row: int, col: int)
    requires
        4 <= size,
        1 <= row,
        row + 1 < size,
        1 <= col,
        col + 1 < size,
    ensures
        next_generation(blinker_row(size, row, col), size) == blinker_column(size, row, col),
        next_generation(blinker_column(size, row, col), size) == blinker_row(size, row, col),
        next_generation(next_generation(blinker_row(size, row, col), size), size) == blinker_row(
            size,
            row,
            col,
        ),
        next_generation(blinker_row(size, row, col), size) != blinker_row(size, row, col),
{
    let flat = blinker_row(size, row, col);
    let upright = blinker_column(size, row, col);
    let center = cell_index(size, row, col);
    lemma_cell_index_layout(size, row, col);
    assert(cell_index(size, row, col - 1) == center - 1);
    assert(cell_index(size, row, col + 1) == center + 1);
    assert forall|index: int| 0 <= index < flat.len() implies next_cell(flat, size, index)
        == upright[index] by {
    }
    assert(next_generation(flat, size) =~= upright);
    assert forall|index: int| 0 <= index < upright.len() implies next_cell(upright, size, index)
        == flat[index] by {
    }
    assert(next_generation(upright, size) =~= flat);
    assert(flat[center - 1] && !upright[center - 1]);
}

} // verus!
