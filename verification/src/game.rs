//! The generation transition of the game of life: the standard rule (a live
//! cell survives on 2 or 3 live neighbors, a dead cell is born on exactly 3,
//! every other cell is dead in the next generation), applied to every cell of
//! the current board to produce a brand-new board of the same size. Every
//! next state is computed from the current generation's readings alone.

use vstd::prelude::*;

verus! {

use crate::board::{Board, Cell, all_dead, alive_at, in_bounds, live_neighbor_count};

/// The state the cell at `(x, y)` takes in the next generation: a live cell
/// survives exactly on 2 or 3 live neighbors, a dead cell is born exactly on
/// 3, and every other cell is dead.
pub open spec fn next_cell_state(g: Seq<Seq<Cell>>, size: nat, x: int, y: int) -> Cell {
    let n = live_neighbor_count(g, size, x, y);
    if alive_at(g, x, y) {
        if n == 2 || n == 3 {
            Cell::Alive
        } else {
            Cell::Dead
        }
    } else {
        if n == 3 {
            Cell::Alive
        } else {
            Cell::Dead
        }
    }
}

/// The whole next generation: every cell of the `size x size` grid under
/// [`next_cell_state`], read exclusively from the current grid `g`.
pub open spec fn next_board_state(g: Seq<Seq<Cell>>, size: nat) -> Seq<Seq<Cell>> {
    Seq::new(size, |y: int| Seq::new(size, |x: int| next_cell_state(g, size, x, y)))
}

/// Computes the next state of one cell from the current board's readings.
pub fn calculate_cell_next_state(board: &Board, cell_location: (usize, usize)) -> (c: Cell)
    requires
        board.well_formed(),
        cell_location.0 < board.size,
        cell_location.1 < board.size,
    ensures
        c == next_cell_state(
            board@,
            board.size as nat,
            cell_location.0 as int,
            cell_location.1 as int,
        ),
{
    let number_of_neighbors = board.get_number_of_alive_cells(cell_location);
    if board.is_cell_alive(cell_location) {
        if number_of_neighbors == 2 || number_of_neighbors == 3 {
            return Cell::Alive;
        }
    } else if number_of_neighbors == 3 {
        return Cell::Alive;
    }
    Cell::Dead
}

/// Computes the whole next generation as a brand-new board of the same size,
/// reading only from the current board.
pub fn bread_new_board(current_board: &Board) -> (r: Board)
    requires
        current_board.well_formed(),
    ensures
        r.well_formed(),
        r.size == current_board.size,
        r@ == next_board_state(current_board@, current_board.size as nat),
{
    let size = current_board.size;
    let ghost g = current_board@;
    let mut new_board = Board::create_empty(size);
    for row_index in 0..size
        invariant
            current_board.well_formed(),
            current_board@ == g,
            current_board.size == size,
            new_board.well_formed(),
            new_board.size == size,
            forall|x: int, y: int| 0 <= y < row_index && 0 <= x < size
                ==> #[trigger] new_board@[y][x] == next_cell_state(g, size as nat, x, y),
    {
        for cell_index in 0..size
            invariant
                current_board.well_formed(),
                current_board@ == g,
                current_board.size == size,
                new_board.well_formed(),
                new_board.size == size,
                row_index < size,
                forall|x: int, y: int| 0 <= y < row_index && 0 <= x < size
                    ==> #[trigger] new_board@[y][x] == next_cell_state(g, size as nat, x, y),
                forall|x: int| 0 <= x < cell_index
                    ==> #[trigger] new_board@[row_index as int][x]
                        == next_cell_state(g, size as nat, x, row_index as int),
        {
            let location = (cell_index, row_index);
            new_board.update_cell(location, calculate_cell_next_state(current_board, location));
        }
    }
    proof {
        assert forall|y: int| 0 <= y < size
            implies new_board@[y] == next_board_state(g, size as nat)[y] by {
            assert(new_board@[y] =~= next_board_state(g, size as nat)[y]);
        }
        assert(new_board@ =~= next_board_state(g, size as nat));
    }
    new_board
}

/// The transition is deterministic: one and the same current grid yields one
/// and the same next generation, however often it is computed.
pub proof fn lemma_transition_deterministic(g1: Seq<Seq<Cell>>, g2: Seq<Seq<Cell>>, size: nat)
    requires
        g1 == g2,
    ensures
        next_board_state(g1, size) == next_board_state(g2, size),
{
}

/// A live cell survives exactly when it has 2 or 3 live neighbors; with any
/// other neighbor count it is dead in the next generation.
pub proof fn lemma_live_cell_rule(g: Seq<Seq<Cell>>, size: nat, x: int, y: int)
    requires
        alive_at(g, x, y),
    ensures
        next_cell_state(g, size, x, y) is Alive <==> (live_neighbor_count(g, size, x, y) == 2
            || live_neighbor_count(g, size, x, y) == 3),
{
}

/// A dead cell is born exactly when it has 3 live neighbors; with any other
/// neighbor count it stays dead.
pub proof fn lemma_dead_cell_rule(g: Seq<Seq<Cell>>, size: nat, x: int, y: int)
    requires
        !alive_at(g, x, y),
    ensures
        next_cell_state(g, size, x, y) is Alive <==> live_neighbor_count(g, size, x, y) == 3,
{
}

/// On an all-dead grid every cell has 0 live neighbors, so no cell is born:
/// the next generation is all dead as well.
pub proof fn lemma_all_dead_stays_dead(g: Seq<Seq<Cell>>, size: nat)
    requires
        all_dead(g, size),
    ensures
        all_dead(next_board_state(g, size), size),
{
    assert forall|x: int, y: int| in_bounds(size, x, y)
        implies !alive_at(next_board_state(g, size), x, y) by {
        assert(live_neighbor_count(g, size, x, y) == 0);
        assert(next_board_state(g, size)[y][x] == next_cell_state(g, size, x, y));
    }
}

/// On a 1x1 board the sole cell has no in-bounds neighbors, so whatever its
/// current state, it is dead in the next generation.
pub proof fn lemma_single_cell_dies(g: Seq<Seq<Cell>>)
    ensures
        !alive_at(next_board_state(g, 1), 0, 0),
{
    assert(live_neighbor_count(g, 1, 0, 0) == 0);
    assert(next_board_state(g, 1)[0][0] == next_cell_state(g, 1, 0, 0));
}

/// On a board of side at least 2, a corner cell has only 3 of its 8 neighbor
/// offsets in bounds, so its live-neighbor count is at most 3.
pub proof fn lemma_corner_neighbor_bound(g: Seq<Seq<Cell>>, size: nat, x: int, y: int)
    requires
        size >= 2,
        x == 0 || x == size - 1,
        y == 0 || y == size - 1,
    ensures
        live_neighbor_count(g, size, x, y) <= 3,
{
}

/// The live-neighbor count of any cell never exceeds 8: each of the 8
/// neighbor offsets contributes at most 1.
pub proof fn lemma_neighbor_count_bound(g: Seq<Seq<Cell>>, size: nat, x: int, y: int)
    ensures
        live_neighbor_count(g, size, x, y) <= 8,
{
}

} // verus!
