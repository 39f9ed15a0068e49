//! The square grid of [`Cell`] values and the queries a driver needs to play
//! the game of life on it: bounds checks, cell reads and writes, and counting
//! the live cells among a position's eight (Moore) neighbors. The grid has
//! hard edges: positions off the board never count as live neighbors.

use vstd::prelude::*;

mod cell;

pub use cell::Cell;
pub use cell::CellColor;

verus! {

/// True exactly when `(x, y)` lies on a board of the given size.
pub open spec fn in_bounds(size: nat, x: int, y: int) -> bool {
    0 <= x < size && 0 <= y < size
}

/// True exactly when the cell at column `x` of row `y` is alive.
pub open spec fn alive_at(g: Seq<Seq<Cell>>, x: int, y: int) -> bool {
    g[y][x] is Alive
}

/// What the neighbor at offset `(dx, dy)` from `(x, y)` contributes to the
/// live-neighbor count: 1 for an in-bounds live cell, 0 otherwise.
pub open spec fn neighbor_contrib(g: Seq<Seq<Cell>>, size: nat, x: int, y: int, dx: int, dy: int) -> nat {
    if in_bounds(size, x + dx, y + dy) && alive_at(g, x + dx, y + dy) {
        1
    } else {
        0
    }
}

/// The number of live cells among the eight Moore neighbors of `(x, y)`,
/// counting only in-bounds positions.
pub open spec fn live_neighbor_count(g: Seq<Seq<Cell>>, size: nat, x: int, y: int) -> nat {
    neighbor_contrib(g, size, x, y, -1, -1)
        + neighbor_contrib(g, size, x, y, -1, 0)
        + neighbor_contrib(g, size, x, y, -1, 1)
        + neighbor_contrib(g, size, x, y, 0, -1)
        + neighbor_contrib(g, size, x, y, 0, 1)
        + neighbor_contrib(g, size, x, y, 1, -1)
        + neighbor_contrib(g, size, x, y, 1, 0)
        + neighbor_contrib(g, size, x, y, 1, 1)
}

/// True exactly when every in-bounds cell of the grid is dead.
pub open spec fn all_dead(g: Seq<Seq<Cell>>, size: nat) -> bool {
    forall|x: int, y: int| in_bounds(size, x, y) ==> !(#[trigger] alive_at(g, x, y))
}

/// A single row of the board.
pub struct Row {
    pub cells: Vec<Cell>,
}

/// A square board of cells, one generation of the game.
pub struct Board {
    /// The side length of the board (both in columns and in rows).
    pub size: usize,
    /// The rows that make up the board, each holding `size` cells.
    pub rows: Vec<Row>,
}

impl View for Board {
    type V = Seq<Seq<Cell>>;

    closed spec fn view(&self) -> Seq<Seq<Cell>> {
        self.rows@.map_values(|r: Row| r.cells@)
    }
}

impl Board {
    /// The board holds exactly `size` rows of exactly `size` cells each.
    pub open spec fn well_formed(&self) -> bool {
        &&& self@.len() == self.size
        &&& forall|y: int| 0 <= y < self.size ==> (#[trigger] self@[y]).len() == self.size
    }

    /// Relies on rand::random: draws a bool, each value with probability 1/2,
    /// independently of earlier draws.
    #[verifier::external_body]
    fn random_coin() -> bool {
        rand::random()
    }

    /// Builds a board of the given size where every cell is independently
    /// drawn as alive or dead, each with probability 1/2.
    pub fn create_new_board(size: usize) -> (r: Board)
        ensures
            r.well_formed(),
            r.size == size,
    {
        let mut rows: Vec<Row> = Vec::new();
        for _y in 0..size
            invariant
                rows@.len() == _y,
                forall|j: int| 0 <= j < _y ==> (#[trigger] rows@[j]).cells@.len() == size,
        {
            let mut cells: Vec<Cell> = Vec::new();
            for _x in 0..size
                invariant
                    cells@.len() == _x,
            {
                if Self::random_coin() {
                    cells.push(Cell::Alive);
                } else {
                    cells.push(Cell::Dead);
                }
            }
            rows.push(Row { cells });
        }
        Board { size, rows }
    }

    /// Builds a board of the given size where every cell is dead.
    pub fn create_empty(size: usize) -> (r: Board)
        ensures
            r.well_formed(),
            r.size == size,
            all_dead(r@, size as nat),
    {
        let mut rows: Vec<Row> = Vec::new();
        for _y in 0..size
            invariant
                rows@.len() == _y,
                forall|j: int| 0 <= j < _y ==> (#[trigger] rows@[j]).cells@.len() == size,
                forall|j: int, k: int| 0 <= j < _y && 0 <= k < size
                    ==> (#[trigger] rows@[j].cells@[k]) is Dead,
        {
            let mut cells: Vec<Cell> = Vec::new();
            for _x in 0..size
                invariant
                    cells@.len() == _x,
                    forall|k: int| 0 <= k < _x ==> (#[trigger] cells@[k]) is Dead,
            {
                cells.push(Cell::Dead);
            }
            rows.push(Row { cells });
        }
        let r = Board { size, rows };
        proof {
            assert forall|x: int, y: int| in_bounds(size as nat, x, y)
                implies !alive_at(r@, x, y) by {
                assert(r@[y] == r.rows@[y].cells@);
            }
        }
        r
    }

    /// Checks whether the given location lies inside the board.
    pub fn is_valid_location(&self, location: (i32, i32)) -> (r: bool)
        ensures
            r == in_bounds(self.size as nat, location.0 as int, location.1 as int),
    {
        location.0 >= 0
            && location.1 >= 0
            && (location.0 as usize) < self.size
            && (location.1 as usize) < self.size
    }

    /// Reads whether the cell at the given `(column, row)` location is alive.
    pub fn is_cell_alive(&self, location: (usize, usize)) -> (r: bool)
        requires
            self.well_formed(),
            location.0 < self.size,
            location.1 < self.size,
        ensures
            r == alive_at(self@, location.0 as int, location.1 as int),
    {
        let (x, y) = location;
        proof {
            assert(self@[y as int] == self.rows@[y as int].cells@);
        }
        Cell::Alive == self.rows[y].cells[x]
    }

    /// Writes the given state into the cell at the `(column, row)` location,
    /// leaving every other cell unchanged.
    pub fn update_cell(&mut self, location: (usize, usize), new_state: Cell)
        requires
            old(self).well_formed(),
            location.0 < old(self).size,
            location.1 < old(self).size,
        ensures
            final(self).well_formed(),
            final(self).size == old(self).size,
            final(self)@ == old(self)@.update(
                location.1 as int,
                old(self)@[location.1 as int].update(location.0 as int, new_state),
            ),
    {
        let (x, y) = location;
        proof {
            assert(old(self)@[y as int] == old(self).rows@[y as int].cells@);
        }
        self.rows[y].cells[x] = new_state;
        proof {
            assert(self@ =~= old(self)@.update(
                y as int,
                old(self)@[y as int].update(x as int, new_state),
            ));
        }
    }

    /// Counts the live cells among the eight Moore neighbors of the given
    /// in-bounds location; off-board positions contribute nothing, so the
    /// count never exceeds 8.
    pub fn get_number_of_alive_cells(&self, cell_location: (usize, usize)) -> (r: usize)
        requires
            self.well_formed(),
            cell_location.0 < self.size,
            cell_location.1 < self.size,
        ensures
            r == live_neighbor_count(
                self@,
                self.size as nat,
                cell_location.0 as int,
                cell_location.1 as int,
            ),
            r <= 8,
    {
        let (x, y) = cell_location;
        let mut number_of_neighbors: usize = 0;
        if x >= 1 && y >= 1 && self.is_cell_alive((x - 1, y - 1)) {
            number_of_neighbors += 1;
        }
        if x >= 1 && self.is_cell_alive((x - 1, y)) {
            number_of_neighbors += 1;
        }
        if x >= 1 && y + 1 < self.size && self.is_cell_alive((x - 1, y + 1)) {
            number_of_neighbors += 1;
        }
        if y >= 1 && self.is_cell_alive((x, y - 1)) {
            number_of_neighbors += 1;
        }
        if y + 1 < self.size && self.is_cell_alive((x, y + 1)) {
            number_of_neighbors += 1;
        }
        if x + 1 < self.size && y >= 1 && self.is_cell_alive((x + 1, y - 1)) {
            number_of_neighbors += 1;
        }
        if x + 1 < self.size && self.is_cell_alive((x + 1, y)) {
            number_of_neighbors += 1;
        }
        if x + 1 < self.size && y + 1 < self.size && self.is_cell_alive((x + 1, y + 1)) {
            number_of_neighbors += 1;
        }
        number_of_neighbors
    }
}

} // verus!
