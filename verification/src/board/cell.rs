use vstd::prelude::*;

verus! {

/// The state of a single grid position: either `Alive` or `Dead`.
#[derive(Clone, Copy, Debug, PartialEq, Eq, Structural)]
pub enum Cell {
    Alive,
    Dead,
}

/// The terminal color a cell is rendered with: green for a live cell,
/// white for a dead one.
#[derive(Clone, Copy, Debug, PartialEq, Eq, Structural)]
pub enum CellColor {
    Green,
    White,
}

impl Cell {
    /// True exactly when the cell is `Alive`.
    pub fn is_alive(&self) -> (r: bool)
        ensures
            r == (*self is Alive),
    {
        match self {
            Cell::Alive => true,
            Cell::Dead => false,
        }
    }

    /// The display glyph and color for this state: a live cell is drawn as a
    /// green `X`, a dead cell as a white `O`.
    pub fn render(&self) -> (r: (char, CellColor))
        ensures
            *self is Alive ==> r == ('X', CellColor::Green),
            *self is Dead ==> r == ('O', CellColor::White),
    {
        match self {
            Cell::Alive => ('X', CellColor::Green),
            Cell::Dead => ('O', CellColor::White),
        }
    }
}

} // verus!
