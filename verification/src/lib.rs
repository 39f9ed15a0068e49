//! A bounded-grid simulation of Conway's Game of Life.
//!
//! The [`board`] module holds the square grid of [`board::Cell`] values and
//! the queries a driver needs (validity checks, cell reads and writes,
//! live-neighbor counting). The [`game`] module computes the next generation
//! from the current one under the standard survival/birth rule.

pub mod board;
pub mod game;
