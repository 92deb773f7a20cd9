//! The first interface to the grid: cells as `Coords`, and the compass of
//! the world grid. Both rest on the cells and directions of `coords` and
//! `hex_directions`.

pub mod coords;
pub mod world_grid;
