//! The world grid and its compass.

use vstd::prelude::*;

verus! {

/// The eight points of the compass. Six of them name the sides of a cell,
/// six the vertices; `North` and `South` are sides only, `East` and `West`
/// vertices only.
#[derive(Debug, Clone, Copy, PartialEq, Eq, Hash, Structural)]
pub enum Direction {
    East,
    NorthEast,
    North,
    NorthWest,
    West,
    SouthWest,
    South,
    SouthEast,
}

pub struct WorldGrid {
    /// Largest value for an axis of the grid.
    pub size: u32,
}

impl Direction {
    /// Angle in degrees of the side that the point names, if it names one.
    pub open spec fn side_angle(self) -> Option<int> {
        match self {
            Direction::NorthEast => Some(30),
            Direction::North => Some(90),
            Direction::NorthWest => Some(150),
            Direction::SouthWest => Some(210),
            Direction::South => Some(270),
            Direction::SouthEast => Some(330),
            _ => None,
        }
    }

    /// Angle in degrees of the vertex that the point names, if it names
    /// one.
    pub open spec fn vertex_angle(self) -> Option<int> {
        match self {
            Direction::East => Some(0),
            Direction::NorthEast => Some(60),
            Direction::NorthWest => Some(120),
            Direction::West => Some(180),
            Direction::SouthWest => Some(240),
            Direction::SouthEast => Some(300),
            _ => None,
        }
    }

    /// Angle in degrees of the side that the point names, if it names one.
    pub fn hex_side(self) -> (a: Option<u32>)
        ensures
            a is Some <==> self.side_angle() is Some,
            a matches Some(d) ==> self.side_angle() == Some(d as int),
    {
        match self {
            Direction::NorthEast => Some(30),
            Direction::North => Some(90),
            Direction::NorthWest => Some(150),
            Direction::SouthWest => Some(210),
            Direction::South => Some(270),
            Direction::SouthEast => Some(330),
            _ => None,
        }
    }

    /// Angle in degrees of the vertex that the point names, if it names
    /// one.
    pub fn hex_vertex(self) -> (a: Option<u32>)
        ensures
            a is Some <==> self.vertex_angle() is Some,
            a matches Some(d) ==> self.vertex_angle() == Some(d as int),
    {
        match self {
            Direction::East => Some(0),
            Direction::NorthEast => Some(60),
            Direction::NorthWest => Some(120),
            Direction::West => Some(180),
            Direction::SouthWest => Some(240),
            Direction::SouthEast => Some(300),
            _ => None,
        }
    }
}

impl WorldGrid {
    pub fn new(size: u32) -> (g: WorldGrid)
        ensures
            g.size == size,
    {
        WorldGrid { size }
    }

    pub fn get_size(self) -> (s: u32)
        ensures
            s == self.size,
    {
        self.size
    }
}

} // verus!
