//! Coordinate and directional geometry for a hexagonal game grid, with the
//! game objects that live on it.

use vstd::prelude::*;

pub mod ability;
pub mod actor;
pub mod context;
pub mod coords;
pub mod element;
pub mod entropy;
pub mod environment;
pub mod fileops;
pub mod hex_direction_provider;
pub mod hex_directions;
pub mod logger;
pub mod mechanics;
pub mod text;

verus! {

/// Anything that occupies the grid, seen from its starting cell.
pub trait Plottable {
    /// The origin (centre or first cell) of the object.
    fn origin(&self) -> &coords::Position;
}

/// Anything that can be generated at random under the limits of a game.
pub trait Randomizable: Sized {
    /// The limits under which an instance can be generated at all.
    spec fn can_rand(ctx: &context::Context) -> bool;

    /// Generates a random instance.
    fn rand(ctx: &context::Context) -> Self
        requires
            Self::can_rand(ctx),
    ;
}

/// Anything that has an inert form, which does nothing of note and holds
/// no more than it must.
pub trait Disableable: Sized {
    fn disabled() -> Self;
}

} // verus!
