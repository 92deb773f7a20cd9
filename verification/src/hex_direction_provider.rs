//! The names under which the directions and their provider were first
//! published. They stand for the types of `hex_directions`.

use vstd::prelude::*;

use crate::hex_directions::{Provider, Side, Vertex};

pub use crate::hex_directions::HexDirection;

verus! {

pub type HexSides = Side;

pub type HexVertices = Vertex;

pub type HexDirectionProvider<T> = Provider<T>;

} // verus!
