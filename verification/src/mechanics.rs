//! What the world holds besides actors: obstacles, resources and weather.

pub mod obstacle;
pub mod resource;
pub mod weather;
