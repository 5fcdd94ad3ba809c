//! The spatial object store: the grid of cells, the objects, and the scene that
//! keeps the two consistent.

pub mod area;
pub mod game_object;
pub mod laws;
pub mod scene;
