//! A small tile-grid engine: a three-dimensional grid of cells that each hold at
//! most one object, viewports that project the grid onto a surface, and an event
//! loop that hands input and application events to registered listeners.

pub mod events;
pub mod geometry;
pub mod objects;
pub mod renders;
pub mod table;
