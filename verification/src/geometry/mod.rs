//! Value types for grid coordinates and for sizes given relative to an extent.

pub mod position;
pub mod rect;
pub mod relative_component;
pub mod scale;
pub mod size;
