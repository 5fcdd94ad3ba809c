pub mod projection;
pub mod render;
pub mod screen;
pub mod view;
