//! What is drawn and where: views, the screen that stacks them, and the
//! projection of a scene through them onto a surface.

pub mod base;
