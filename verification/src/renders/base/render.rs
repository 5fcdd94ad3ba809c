use vstd::prelude::*;

verus! {

/// A renderer: draws the scene behind the handle `S` once per frame.
pub trait Render<S> {
    fn render(&mut self, scene: &S);
}

} // verus!
