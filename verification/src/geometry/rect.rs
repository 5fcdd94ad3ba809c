use vstd::prelude::*;
use crate::geometry::relative_component::RelativeComponent;
use crate::geometry::size::{RelativeSize, RelativeSize2D};

verus! {

/// A rectangle in absolute units.
#[derive(Clone, Copy, Debug, PartialEq, Eq, Structural)]
pub struct AbsoluteRect {
    pub x: usize,
    pub y: usize,
    pub width: usize,
    pub height: usize,
}

/// A rectangle given relative to a reference extent: where it starts and how
/// large it is.
#[derive(Clone, Copy, Debug, PartialEq, Eq, Structural)]
pub struct Rect {
    pub pos: RelativeSize2D,
    pub size: RelativeSize2D,
}

impl Rect {
    pub fn new(pos: RelativeSize2D, size: RelativeSize2D) -> (rect: Rect)
        ensures
            rect == (Rect { pos, size }),
    {
        Rect { pos, size }
    }

    /// The rectangle at `pos` of which both sides have the size `size`.
    pub fn square(pos: RelativeSize2D, size: RelativeSize) -> (rect: Rect)
        ensures
            rect == (Rect { pos, size: RelativeSize2D(size, size) }),
    {
        Rect { pos, size: RelativeSize2D::from(size) }
    }

    /// The rectangle against the reference extent `t`, as one value.
    pub open spec fn resolved(&self, t: &(usize, usize)) -> AbsoluteRect {
        AbsoluteRect {
            x: self.pos.absolute(t).0,
            y: self.pos.absolute(t).1,
            width: self.size.absolute(t).0,
            height: self.size.absolute(t).1,
        }
    }

    /// Resolves against the reference extent `t`.
    pub fn resolve(&self, t: &(usize, usize)) -> (r: AbsoluteRect)
        ensures
            r == self.resolved(t),
    {
        let (x, y) = self.pos.get_absolute(t);
        let (width, height) = self.size.get_absolute(t);
        AbsoluteRect { x, y, width, height }
    }
}

impl RelativeComponent<(usize, usize), ((usize, usize), (usize, usize))> for Rect {
    open spec fn absolute(&self, t: &(usize, usize)) -> ((usize, usize), (usize, usize)) {
        (self.pos.absolute(t), self.size.absolute(t))
    }

    fn get_absolute(&self, t: &(usize, usize)) -> (r: ((usize, usize), (usize, usize))) {
        (self.pos.get_absolute(t), self.size.get_absolute(t))
    }
}

} // verus!
