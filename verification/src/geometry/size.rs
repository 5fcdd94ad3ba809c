use vstd::prelude::*;
use vstd::std_specs::convert::FromSpecImpl;
use crate::geometry::relative_component::RelativeComponent;
use crate::geometry::scale::Scale;

verus! {

/// One coordinate or one length, given relative to a reference extent.
#[derive(Clone, Copy, Debug, PartialEq, Eq, Structural)]
pub enum RelativeSize {
    /// The reference times a factor, rounded down.
    Percent(Scale),
    /// A value that does not depend on the reference.
    Absolute(usize),
    /// The reference plus a signed offset.
    Shift(isize),
}

/// `t + s`, brought into the range of `usize`.
pub open spec fn shifted(t: usize, s: isize) -> usize {
    if t + s < 0 {
        0
    } else if t + s > usize::MAX {
        usize::MAX
    } else {
        (t + s) as usize
    }
}

impl RelativeComponent<usize, usize> for RelativeSize {
    open spec fn absolute(&self, t: &usize) -> usize {
        match *self {
            RelativeSize::Percent(p) => p.scaled(*t),
            RelativeSize::Absolute(c) => c,
            RelativeSize::Shift(s) => shifted(*t, s),
        }
    }

    fn get_absolute(&self, t: &usize) -> (r: usize) {
        match self {
            RelativeSize::Percent(p) => p.of(*t),
            RelativeSize::Absolute(c) => *c,
            RelativeSize::Shift(s) => {
                if *s >= 0 {
                    let up: usize = *s as usize;
                    if *t > usize::MAX - up {
                        usize::MAX
                    } else {
                        *t + up
                    }
                } else {
                    let down: usize = (-(*s + 1)) as usize;
                    if *t > down {
                        *t - down - 1
                    } else {
                        0
                    }
                }
            },
        }
    }
}

impl From<Scale> for RelativeSize {
    fn from(p: Scale) -> (r: Self) {
        RelativeSize::Percent(p)
    }
}

impl FromSpecImpl<Scale> for RelativeSize {
    open spec fn obeys_from_spec() -> bool {
        true
    }

    open spec fn from_spec(p: Scale) -> Self {
        RelativeSize::Percent(p)
    }
}

impl From<usize> for RelativeSize {
    fn from(a: usize) -> (r: Self) {
        RelativeSize::Absolute(a)
    }
}

impl FromSpecImpl<usize> for RelativeSize {
    open spec fn obeys_from_spec() -> bool {
        true
    }

    open spec fn from_spec(a: usize) -> Self {
        RelativeSize::Absolute(a)
    }
}

impl From<isize> for RelativeSize {
    fn from(s: isize) -> (r: Self) {
        RelativeSize::Shift(s)
    }
}

impl FromSpecImpl<isize> for RelativeSize {
    open spec fn obeys_from_spec() -> bool {
        true
    }

    open spec fn from_spec(s: isize) -> Self {
        RelativeSize::Shift(s)
    }
}

/// A pair of relative sizes: a place or an extent in two dimensions, the first
/// along x and the second along y.
#[derive(Clone, Copy, Debug, PartialEq, Eq, Structural)]
pub struct RelativeSize2D(pub RelativeSize, pub RelativeSize);

impl RelativeComponent<(usize, usize), (usize, usize)> for RelativeSize2D {
    open spec fn absolute(&self, t: &(usize, usize)) -> (usize, usize) {
        (self.0.absolute(&t.0), self.1.absolute(&t.1))
    }

    fn get_absolute(&self, t: &(usize, usize)) -> (r: (usize, usize)) {
        (self.0.get_absolute(&t.0), self.1.get_absolute(&t.1))
    }
}

impl From<(Scale, Scale)> for RelativeSize2D {
    fn from(p: (Scale, Scale)) -> (r: Self) {
        RelativeSize2D(RelativeSize::Percent(p.0), RelativeSize::Percent(p.1))
    }
}

impl FromSpecImpl<(Scale, Scale)> for RelativeSize2D {
    open spec fn obeys_from_spec() -> bool {
        true
    }

    open spec fn from_spec(p: (Scale, Scale)) -> Self {
        RelativeSize2D(RelativeSize::Percent(p.0), RelativeSize::Percent(p.1))
    }
}

impl From<(isize, isize)> for RelativeSize2D {
    fn from(p: (isize, isize)) -> (r: Self) {
        RelativeSize2D(RelativeSize::Shift(p.0), RelativeSize::Shift(p.1))
    }
}

impl FromSpecImpl<(isize, isize)> for RelativeSize2D {
    open spec fn obeys_from_spec() -> bool {
        true
    }

    open spec fn from_spec(p: (isize, isize)) -> Self {
        RelativeSize2D(RelativeSize::Shift(p.0), RelativeSize::Shift(p.1))
    }
}

impl From<(usize, usize)> for RelativeSize2D {
    fn from(p: (usize, usize)) -> (r: Self) {
        RelativeSize2D(RelativeSize::Absolute(p.0), RelativeSize::Absolute(p.1))
    }
}

impl FromSpecImpl<(usize, usize)> for RelativeSize2D {
    open spec fn obeys_from_spec() -> bool {
        true
    }

    open spec fn from_spec(p: (usize, usize)) -> Self {
        RelativeSize2D(RelativeSize::Absolute(p.0), RelativeSize::Absolute(p.1))
    }
}

impl From<RelativeSize> for RelativeSize2D {
    fn from(s: RelativeSize) -> (r: Self) {
        RelativeSize2D(s, s)
    }
}

impl FromSpecImpl<RelativeSize> for RelativeSize2D {
    open spec fn obeys_from_spec() -> bool {
        true
    }

    open spec fn from_spec(s: RelativeSize) -> Self {
        RelativeSize2D(s, s)
    }
}

} // verus!
