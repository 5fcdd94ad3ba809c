use vstd::prelude::*;

verus! {

/// A size or place given relative to a reference of type `I`, which resolves to
/// an absolute value of type `O` once the reference is known.
pub trait RelativeComponent<I, O> {
    /// The absolute value against the reference `t`.
    spec fn absolute(&self, t: &I) -> O;

    /// Resolves against the reference `t`.
    fn get_absolute(&self, t: &I) -> (r: O)
        ensures
            r == self.absolute(t),
    ;
}

} // verus!
