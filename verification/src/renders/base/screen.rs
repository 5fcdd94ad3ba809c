use vstd::prelude::*;
use crate::renders::base::view;

verus! {

/// The views in the order in which they are drawn: the first at the bottom,
/// each later one over the earlier ones. Views are added, never removed.
pub struct Screen {
    pub view_stack: Vec<view::View>,
}

impl Screen {
    /// A screen with the one view `view`.
    pub fn new(view: view::View) -> (screen: Screen)
        ensures
            screen.view_stack@ == seq![view],
    {
        let mut v = Vec::new();
        v.push(view);
        Screen { view_stack: v }
    }

    /// Puts `view` on top.
    pub fn add_layer(&mut self, view: view::View)
        ensures
            final(self).view_stack@ == old(self).view_stack@.push(view),
    {
        self.view_stack.push(view)
    }

    /// The view number `layer`, counted from the bottom, to read or to change.
    pub fn get_layer(&mut self, layer: usize) -> (view: Option<&mut view::View>)
        ensures
            match view {
                Some(v) => {
                    &&& layer < old(self).view_stack.len()
                    &&& *v == old(self).view_stack[layer as int]
                    &&& final(self).view_stack@ == old(self).view_stack@.update(
                        layer as int,
                        *final(v),
                    )
                },
                None => layer >= old(self).view_stack.len() && *final(self) == *old(self),
            },
    {
        if layer < self.view_stack.len() {
            Some(&mut self.view_stack[layer])
        } else {
            None
        }
    }
}

} // verus!
