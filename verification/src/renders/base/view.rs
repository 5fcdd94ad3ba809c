use vstd::prelude::*;
use crate::geometry::rect::Rect;
use crate::geometry::relative_component::RelativeComponent;
use crate::geometry::size::RelativeSize2D;

verus! {

/// A viewport: the part of the grid that is shown (`area_rect`, in cells, and
/// the layers `0..layers`) and the part of the surface that shows it
/// (`screen_rect`, in pixels). Both rectangles are relative and are resolved
/// against the grid's and the surface's extents when a frame is drawn.
#[derive(Clone, Copy, Debug, PartialEq, Eq, Structural)]
pub struct View {
    pub area_rect: Rect,
    pub layers: usize,
    pub screen_rect: Rect,
}

impl View {
    pub fn new(area_rect: Rect, layers: usize, screen_rect: Rect) -> (view: Self)
        ensures
            view == (View { area_rect, layers, screen_rect }),
    {
        View { area_rect, layers, screen_rect }
    }

    pub fn get_layers(&self) -> (layers: usize)
        ensures
            layers == self.layers,
    {
        self.layers
    }

    /// The shown part of a grid of the extents `scene_size`: its first cell and
    /// its size in cells.
    pub fn get_area_rect(&self, scene_size: &(usize, usize)) -> (r: ((usize, usize), (usize, usize)))
        ensures
            r == self.area_rect.absolute(scene_size),
    {
        self.area_rect.get_absolute(scene_size)
    }

    /// The target part of a surface of the extents `resolution`: its first pixel
    /// and its size in pixels.
    pub fn get_screen_rect(&self, resolution: &(usize, usize)) -> (r: (
        (usize, usize),
        (usize, usize),
    ))
        ensures
            r == self.screen_rect.absolute(resolution),
    {
        self.screen_rect.get_absolute(resolution)
    }

    pub fn set_screen_size(&mut self, new: RelativeSize2D)
        ensures
            *final(self) == (View {
                screen_rect: Rect { size: new, ..old(self).screen_rect },
                ..*old(self)
            }),
    {
        self.screen_rect.size = new;
    }

    pub fn set_screen_pos(&mut self, new: RelativeSize2D)
        ensures
            *final(self) == (View {
                screen_rect: Rect { pos: new, ..old(self).screen_rect },
                ..*old(self)
            }),
    {
        self.screen_rect.pos = new;
    }

    /// The same as `set_screen_size`.
    pub fn set_size(&mut self, new: RelativeSize2D)
        ensures
            *final(self) == (View {
                screen_rect: Rect { size: new, ..old(self).screen_rect },
                ..*old(self)
            }),
    {
        self.screen_rect.size = new;
    }
}

} // verus!
