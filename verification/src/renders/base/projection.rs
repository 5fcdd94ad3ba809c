use vstd::prelude::*;
use crate::geometry::position::Position;
use crate::geometry::rect::AbsoluteRect;
use crate::objects::scene::{Scene, SceneView};
use crate::renders::base::screen::Screen;
use crate::renders::base::view;

verus! {

/// One blit: the texture of the type tag `texture` goes to the rectangle of the
/// surface that starts at `(x, y)` and is `width` by `height` pixels large.
#[derive(Clone, Copy, Debug, PartialEq, Eq, Structural)]
pub struct DrawCommand {
    pub texture: i32,
    pub x: u128,
    pub y: u128,
    pub width: usize,
    pub height: usize,
}

/// A view resolved for one frame: the shown part of the grid in cells, the
/// number of layers, and the target part of the surface in pixels.
#[derive(Clone, Copy, Debug, PartialEq, Eq, Structural)]
pub struct Projection {
    pub area: AbsoluteRect,
    pub layers: usize,
    pub screen: AbsoluteRect,
}

impl Projection {
    /// Pixels per cell along x: the target width over the shown width, rounded
    /// down; zero where nothing is shown.
    pub open spec fn ratio_x(self) -> usize {
        if self.area.width == 0 {
            0
        } else {
            self.screen.width / self.area.width
        }
    }

    /// Pixels per cell along y.
    pub open spec fn ratio_y(self) -> usize {
        if self.area.height == 0 {
            0
        } else {
            self.screen.height / self.area.height
        }
    }

    /// The blit of an object of the type tag `texture` in the cell at `pos`.
    pub open spec fn command(self, pos: Position, texture: i32) -> DrawCommand {
        DrawCommand {
            texture,
            x: (pos.x * self.ratio_x() + self.screen.x) as u128,
            y: (pos.y * self.ratio_y() + self.screen.y) as u128,
            width: self.ratio_x(),
            height: self.ratio_y(),
        }
    }

    /// What the cell at `(x, y, z)` adds to the frame: one blit if the grid has
    /// the cell and it holds an object, else nothing.
    pub open spec fn cell_commands(self, scene: SceneView, x: int, y: int, z: int) -> Seq<
        DrawCommand,
    > {
        if 0 <= x <= usize::MAX && 0 <= y <= usize::MAX && 0 <= z <= usize::MAX {
            let pos = Position { x: x as usize, y: y as usize, z: z as usize };
            match scene.object_at(pos) {
                Some(obj) => seq![self.command(pos, obj.type_tag)],
                None => Seq::empty(),
            }
        } else {
            Seq::empty()
        }
    }

    /// The blits of the first `n` shown cells of the row `y` of the layer `z`, by
    /// rising x.
    pub open spec fn row_commands(self, scene: SceneView, y: int, z: int, n: nat) -> Seq<
        DrawCommand,
    >
        decreases n,
    {
        if n == 0 {
            Seq::empty()
        } else {
            self.row_commands(scene, y, z, (n - 1) as nat) + self.cell_commands(
                scene,
                self.area.x + n - 1,
                y,
                z,
            )
        }
    }

    /// The blits of the first `m` shown rows of the layer `z`, by rising y.
    pub open spec fn layer_commands(self, scene: SceneView, z: int, m: nat) -> Seq<DrawCommand>
        decreases m,
    {
        if m == 0 {
            Seq::empty()
        } else {
            self.layer_commands(scene, z, (m - 1) as nat) + self.row_commands(
                scene,
                self.area.y + m - 1,
                z,
                self.area.width as nat,
            )
        }
    }

    /// The blits of the layers `0..l`, by rising z.
    pub open spec fn commands_up_to(self, scene: SceneView, l: nat) -> Seq<DrawCommand>
        decreases l,
    {
        if l == 0 {
            Seq::empty()
        } else {
            self.commands_up_to(scene, (l - 1) as nat) + self.layer_commands(
                scene,
                l - 1,
                self.area.height as nat,
            )
        }
    }

    /// The blits of the view: layer by layer, row by row, cell by cell, so that a
    /// higher layer is drawn over a lower one.
    pub open spec fn commands(self, scene: SceneView) -> Seq<DrawCommand> {
        self.commands_up_to(scene, self.layers as nat)
    }

    /// Cells of a row that lie beyond the grid's x extent add nothing.
    proof fn lemma_row_clip(self, scene: SceneView, y: int, z: int, n: nat, shown: nat)
        requires
            scene.area.wf(),
            shown <= n,
            shown == n || self.area.x + shown >= scene.area.sx,
        ensures
            self.row_commands(scene, y, z, n) == self.row_commands(scene, y, z, shown),
        decreases n,
    {
        if shown < n {
            self.lemma_row_clip(scene, y, z, (n - 1) as nat, shown);
        }
    }

    /// A row beyond the grid's y or z extent adds nothing.
    proof fn lemma_row_outside(self, scene: SceneView, y: int, z: int, n: nat)
        requires
            scene.area.wf(),
            y >= scene.area.sy || z >= scene.area.sz,
        ensures
            self.row_commands(scene, y, z, n) == Seq::<DrawCommand>::empty(),
        decreases n,
    {
        if n > 0 {
            self.lemma_row_outside(scene, y, z, (n - 1) as nat);
        }
    }

    /// Rows of a layer that lie beyond the grid's y extent add nothing.
    proof fn lemma_layer_clip(self, scene: SceneView, z: int, m: nat, shown: nat)
        requires
            scene.area.wf(),
            shown <= m,
            shown == m || self.area.y + shown >= scene.area.sy,
        ensures
            self.layer_commands(scene, z, m) == self.layer_commands(scene, z, shown),
        decreases m,
    {
        if shown < m {
            self.lemma_layer_clip(scene, z, (m - 1) as nat, shown);
            self.lemma_row_outside(scene, self.area.y + m - 1, z, self.area.width as nat);
        }
    }

    /// A layer beyond the grid's z extent adds nothing.
    proof fn lemma_layer_outside(self, scene: SceneView, z: int, m: nat)
        requires
            scene.area.wf(),
            z >= scene.area.sz,
        ensures
            self.layer_commands(scene, z, m) == Seq::<DrawCommand>::empty(),
        decreases m,
    {
        if m > 0 {
            self.lemma_layer_outside(scene, z, (m - 1) as nat);
            self.lemma_row_outside(scene, self.area.y + m - 1, z, self.area.width as nat);
        }
    }

    /// Layers beyond the grid's z extent add nothing.
    proof fn lemma_layers_clip(self, scene: SceneView, l: nat, shown: nat)
        requires
            scene.area.wf(),
            shown <= l,
            shown == l || shown >= scene.area.sz,
        ensures
            self.commands_up_to(scene, l) == self.commands_up_to(scene, shown),
        decreases l,
    {
        if shown < l {
            self.lemma_layers_clip(scene, (l - 1) as nat, shown);
            self.lemma_layer_outside(scene, l - 1, self.area.height as nat);
        }
    }

    /// Appends the blits of the view to `out`.
    pub fn draw<T>(&self, scene: &Scene<T>, out: &mut Vec<DrawCommand>)
        requires
            scene.wf(),
        ensures
            final(out)@ == old(out)@ + self.commands(scene@),
    {
        let ratio_x: usize = if self.area.width == 0 {
            0
        } else {
            self.screen.width / self.area.width
        };
        let ratio_y: usize = if self.area.height == 0 {
            0
        } else {
            self.screen.height / self.area.height
        };
        let sx = scene.get_size_x();
        let sy = scene.get_size_y();
        let sz = scene.get_size_z();
        let layers: usize = if self.layers < sz {
            self.layers
        } else {
            sz
        };
        let rows: usize = if self.area.y >= sy {
            0
        } else if self.area.height < sy - self.area.y {
            self.area.height
        } else {
            sy - self.area.y
        };
        let columns: usize = if self.area.x >= sx {
            0
        } else if self.area.width < sx - self.area.x {
            self.area.width
        } else {
            sx - self.area.x
        };
        let ghost before = out@;
        let ghost model = scene@;
        let mut z: usize = 0;
        while z < layers
            invariant
                scene.wf(),
                model == scene@,
                sx == model.area.sx,
                sy == model.area.sy,
                sz == model.area.sz,
                ratio_x == self.ratio_x(),
                ratio_y == self.ratio_y(),
                z <= layers <= sz,
                rows <= self.area.height,
                rows == self.area.height || self.area.y + rows >= sy,
                self.area.y + rows <= sy || rows == 0,
                columns <= self.area.width,
                columns == self.area.width || self.area.x + columns >= sx,
                self.area.x + columns <= sx || columns == 0,
                out@ == before + self.commands_up_to(model, z as nat),
            decreases layers - z,
        {
            let ghost done = out@;
            let mut j: usize = 0;
            while j < rows
                invariant
                    scene.wf(),
                    model == scene@,
                    sx == model.area.sx,
                    sy == model.area.sy,
                    sz == model.area.sz,
                    ratio_x == self.ratio_x(),
                    ratio_y == self.ratio_y(),
                    z < sz,
                    j <= rows,
                    self.area.y + rows <= sy || rows == 0,
                    columns <= self.area.width,
                    columns == self.area.width || self.area.x + columns >= sx,
                    self.area.x + columns <= sx || columns == 0,
                    out@ == done + self.layer_commands(model, z as int, j as nat),
                decreases rows - j,
            {
                let y: usize = self.area.y + j;
                let ghost above = out@;
                let mut i: usize = 0;
                while i < columns
                    invariant
                        scene.wf(),
                        model == scene@,
                        sx == model.area.sx,
                        sy == model.area.sy,
                        sz == model.area.sz,
                        ratio_x == self.ratio_x(),
                        ratio_y == self.ratio_y(),
                        z < sz,
                        y < sy,
                        i <= columns,
                        self.area.x + columns <= sx || columns == 0,
                        out@ == above + self.row_commands(model, y as int, z as int, i as nat),
                    decreases columns - i,
                {
                    let x: usize = self.area.x + i;
                    if let Some(obj) = scene.get(x, y, z) {
                        assert(x as u128 * ratio_x as u128 + self.screen.x as u128 <= u128::MAX
                            && y as u128 * ratio_y as u128 + self.screen.y as u128 <= u128::MAX)
                            by (nonlinear_arith)
                            requires
                                x < 0x1_0000_0000_0000_0000,
                                y < 0x1_0000_0000_0000_0000,
                                ratio_x < 0x1_0000_0000_0000_0000,
                                ratio_y < 0x1_0000_0000_0000_0000,
                                self.screen.x < 0x1_0000_0000_0000_0000,
                                self.screen.y < 0x1_0000_0000_0000_0000,
                        ;
                        out.push(
                            DrawCommand {
                                texture: obj.get_type(),
                                x: x as u128 * ratio_x as u128 + self.screen.x as u128,
                                y: y as u128 * ratio_y as u128 + self.screen.y as u128,
                                width: ratio_x,
                                height: ratio_y,
                            },
                        );
                    }
                    i += 1;
                    assert(out@ =~= above + self.row_commands(model, y as int, z as int, i as nat));
                }
                proof {
                    self.lemma_row_clip(
                        model,
                        y as int,
                        z as int,
                        self.area.width as nat,
                        columns as nat,
                    );
                }
                j += 1;
                assert(out@ =~= done + self.layer_commands(model, z as int, j as nat));
            }
            proof {
                self.lemma_layer_clip(model, z as int, self.area.height as nat, rows as nat);
            }
            z += 1;
            assert(out@ =~= before + self.commands_up_to(model, z as nat));
        }
        proof {
            self.lemma_layers_clip(model, self.layers as nat, layers as nat);
        }
    }
}

/// The view `v` resolved against a grid and a surface of the given extents.
pub open spec fn projection(v: view::View, grid: (usize, usize), surface: (usize, usize)) -> Projection {
    Projection {
        area: v.area_rect.resolved(&grid),
        layers: v.layers,
        screen: v.screen_rect.resolved(&surface),
    }
}

/// Resolves the view `v` against a grid and a surface of the given extents.
pub fn project(v: &view::View, grid: (usize, usize), surface: (usize, usize)) -> (p: Projection)
    ensures
        p == projection(*v, grid, surface),
{
    Projection {
        area: v.area_rect.resolve(&grid),
        layers: v.get_layers(),
        screen: v.screen_rect.resolve(&surface),
    }
}

/// The blits of the first `n` views of a screen, in the order of the views, for
/// a surface of the extents `surface`.
pub open spec fn frame_up_to(
    scene: SceneView,
    views: Seq<view::View>,
    surface: (usize, usize),
    n: nat,
) -> Seq<DrawCommand>
    decreases n,
{
    if n == 0 || n > views.len() {
        Seq::empty()
    } else {
        frame_up_to(scene, views, surface, (n - 1) as nat) + projection(
            views[n - 1],
            (scene.area.sx, scene.area.sy),
            surface,
        ).commands(scene)
    }
}

/// The blits of one frame: those of every view of the screen, a later view after
/// an earlier one, so that it is drawn over it.
pub open spec fn frame(scene: SceneView, views: Seq<view::View>, surface: (usize, usize)) -> Seq<
    DrawCommand,
> {
    frame_up_to(scene, views, surface, views.len())
}

/// Lists the blits of one frame of `scene` through `screen` onto a surface of
/// `width` by `height` pixels, in the order in which they are to be made.
pub fn draw_list<T>(scene: &Scene<T>, screen: &Screen, width: usize, height: usize) -> (out: Vec<
    DrawCommand,
>)
    requires
        scene.wf(),
    ensures
        out@ == frame(scene@, screen.view_stack@, (width, height)),
{
    let mut out: Vec<DrawCommand> = Vec::new();
    let grid = (scene.get_size_x(), scene.get_size_y());
    let mut n: usize = 0;
    while n < screen.view_stack.len()
        invariant
            scene.wf(),
            n <= screen.view_stack.len(),
            grid == (scene@.area.sx, scene@.area.sy),
            out@ == frame_up_to(scene@, screen.view_stack@, (width, height), n as nat),
        decreases screen.view_stack.len() - n,
    {
        let p = project(&screen.view_stack[n], grid, (width, height));
        p.draw(scene, &mut out);
        n += 1;
    }
    out
}

} // verus!
