use tile_engine::geometry::position::Position;
use tile_engine::geometry::rect::{AbsoluteRect, Rect};
use tile_engine::geometry::scale::Scale;
use tile_engine::geometry::size::{RelativeSize, RelativeSize2D};
use tile_engine::objects::area::Area;
use tile_engine::objects::game_object::GameObject;
use tile_engine::objects::scene::Scene;
use tile_engine::renders::base::projection::{draw_list, project, DrawCommand, Projection};
use tile_engine::renders::base::screen::Screen;
use tile_engine::renders::base::view::View;

fn percent(x: f32, y: f32) -> RelativeSize2D {
    RelativeSize2D::from((Scale::from_bits(x.to_bits()), Scale::from_bits(y.to_bits())))
}

fn full() -> Rect {
    Rect::new(percent(0., 0.), percent(1., 1.))
}

fn scene(x: usize, y: usize, z: usize, objects: &[(i32, usize, usize, usize)]) -> Scene<()> {
    let mut s = Scene::new(Area::new(x, y, z));
    for o in objects {
        s.add_object(GameObject::new(o.0, Position::new(o.1, o.2, o.3))).unwrap();
    }
    s
}

fn cmd(texture: i32, x: u128, y: u128, width: usize, height: usize) -> DrawCommand {
    DrawCommand { texture, x, y, width, height }
}

#[test]
fn view_projection() {
    let s = scene(4, 4, 1, &[(3, 2, 1, 0)]);
    let screen = Screen::new(View::new(full(), 1, full()));
    assert_eq!(draw_list(&s, &screen, 400, 200), vec![cmd(3, 200, 50, 100, 50)]);
}

#[test]
fn set_view_size_sugar() {
    let mut screen = Screen::new(View::new(full(), 2, full()));
    screen.get_layer(0).unwrap().set_screen_size(RelativeSize2D::from(RelativeSize::Percent(
        Scale::from_bits(0.5f32.to_bits()),
    )));
    let view = screen.view_stack[0];
    assert_eq!(view.get_screen_rect(&(400, 200)), ((0, 0), (200, 100)));
    assert_eq!(view.get_area_rect(&(4, 4)), ((0, 0), (4, 4)));
    assert_eq!(view.get_layers(), 2);
}

#[test]
fn set_view_pos_shifts_from_the_extent() {
    let mut view = View::new(full(), 1, full());
    view.set_screen_pos(RelativeSize2D::from((-400isize, -150isize)));
    assert_eq!(view.get_screen_rect(&(400, 200)), ((0, 50), (400, 200)));
    view.set_size(RelativeSize2D::from((40usize, 20usize)));
    assert_eq!(view.get_screen_rect(&(400, 200)), ((0, 50), (40, 20)));
}

#[test]
fn screen_layers() {
    let a = View::new(full(), 1, full());
    let b = View::new(full(), 2, full());
    let mut screen = Screen::new(a);
    screen.add_layer(b);
    assert_eq!(screen.view_stack, vec![a, b]);
    assert_eq!(screen.get_layer(1).map(|v| v.get_layers()), Some(2));
    assert!(screen.get_layer(2).is_none());
}

#[test]
fn cells_are_drawn_layer_by_layer_then_row_by_row() {
    let s = scene(
        2,
        2,
        2,
        &[(1, 1, 1, 1), (2, 0, 0, 1), (3, 1, 0, 0), (4, 0, 1, 0), (5, 0, 0, 0), (6, 1, 1, 0)],
    );
    let screen = Screen::new(View::new(full(), 2, full()));
    let tags: Vec<i32> = draw_list(&s, &screen, 20, 20).iter().map(|c| c.texture).collect();
    assert_eq!(tags, vec![5, 3, 4, 6, 2, 1]);
}

#[test]
fn only_the_layers_of_the_view_are_drawn() {
    let s = scene(1, 1, 3, &[(1, 0, 0, 0), (2, 0, 0, 1), (3, 0, 0, 2)]);
    let tags = |layers: usize| -> Vec<i32> {
        let screen = Screen::new(View::new(full(), layers, full()));
        draw_list(&s, &screen, 10, 10).iter().map(|c| c.texture).collect()
    };
    assert_eq!(tags(0), Vec::<i32>::new());
    assert_eq!(tags(2), vec![1, 2]);
    assert_eq!(tags(3), vec![1, 2, 3]);
    assert_eq!(tags(usize::MAX), vec![1, 2, 3]);
}

#[test]
fn a_part_of_the_grid_onto_a_part_of_the_surface() {
    let s = scene(4, 4, 1, &[(1, 0, 0, 0), (2, 1, 1, 0), (3, 2, 2, 0), (4, 3, 3, 0)]);
    let view = View::new(
        Rect::new(RelativeSize2D::from((1usize, 1usize)), RelativeSize2D::from((2usize, 2usize))),
        1,
        Rect::new(RelativeSize2D::from((10usize, 20usize)), RelativeSize2D::from((100usize, 60usize))),
    );
    assert_eq!(
        project(&view, (4, 4), (400, 200)),
        Projection {
            area: AbsoluteRect { x: 1, y: 1, width: 2, height: 2 },
            layers: 1,
            screen: AbsoluteRect { x: 10, y: 20, width: 100, height: 60 },
        }
    );
    let screen = Screen::new(view);
    assert_eq!(
        draw_list(&s, &screen, 400, 200),
        vec![cmd(2, 60, 50, 50, 30), cmd(3, 110, 80, 50, 30)]
    );
}

#[test]
fn a_view_beyond_the_grid_draws_what_the_grid_has() {
    let s = scene(2, 2, 1, &[(1, 1, 1, 0)]);
    let view = View::new(
        Rect::new(RelativeSize2D::from((1usize, 0usize)), RelativeSize2D::from((5usize, usize::MAX))),
        9,
        Rect::new(RelativeSize2D::from((0usize, 0usize)), RelativeSize2D::from((50usize, usize::MAX))),
    );
    assert_eq!(draw_list(&s, &Screen::new(view), 1, 1), vec![cmd(1, 10, 1, 10, 1)]);
    let outside = View::new(
        Rect::new(RelativeSize2D::from((2usize, 2usize)), RelativeSize2D::from((4usize, 4usize))),
        1,
        full(),
    );
    assert_eq!(draw_list(&s, &Screen::new(outside), 100, 100), vec![]);
}

#[test]
fn a_view_that_shows_nothing_draws_nothing() {
    let s = scene(2, 2, 1, &[(1, 0, 0, 0)]);
    let empty = View::new(Rect::new(percent(0., 0.), percent(0., 1.)), 1, full());
    assert_eq!(draw_list(&s, &Screen::new(empty), 100, 100), vec![]);
    let flat = View::new(Rect::new(percent(0., 0.), percent(1., 0.)), 1, full());
    assert_eq!(draw_list(&s, &Screen::new(flat), 100, 100), vec![]);
}

#[test]
fn later_views_are_drawn_after_earlier_ones() {
    let s = scene(1, 1, 1, &[(7, 0, 0, 0)]);
    let mut screen = Screen::new(View::new(full(), 1, full()));
    screen.add_layer(View::new(full(), 1, Rect::new(percent(0.5, 0.5), percent(0.5, 0.5))));
    assert_eq!(
        draw_list(&s, &screen, 100, 60),
        vec![cmd(7, 0, 0, 100, 60), cmd(7, 50, 30, 50, 30)]
    );
}

#[test]
fn wide_coordinates_do_not_wrap() {
    let mut s: Scene<()> = Scene::new(Area::new(3, 1, 1));
    s.add_object(GameObject::new(1, Position::new(2, 0, 0))).unwrap();
    let view = View::new(
        Rect::new(RelativeSize2D::from((2usize, 0usize)), RelativeSize2D::from((1usize, 1usize))),
        1,
        Rect::new(
            RelativeSize2D::from((usize::MAX, 0usize)),
            RelativeSize2D::from((usize::MAX, 1usize)),
        ),
    );
    let m = usize::MAX as u128;
    assert_eq!(
        draw_list(&s, &Screen::new(view), 0, 0),
        vec![cmd(1, 2 * m + m, 0, usize::MAX, 1)]
    );
}
