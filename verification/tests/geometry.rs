use tile_engine::geometry::position::Position;
use tile_engine::geometry::rect::{AbsoluteRect, Rect};
use tile_engine::geometry::relative_component::RelativeComponent;
use tile_engine::geometry::scale::Scale;
use tile_engine::geometry::size::{RelativeSize, RelativeSize2D};

fn scale(f: f32) -> Scale {
    Scale::from_bits(f.to_bits())
}

#[test]
fn pos_create() {
    Position::new(0, 0, 0);
    Position::new(usize::MAX, usize::MAX, usize::MAX);
}

#[test]
fn pos_accessors_and_set() {
    let mut p = Position::new(1, 2, 3);
    assert_eq!((p.get_x(), p.get_y(), p.get_z()), (1, 2, 3));
    p.set(4, 5, 6);
    assert_eq!(p, Position::new(4, 5, 6));
    p.change_cords(1, 0, 10);
    assert_eq!(p, Position::new(5, 5, 16));
    assert_ne!(Position::new(0, 0, 1), Position::new(0, 0, 0));
}

#[test]
fn scale_keeps_its_bits() {
    assert_eq!(scale(0.5).to_bits(), 0x3f00_0000);
    assert_eq!(Scale::from_bits(0x3f80_0000).to_bits(), 1.0f32.to_bits());
}

#[test]
fn scale_of_exact_values() {
    assert_eq!(scale(1.0).of(400), 400);
    assert_eq!(scale(0.5).of(400), 200);
    assert_eq!(scale(0.5).of(200), 100);
    assert_eq!(scale(0.5).of(201), 100);
    assert_eq!(scale(0.25).of(7), 1);
    assert_eq!(scale(2.0).of(21), 42);
    assert_eq!(scale(1.5).of(3), 4);
    assert_eq!(scale(0.0).of(1234), 0);
    assert_eq!(scale(1.0).of(0), 0);
    assert_eq!(scale(3.0).of(usize::MAX), usize::MAX);
    assert_eq!(scale(1.0).of(usize::MAX), usize::MAX);
    assert_eq!(scale(0.5).of(usize::MAX), usize::MAX / 2);
}

#[test]
fn scale_of_special_values() {
    assert_eq!(scale(-1.0).of(400), 0);
    assert_eq!(scale(-0.0).of(400), 0);
    assert_eq!(scale(f32::NAN).of(400), 0);
    assert_eq!(scale(f32::INFINITY).of(400), usize::MAX);
    assert_eq!(scale(f32::INFINITY).of(0), 0);
    assert_eq!(scale(f32::NEG_INFINITY).of(400), 0);
    assert_eq!(scale(f32::MAX).of(1), usize::MAX);
    assert_eq!(scale(f32::MAX).of(0), 0);
    assert_eq!(scale(f32::MIN_POSITIVE).of(usize::MAX), 0);
    assert_eq!(Scale::from_bits(1).of(usize::MAX), 0);
    assert_eq!(scale(1.0e-3).of(0), 0);
}

#[test]
fn scale_of_agrees_with_floats_where_they_are_exact() {
    let factors = [0.0f32, 0.125, 0.25, 0.5, 0.75, 1.0, 1.25, 2.0, 3.5, 16.0, 1024.0];
    let references = [0usize, 1, 2, 3, 7, 8, 100, 199, 400, 1023, 65536, 1_000_000];
    for f in factors {
        for r in references {
            assert_eq!(scale(f).of(r), (r as f32 * f) as usize, "{} of {}", f, r);
        }
    }
}

#[test]
fn relative_size_resolves() {
    assert_eq!(RelativeSize::Percent(scale(0.5)).get_absolute(&400), 200);
    assert_eq!(RelativeSize::Absolute(17).get_absolute(&400), 17);
    assert_eq!(RelativeSize::Shift(5).get_absolute(&400), 405);
    assert_eq!(RelativeSize::Shift(-5).get_absolute(&400), 395);
    assert_eq!(RelativeSize::Shift(-400).get_absolute(&400), 0);
    assert_eq!(RelativeSize::Shift(-401).get_absolute(&400), 0);
    assert_eq!(RelativeSize::Shift(isize::MIN).get_absolute(&400), 0);
    assert_eq!(RelativeSize::Shift(isize::MIN).get_absolute(&usize::MAX), usize::MAX / 2);
    assert_eq!(RelativeSize::Shift(1).get_absolute(&usize::MAX), usize::MAX);
    assert_eq!(RelativeSize::Shift(isize::MAX).get_absolute(&usize::MAX), usize::MAX);
    assert_eq!(RelativeSize::Shift(0).get_absolute(&0), 0);
}

#[test]
fn relative_size_conversions() {
    assert_eq!(RelativeSize::from(3usize), RelativeSize::Absolute(3));
    assert_eq!(RelativeSize::from(-3isize), RelativeSize::Shift(-3));
    assert_eq!(RelativeSize::from(scale(0.5)), RelativeSize::Percent(scale(0.5)));
    assert_eq!(
        RelativeSize2D::from((1usize, 2usize)),
        RelativeSize2D(RelativeSize::Absolute(1), RelativeSize::Absolute(2))
    );
    assert_eq!(
        RelativeSize2D::from((-1isize, 2isize)),
        RelativeSize2D(RelativeSize::Shift(-1), RelativeSize::Shift(2))
    );
    assert_eq!(
        RelativeSize2D::from((scale(0.0), scale(1.0))),
        RelativeSize2D(RelativeSize::Percent(scale(0.0)), RelativeSize::Percent(scale(1.0)))
    );
    assert_eq!(
        RelativeSize2D::from(RelativeSize::Absolute(9)),
        RelativeSize2D(RelativeSize::Absolute(9), RelativeSize::Absolute(9))
    );
}

#[test]
fn relative_size_2d_resolves_each_axis() {
    let s = RelativeSize2D(RelativeSize::Percent(scale(0.5)), RelativeSize::Shift(-10));
    assert_eq!(s.get_absolute(&(400, 200)), (200, 190));
}

#[test]
fn rect_resolves() {
    let r = Rect::new(
        RelativeSize2D::from((10usize, 20usize)),
        RelativeSize2D::from((scale(0.5), scale(1.0))),
    );
    assert_eq!(r.get_absolute(&(400, 200)), ((10, 20), (200, 200)));
    assert_eq!(r.resolve(&(400, 200)), AbsoluteRect { x: 10, y: 20, width: 200, height: 200 });
    let q = Rect::square(RelativeSize2D::from((0usize, 0usize)), RelativeSize::Absolute(8));
    assert_eq!(q.get_absolute(&(400, 200)), ((0, 0), (8, 8)));
}
