use sfml::graphics::{vertex_array_bounds, Color, Rect, Vertex};
use sfml::system::Vector2;

fn at(x: i64, y: i64) -> Vertex {
    Vertex::new(Vector2::new(x, y), Color::rgb(1, 2, 3), Vector2::new(0, 0))
}

#[test]
fn no_vertices_have_the_zero_rectangle() {
    assert_eq!(vertex_array_bounds(&[]), Rect::new(0, 0, 0, 0));
    assert_eq!(vertex_array_bounds(&[]), Rect::default());
}

#[test]
fn one_vertex_has_an_empty_rectangle_at_its_position() {
    assert_eq!(vertex_array_bounds(&[at(5, -7)]), Rect::new(5, -7, 0, 0));
}

#[test]
fn bounds_reach_from_the_least_to_the_greatest_coordinates() {
    let vertices = [at(3, 4), at(-2, 10), at(8, -1), at(0, 0)];
    assert_eq!(vertex_array_bounds(&vertices), Rect::new(-2, -1, 10, 11));
}

#[test]
fn bounds_do_not_depend_on_the_order() {
    let rising = [at(1, 1), at(2, 2), at(3, 3)];
    let falling = [at(3, 3), at(2, 2), at(1, 1)];
    assert_eq!(vertex_array_bounds(&rising), Rect::new(1, 1, 2, 2));
    assert_eq!(vertex_array_bounds(&falling), Rect::new(1, 1, 2, 2));
}

#[test]
fn a_size_beyond_the_range_saturates() {
    let vertices = [at(i64::MIN, i64::MIN), at(i64::MAX, 0)];
    assert_eq!(
        vertex_array_bounds(&vertices),
        Rect::new(i64::MIN, i64::MIN, i64::MAX, i64::MAX)
    );
}

#[test]
fn color_and_texture_coordinates_do_not_matter() {
    let plain = Vertex::new(Vector2::new(1, 2), Color::rgba(0, 0, 0, 0), Vector2::new(9, 9));
    let other = Vertex::new(Vector2::new(4, 6), Color::rgb(255, 255, 255), Vector2::new(-9, 0));
    assert_eq!(vertex_array_bounds(&[plain, other]), Rect::new(1, 2, 3, 4));
}
