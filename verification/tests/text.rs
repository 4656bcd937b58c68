use sfml::fixed::ONE;
use sfml::graphics::{
    Color, DrawCall, Font, Glyph, IntRect, LineMetrics, PrimitiveType, Rect, Rotation, Text,
    TextStyle, Transform, Transformable, Vertex,
};
use sfml::system::Vector2;

const WHITE: Color = Color { r: 255, g: 255, b: 255, a: 255 };
const BLACK: Color = Color { r: 0, g: 0, b: 0, a: 255 };

fn px(pixels: i64) -> i64 {
    pixels * ONE
}

fn test_font() -> Font {
    let mut font = Font::new();
    font.insert_glyph(
        'A' as u32,
        30,
        false,
        0,
        Glyph {
            advance: px(20),
            bounds: Rect::new(px(1), px(-22), px(18), px(22)),
            texture_rect: IntRect::new(10, 20, 18, 22),
        },
    );
    font.insert_glyph(
        'A' as u32,
        30,
        false,
        px(2),
        Glyph {
            advance: px(20),
            bounds: Rect::new(px(-1), px(-24), px(22), px(26)),
            texture_rect: IntRect::new(100, 20, 22, 26),
        },
    );
    font.insert_glyph(
        'A' as u32,
        12,
        false,
        0,
        Glyph {
            advance: px(8),
            bounds: Rect::new(0, px(-9), px(7), px(9)),
            texture_rect: IntRect::new(10, 60, 7, 9),
        },
    );
    font.insert_glyph(
        'B' as u32,
        30,
        false,
        0,
        Glyph {
            advance: px(18),
            bounds: Rect::new(px(2), px(-21), px(15), px(21)),
            texture_rect: IntRect::new(40, 20, 15, 21),
        },
    );
    font.insert_glyph(
        ' ' as u32,
        30,
        false,
        0,
        Glyph { advance: px(9), bounds: Rect::default(), texture_rect: IntRect::default() },
    );
    font.insert_kerning('A' as u32, 'B' as u32, 30, false, px(-1));
    font.insert_line_metrics(
        30,
        LineMetrics {
            line_spacing: px(35),
            underline_position: px(3),
            underline_thickness: px(2),
        },
    );
    font.insert_line_metrics(
        12,
        LineMetrics {
            line_spacing: px(14),
            underline_position: px(1),
            underline_thickness: px(1),
        },
    );
    font
}

fn vertex(x: i64, y: i64, color: Color, u: i64, v: i64) -> Vertex {
    Vertex::new(Vector2::new(x, y), color, Vector2::new(u, v))
}

fn quad(left: i64, top: i64, right: i64, bottom: i64, color: Color, uv: [i64; 4]) -> Vec<Vertex> {
    let [u1, v1, u2, v2] = uv;
    vec![
        vertex(left, top, color, u1, v1),
        vertex(right, top, color, u2, v1),
        vertex(left, bottom, color, u1, v2),
        vertex(left, bottom, color, u1, v2),
        vertex(right, top, color, u2, v1),
        vertex(right, bottom, color, u2, v2),
    ]
}

fn quad_of_a(color: Color) -> Vec<Vertex> {
    quad(0, px(7), px(20), px(31), color, [px(9), px(19), px(29), px(43)])
}

fn identity() -> Transform {
    Transform::default()
}

#[test]
fn a_default_text_is_empty_and_regular() {
    let mut text = Text::default();
    assert_eq!(text.string(), "");
    assert!(text.font().is_none());
    assert_eq!(text.character_size(), 30);
    assert_eq!(text.letter_spacing(), ONE);
    assert_eq!(text.style(), TextStyle::regular());
    assert_eq!(text.fill_color(), Color::rgb(255, 255, 255));
    assert_eq!(text.outline_color(), Color::rgb(0, 0, 0));
    assert_eq!(text.outline_thickness(), 0);
    assert_eq!(text.position(), Vector2::new(0, 0));
    assert_eq!(text.origin(), Vector2::new(0, 0));
    assert_eq!(text.get_scale(), Vector2::new(ONE, ONE));
    assert_eq!(text.rotation(), Rotation::default());
    assert_eq!(text.transform(), identity());
    assert_eq!(text.inverse_transform(), identity());
}

#[test]
fn a_new_text_has_string_font_and_size() {
    let font = test_font();
    let text = Text::new(String::from("AB"), &font, 12);
    assert_eq!(text.string(), "AB");
    assert!(text.font().is_some());
    assert_eq!(text.font().unwrap().line_spacing(12), px(14));
    assert_eq!(text.character_size(), 12);
    assert_eq!(text.style(), TextStyle::regular());
    assert_eq!(text.fill_color(), WHITE);
}

#[test]
fn setters_set() {
    let font = test_font();
    let mut text = Text::default();
    text.set_string(String::from("hello"));
    text.set_font(&font);
    text.set_character_size(12);
    text.set_style(TextStyle::bold().union(TextStyle::italic()));
    text.set_fill_color(Color::rgb(1, 2, 3));
    text.set_outline_color(Color::rgba(4, 5, 6, 7));
    text.set_outline_thickness(px(2));
    text.set_letter_spacing(2 * ONE);
    text.set_line_spacing(3 * ONE);
    assert_eq!(text.string(), "hello");
    assert!(text.font().is_some());
    assert_eq!(text.character_size(), 12);
    assert!(text.style().contains(TextStyle::bold()));
    assert!(text.style().contains(TextStyle::italic()));
    assert!(!text.style().contains(TextStyle::underlined()));
    assert_eq!(text.fill_color(), Color::rgb(1, 2, 3));
    assert_eq!(text.outline_color(), Color::rgba(4, 5, 6, 7));
    assert_eq!(text.outline_thickness(), px(2));
    assert_eq!(text.letter_spacing(), 2 * ONE);
    assert_eq!(text.line_spacing(), px(42));
}

#[test]
fn a_text_without_a_font_draws_nothing() {
    let mut text = Text::default();
    text.set_string(String::from("A"));
    assert_eq!(text.draw(&identity()), None);
    assert!(text.vertices().is_empty());
    assert!(text.outline_vertices().is_empty());
    assert_eq!(text.local_bounds(), Rect::new(0, 0, 0, 0));
    assert_eq!(text.global_bounds(), Rect::new(0, 0, 0, 0));
    assert_eq!(text.line_spacing(), 0);
    assert_eq!(text.find_character_pos(0), Vector2::new(0, 0));
    assert_eq!(text.find_character_pos(usize::MAX), Vector2::new(0, 0));
}

#[test]
fn an_empty_text_has_no_geometry() {
    let font = test_font();
    let mut text = Text::new(String::new(), &font, 30);
    assert_eq!(
        text.draw(&identity()),
        Some(DrawCall { primitive: PrimitiveType::Triangles, transform: identity(), outline: false })
    );
    assert!(text.vertices().is_empty());
    assert!(text.outline_vertices().is_empty());
    assert_eq!(text.local_bounds(), Rect::new(0, 0, 0, 0));
}

#[test]
fn a_single_letter_is_drawn_as_one_quad() {
    let font = test_font();
    let mut text = Text::new(String::from("A"), &font, 30);
    let call = text.draw(&identity());
    assert_eq!(call, Some(DrawCall { primitive: PrimitiveType::Triangles, transform: identity(), outline: false }));
    assert_eq!(text.vertices().len(), 6);
    assert_eq!(*text.vertices(), quad_of_a(WHITE));
    assert!(text.outline_vertices().is_empty());
}

#[test]
fn an_underlined_text_of_two_lines_has_two_lines_drawn() {
    let font = test_font();
    let mut text = Text::new(String::from("A\nB"), &font, 30);
    text.set_style(TextStyle::underlined());
    assert!(text.draw(&identity()).is_some());
    let vertices = text.vertices();
    assert_eq!(vertices.len(), 24);
    let lines: Vec<&Vertex> = vertices
        .iter()
        .filter(|vertex| vertex.tex_coords == Vector2::new(ONE, ONE))
        .collect();
    assert_eq!(lines.len(), 12);
    // the first line under the first baseline, from the left edge to the pen
    assert_eq!(lines[0].position, Vector2::new(0, px(32)));
    assert_eq!(lines[5].position, Vector2::new(px(20), px(34)));
    // the second under the second baseline
    assert_eq!(lines[6].position, Vector2::new(0, px(67)));
    assert_eq!(lines[11].position, Vector2::new(px(18), px(69)));
}

#[test]
fn drawing_twice_draws_the_same() {
    let font = test_font();
    let mut text = Text::new(String::from("AB A"), &font, 30);
    text.set_style(TextStyle::underlined().union(TextStyle::italic()));
    text.set_outline_thickness(px(2));
    text.set_position(Vector2::new(px(3), px(4)));
    let states = Transform::new(px(2), 0, px(1), 0, px(2), px(1), 0, 0, ONE);
    let first = text.draw(&states);
    let first_fill = text.vertices().clone();
    let first_outline = text.outline_vertices().clone();
    let second = text.draw(&states);
    assert_eq!(first, second);
    assert_eq!(*text.vertices(), first_fill);
    assert_eq!(*text.outline_vertices(), first_outline);
}

#[test]
fn a_change_shows_at_the_next_draw() {
    let font = test_font();
    let mut text = Text::new(String::from("B"), &font, 30);
    assert!(text.draw(&identity()).is_some());
    text.set_string(String::from("A"));
    assert!(text.draw(&identity()).is_some());
    assert_eq!(*text.vertices(), quad_of_a(WHITE));
    text.set_fill_color(Color::rgb(9, 9, 9));
    assert!(text.draw(&identity()).is_some());
    assert_eq!(*text.vertices(), quad_of_a(Color::rgb(9, 9, 9)));
    text.set_character_size(12);
    assert!(text.draw(&identity()).is_some());
    assert_eq!(
        *text.vertices(),
        quad(px(-1), px(2), px(8), px(13), Color::rgb(9, 9, 9), [px(9), px(59), px(18), px(70)])
    );
}

#[test]
fn setting_the_same_string_keeps_the_geometry() {
    let font = test_font();
    let mut text = Text::new(String::from("A"), &font, 30);
    assert!(text.draw(&identity()).is_some());
    text.set_string(String::from("A"));
    assert_eq!(*text.vertices(), quad_of_a(WHITE));
    assert_eq!(text.local_bounds(), Rect::new(px(1), px(8), px(18), px(22)));
}

#[test]
fn an_outline_comes_and_goes_and_leaves_the_fill() {
    let font = test_font();
    let mut text = Text::new(String::from("A"), &font, 30);
    text.set_outline_thickness(px(2));
    let call = text.draw(&identity());
    assert_eq!(call, Some(DrawCall { primitive: PrimitiveType::Triangles, transform: identity(), outline: true }));
    assert_eq!(*text.vertices(), quad_of_a(WHITE));
    assert_eq!(
        *text.outline_vertices(),
        quad(px(-2), px(5), px(22), px(33), BLACK, [px(99), px(19), px(123), px(47)])
    );
    text.set_outline_thickness(0);
    let call = text.draw(&identity());
    assert_eq!(call, Some(DrawCall { primitive: PrimitiveType::Triangles, transform: identity(), outline: false }));
    assert!(text.outline_vertices().is_empty());
    assert_eq!(*text.vertices(), quad_of_a(WHITE));
}

#[test]
fn the_first_character_stands_at_the_start_of_the_baseline() {
    let font = test_font();
    let mut text = Text::new(String::from("AB"), &font, 30);
    assert_eq!(text.find_character_pos(0), Vector2::new(0, px(30)));
    text.set_position(Vector2::new(px(100), px(50)));
    assert_eq!(text.find_character_pos(0), Vector2::new(px(100), px(80)));
    text.set_scale(Vector2::new(px(2), px(2)));
    assert_eq!(text.find_character_pos(0), Vector2::new(px(100), px(110)));
}

#[test]
fn an_index_past_the_end_stands_for_the_end() {
    let font = test_font();
    let mut text = Text::new(String::from("AB"), &font, 30);
    // 20, kerning -1, 18
    assert_eq!(text.find_character_pos(1), Vector2::new(px(20), px(30)));
    assert_eq!(text.find_character_pos(2), Vector2::new(px(37), px(30)));
    assert_eq!(text.find_character_pos(3), Vector2::new(px(37), px(30)));
    assert_eq!(text.find_character_pos(usize::MAX), Vector2::new(px(37), px(30)));
}

#[test]
fn characters_of_later_lines_stand_on_later_baselines() {
    let font = test_font();
    let mut text = Text::new(String::from("A \r\nB"), &font, 30);
    assert_eq!(text.find_character_pos(2), Vector2::new(px(29), px(30)));
    assert_eq!(text.find_character_pos(3), Vector2::new(px(29), px(30)));
    assert_eq!(text.find_character_pos(4), Vector2::new(0, px(65)));
    assert_eq!(text.find_character_pos(5), Vector2::new(px(18), px(65)));
    text.set_line_spacing(2 * ONE);
    assert_eq!(text.find_character_pos(4), Vector2::new(0, px(100)));
}

#[test]
fn bounds_are_those_of_the_geometry() {
    let font = test_font();
    let mut text = Text::new(String::from("A"), &font, 30);
    assert_eq!(text.local_bounds(), Rect::new(px(1), px(8), px(18), px(22)));
    assert_eq!(text.global_bounds(), Rect::new(px(1), px(8), px(18), px(22)));
    text.set_position(Vector2::new(px(10), px(20)));
    text.set_scale(Vector2::new(px(2), px(3)));
    assert_eq!(text.local_bounds(), Rect::new(px(1), px(8), px(18), px(22)));
    assert_eq!(text.global_bounds(), Rect::new(px(12), px(44), px(36), px(66)));
}

#[test]
fn the_line_spacing_is_that_of_the_font_times_the_factor() {
    let font = test_font();
    let mut text = Text::new(String::from("A"), &font, 30);
    assert_eq!(text.line_spacing(), px(35));
    text.set_line_spacing(ONE / 2);
    assert_eq!(text.line_spacing(), px(35) / 2);
    text.set_character_size(12);
    assert_eq!(text.line_spacing(), px(7));
    text.set_character_size(13);
    assert_eq!(text.line_spacing(), 0);
}

#[test]
fn a_text_is_drawn_under_the_given_transform_and_its_own() {
    let font = test_font();
    let mut text = Text::new(String::from("A"), &font, 30);
    text.set_position(Vector2::new(px(5), px(6)));
    let states = Transform::new(px(2), 0, px(10), 0, px(2), 0, 0, 0, ONE);
    assert_eq!(
        text.draw(&states),
        Some(DrawCall {
            primitive: PrimitiveType::Triangles,
            transform: Transform::new(px(2), 0, px(20), 0, px(2), px(12), 0, 0, ONE),
            outline: false,
        })
    );
    // the vertices stay in local coordinates
    assert_eq!(*text.vertices(), quad_of_a(WHITE));
}

#[test]
fn a_text_is_moved_rotated_and_scaled() {
    let mut text = Text::default();
    text.set_position(Vector2::new(px(1), px(2)));
    text.move_(Vector2::new(px(10), px(20)));
    assert_eq!(text.position(), Vector2::new(px(11), px(22)));
    text.set_scale(Vector2::new(px(2), px(3)));
    text.scale(Vector2::new(px(2), px(2)));
    assert_eq!(text.get_scale(), Vector2::new(px(4), px(6)));
    text.set_origin(Vector2::new(px(1), px(1)));
    assert_eq!(text.origin(), Vector2::new(px(1), px(1)));
    text.set_rotation(Rotation::new(px(90), 0, ONE));
    text.rotate(Rotation::new(px(90), 0, ONE));
    assert_eq!(text.rotation(), Rotation::new(px(180), -ONE, 0));
    // cos = -1, sin = 0: sxc = -4, syc = -6; tx = 1 * 4 + 11, ty = 1 * 6 + 22
    assert_eq!(
        text.transform(),
        Transform::new(px(-4), 0, px(15), 0, px(-6), px(28), 0, 0, ONE)
    );
    assert_eq!(
        text.transform().transform_point(Vector2::new(px(1), px(1))),
        Vector2::new(px(11), px(22))
    );
}

#[test]
fn the_transform_follows_every_change() {
    let mut text = Text::default();
    assert_eq!(text.transform(), identity());
    text.move_(Vector2::new(px(1), 0));
    assert_eq!(text.transform(), Transform::new(ONE, 0, px(1), 0, ONE, 0, 0, 0, ONE));
    text.move_(Vector2::new(px(1), 0));
    assert_eq!(text.transform(), Transform::new(ONE, 0, px(2), 0, ONE, 0, 0, 0, ONE));
    assert_eq!(text.inverse_transform(), Transform::new(ONE, 0, px(-2), 0, ONE, 0, 0, 0, ONE));
    text.set_position(Vector2::new(0, 0));
    assert_eq!(text.transform(), identity());
}

#[test]
fn a_clone_draws_what_the_text_draws() {
    let font = test_font();
    let mut text = Text::new(String::from("AB"), &font, 30);
    text.set_style(TextStyle::underlined());
    text.set_position(Vector2::new(px(7), px(8)));
    let mut copy = text.clone();
    assert_eq!(copy.string(), "AB");
    assert_eq!(copy.style(), TextStyle::underlined());
    assert_eq!(copy.position(), Vector2::new(px(7), px(8)));
    assert_eq!(copy.draw(&identity()), text.draw(&identity()));
    assert_eq!(*copy.vertices(), *text.vertices());
    assert_eq!(copy.local_bounds(), text.local_bounds());
    // the copy is a text of its own
    copy.set_string(String::from("A"));
    assert_eq!(text.string(), "AB");
}

#[test]
fn two_texts_share_one_font() {
    let font = test_font();
    let mut first = Text::new(String::from("A"), &font, 30);
    let mut second = Text::new(String::from("A"), &font, 30);
    assert!(first.draw(&identity()).is_some());
    assert!(second.draw(&identity()).is_some());
    assert_eq!(*first.vertices(), *second.vertices());
}

#[test]
fn a_change_leaves_what_the_text_keeps_until_it_is_read() {
    let font = test_font();
    let mut text = Text::new(String::from("A"), &font, 30);
    assert!(text.vertices().is_empty());
    assert!(text.draw(&identity()).is_some());
    text.set_string(String::from("B"));
    assert_eq!(*text.vertices(), quad_of_a(WHITE));
    text.set_fill_color(BLACK);
    text.set_outline_thickness(px(2));
    text.set_style(TextStyle::underlined());
    text.set_character_size(12);
    text.set_letter_spacing(2 * ONE);
    text.set_line_spacing(2 * ONE);
    text.set_outline_color(WHITE);
    text.set_font(&font);
    assert_eq!(*text.vertices(), quad_of_a(WHITE));
    assert!(text.outline_vertices().is_empty());
    text.set_position(Vector2::new(px(1), px(2)));
    text.move_(Vector2::new(px(1), px(2)));
    text.set_scale(Vector2::new(px(2), px(2)));
    text.scale(Vector2::new(px(2), px(2)));
    text.set_origin(Vector2::new(px(1), px(1)));
    text.set_rotation(Rotation::new(px(90), 0, ONE));
    text.rotate(Rotation::new(px(90), 0, ONE));
    // the start of the baseline, (0, 12), turned round, scaled by 4 and moved to (6, 8)
    assert_eq!(text.find_character_pos(0), Vector2::new(px(6), px(-40)));
    assert_ne!(text.transform(), identity());
    assert_ne!(text.inverse_transform(), identity());
    assert_eq!(*text.vertices(), quad_of_a(WHITE));
    assert!(text.outline_vertices().is_empty());
}
