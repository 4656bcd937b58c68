use sfml::graphics::{Font, Glyph, IntRect, LineMetrics, Rect};

fn glyph(advance: i64) -> Glyph {
    Glyph { advance, bounds: Rect::new(1, 2, 3, 4), texture_rect: IntRect::new(5, 6, 7, 8) }
}

#[test]
fn an_empty_font_answers_with_blanks() {
    let font = Font::new();
    assert_eq!(font.glyph(65, 30, false, 0), Glyph::default());
    assert_eq!(font.glyph(65, 30, false, 0).advance(), 0);
    assert_eq!(font.glyph(65, 30, false, 0).bounds(), Rect::default());
    assert_eq!(font.glyph(65, 30, false, 0).texture_rect(), IntRect::default());
    assert_eq!(font.kerning(65, 66, 30), 0);
    assert_eq!(font.bold_kerning(65, 66, 30), 0);
    assert_eq!(font.line_spacing(30), 0);
    assert_eq!(font.underline_position(30), 0);
    assert_eq!(font.underline_thickness(30), 0);
}

#[test]
fn a_glyph_is_found_by_all_of_its_key() {
    let mut font = Font::new();
    font.insert_glyph(65, 30, false, 0, glyph(10));
    font.insert_glyph(65, 30, true, 0, glyph(11));
    font.insert_glyph(65, 30, false, 2, glyph(12));
    font.insert_glyph(65, 12, false, 0, glyph(13));
    font.insert_glyph(66, 30, false, 0, glyph(14));
    assert_eq!(font.glyph(65, 30, false, 0), glyph(10));
    assert_eq!(font.glyph(65, 30, true, 0), glyph(11));
    assert_eq!(font.glyph(65, 30, false, 2), glyph(12));
    assert_eq!(font.glyph(65, 12, false, 0), glyph(13));
    assert_eq!(font.glyph(66, 30, false, 0), glyph(14));
    assert_eq!(font.glyph(66, 30, true, 0), Glyph::default());
}

#[test]
fn a_later_glyph_replaces_an_earlier_one() {
    let mut font = Font::new();
    font.insert_glyph(65, 30, false, 0, glyph(10));
    font.insert_glyph(66, 30, false, 0, glyph(20));
    font.insert_glyph(65, 30, false, 0, glyph(30));
    assert_eq!(font.glyph(65, 30, false, 0), glyph(30));
    assert_eq!(font.glyph(66, 30, false, 0), glyph(20));
}

#[test]
fn kerning_is_kept_by_weight() {
    let mut font = Font::new();
    font.insert_kerning(65, 66, 30, false, -3);
    font.insert_kerning(65, 66, 30, true, -4);
    assert_eq!(font.kerning(65, 66, 30), -3);
    assert_eq!(font.bold_kerning(65, 66, 30), -4);
    assert_eq!(font.kerning(66, 65, 30), 0);
    assert_eq!(font.kerning(65, 66, 31), 0);
    font.insert_kerning(65, 66, 30, false, 5);
    assert_eq!(font.kerning(65, 66, 30), 5);
    assert_eq!(font.bold_kerning(65, 66, 30), -4);
}

#[test]
fn line_metrics_are_kept_by_character_size() {
    let mut font = Font::new();
    let small = LineMetrics { line_spacing: 14, underline_position: 1, underline_thickness: 2 };
    let large = LineMetrics { line_spacing: 35, underline_position: 3, underline_thickness: 4 };
    font.insert_line_metrics(12, small);
    font.insert_line_metrics(30, large);
    assert_eq!(font.line_metrics(12), small);
    assert_eq!(font.line_spacing(30), 35);
    assert_eq!(font.underline_position(30), 3);
    assert_eq!(font.underline_thickness(30), 4);
    assert_eq!(font.line_spacing(13), 0);
    font.insert_line_metrics(12, large);
    assert_eq!(font.line_metrics(12), large);
}
