//! Text layout: from a string, the metrics of a font and a format to the
//! vertices of the glyphs and of the decoration lines, and to their bounds.
//!
//! The pen starts on the first baseline, at `(0, character size)`, and walks the
//! string character by character. Each glyph and each underline or
//! strike-through line becomes a quad of six vertices, two triangles.

use vstd::prelude::*;
use crate::fixed::{
    ceil_whole, floor_div, floor_whole, greater, lesser, magnitude, multiply, saturate,
    saturated, scaled,    HALF, ONE,
};
use crate::graphics::color::Color;
use crate::graphics::font::{Font, FontView};
use crate::graphics::glyph::Glyph;
use crate::graphics::rect::Rect;
use crate::graphics::text_style::TextStyle;
use crate::graphics::vertex::Vertex;
use crate::system::Vector2;

verus! {

/// How far an italic glyph leans: 209/1000 of the height above the baseline,
/// close to a slant of 12 degrees.
pub const ITALIC_SHEAR_PER_MILLE: i64 = 209;

/// The horizontal shift of a point at height `v` when the text is italic,
/// rounded down; 0 when it is not.
pub open spec fn shear(italic: bool, v: int) -> int {
    if italic {
        (ITALIC_SHEAR_PER_MILLE * v) / 1000
    } else {
        0
    }
}

/// The vertex of a decoration line at `(x, y)`. Lines are not textured: they
/// all map to the pixel `(1, 1)` of the font's texture.
pub open spec fn line_vertex(x: int, y: int, color: Color) -> Vertex {
    Vertex {
        position: Vector2 { x: saturated(x), y: saturated(y) },
        color,
        tex_coords: Vector2 { x: ONE, y: ONE },
    }
}

/// The top edge of a decoration line: the line is centered on `line_top +
/// offset`, and its top edge is rounded to the nearest whole pixel.
pub open spec fn line_top_edge(line_top: i64, offset: i64, thickness: i64) -> int {
    floor_whole(line_top + offset - thickness as int / 2 + HALF)
}

/// The bottom edge of a decoration line: below the top edge by the thickness,
/// rounded to the nearest whole pixel.
pub open spec fn line_bottom_edge(line_top: i64, offset: i64, thickness: i64) -> int {
    line_top_edge(line_top, offset, thickness) + floor_whole(thickness + HALF)
}

/// The quad of an underline or strike-through line: it spans `[0, line_length]`
/// horizontally, and is widened by the outline thickness on all four sides.
pub open spec fn line_quad(
    line_length: i64,
    line_top: i64,
    color: Color,
    offset: i64,
    thickness: i64,
    outline_thickness: i64,
) -> Seq<Vertex> {
    let top = line_top_edge(line_top, offset, thickness);
    let bottom = line_bottom_edge(line_top, offset, thickness);
    let left = -outline_thickness;
    let right = line_length + outline_thickness;
    seq![
        line_vertex(left, top - outline_thickness, color),
        line_vertex(right, top - outline_thickness, color),
        line_vertex(left, bottom + outline_thickness, color),
        line_vertex(left, bottom + outline_thickness, color),
        line_vertex(right, top - outline_thickness, color),
        line_vertex(right, bottom + outline_thickness, color),
    ]
}

/// The vertex of a glyph quad: the corner `(column, row)` of the padded glyph
/// box, placed at `position` and sheared, mapped to the texture pixel `(u, v)`.
pub open spec fn glyph_vertex(
    position: Vector2,
    color: Color,
    italic: bool,
    column: int,
    row: int,
    u: int,
    v: int,
) -> Vertex {
    Vertex {
        position: Vector2 {
            x: saturated(position.x + column - shear(italic, row)),
            y: saturated(position.y + row),
        },
        color,
        tex_coords: Vector2 { x: saturated(u), y: saturated(v) },
    }
}

/// The quad of a glyph: its bounding box, padded by one pixel on all sides and
/// placed at `position`, with the same padding round its texture rectangle.
pub open spec fn glyph_quad(position: Vector2, color: Color, glyph: Glyph, italic: bool) -> Seq<Vertex> {
    let left = glyph.bounds.left - ONE;
    let top = glyph.bounds.top - ONE;
    let right = glyph.bounds.left + glyph.bounds.width + ONE;
    let bottom = glyph.bounds.top + glyph.bounds.height + ONE;
    let u1 = glyph.texture_rect.left * ONE - ONE;
    let v1 = glyph.texture_rect.top * ONE - ONE;
    let u2 = (glyph.texture_rect.left + glyph.texture_rect.width) * ONE + ONE;
    let v2 = (glyph.texture_rect.top + glyph.texture_rect.height) * ONE + ONE;
    seq![
        glyph_vertex(position, color, italic, left, top, u1, v1),
        glyph_vertex(position, color, italic, right, top, u2, v1),
        glyph_vertex(position, color, italic, left, bottom, u1, v2),
        glyph_vertex(position, color, italic, left, bottom, u1, v2),
        glyph_vertex(position, color, italic, right, top, u2, v1),
        glyph_vertex(position, color, italic, right, bottom, u2, v2),
    ]
}

/// The horizontal shift of a point at height `v` when the text is italic.
fn sheared(italic: bool, v: i128) -> (shift: i128)
    requires
        -0x1_0000_0000_0000_0000_0000 <= v <= 0x1_0000_0000_0000_0000_0000,
    ensures
        shift == shear(italic, v as int),
        -0x1_0000_0000_0000_0000_0000 <= shift <= 0x1_0000_0000_0000_0000_0000,
{
    if italic {
        assert(ITALIC_SHEAR_PER_MILLE * v == 209 * v);
        floor_div((ITALIC_SHEAR_PER_MILLE as i128) * v, 1000)
    } else {
        0
    }
}

/// Add an underline or strikethrough line to the vertex array
pub fn add_line(
    vertices: &mut Vec<Vertex>,
    line_length: i64,
    line_top: i64,
    color: Color,
    offset: i64,
    thickness: i64,
    outline_thickness: i64,
)
    ensures
        final(vertices)@ == old(vertices)@ + line_quad(
            line_length,
            line_top,
            color,
            offset,
            thickness,
            outline_thickness,
        ),
{
    let center: i128 = line_top as i128 + offset as i128 - floor_div(thickness as i128, 2)
        + HALF as i128;
    let top: i128 = floor_div(center, ONE as i128) * (ONE as i128);
    let bottom: i128 = top + floor_div(thickness as i128 + HALF as i128, ONE as i128) * (ONE
        as i128);
    let outline: i128 = outline_thickness as i128;
    let tex_coords = Vector2::new(ONE, ONE);
    let left: i64 = saturate(-outline);
    let right: i64 = saturate(line_length as i128 + outline);
    let upper: i64 = saturate(top - outline);
    let lower: i64 = saturate(bottom + outline);
    vertices.push(Vertex { position: Vector2::new(left, upper), color, tex_coords });
    vertices.push(Vertex { position: Vector2::new(right, upper), color, tex_coords });
    vertices.push(Vertex { position: Vector2::new(left, lower), color, tex_coords });
    vertices.push(Vertex { position: Vector2::new(left, lower), color, tex_coords });
    vertices.push(Vertex { position: Vector2::new(right, upper), color, tex_coords });
    vertices.push(Vertex { position: Vector2::new(right, lower), color, tex_coords });
    proof {
        assert(vertices@ =~= old(vertices)@ + line_quad(
            line_length,
            line_top,
            color,
            offset,
            thickness,
            outline_thickness,
        ));
    }
}

/// Add a glyph quad to the vertex array
pub fn add_glyph_quad(
    vertices: &mut Vec<Vertex>,
    position: Vector2,
    color: Color,
    glyph: Glyph,
    italic: bool,
)
    ensures
        final(vertices)@ == old(vertices)@ + glyph_quad(position, color, glyph, italic),
{
    let padding: i128 = ONE as i128;
    let bounds = glyph.bounds();
    let left: i128 = bounds.left as i128 - padding;
    let top: i128 = bounds.top as i128 - padding;
    let right: i128 = bounds.left as i128 + bounds.width as i128 + padding;
    let bottom: i128 = bounds.top as i128 + bounds.height as i128 + padding;

    let texture_rect = glyph.texture_rect();
    let u1: i64 = saturate(texture_rect.left as i128 * (ONE as i128) - padding);
    let v1: i64 = saturate(texture_rect.top as i128 * (ONE as i128) - padding);
    let u2: i64 = saturate((texture_rect.left as i128 + texture_rect.width as i128) * (ONE
        as i128) + padding);
    let v2: i64 = saturate((texture_rect.top as i128 + texture_rect.height as i128) * (ONE
        as i128) + padding);

    let x: i128 = position.x as i128;
    let y: i128 = position.y as i128;
    let top_shift: i128 = sheared(italic, top);
    let bottom_shift: i128 = sheared(italic, bottom);
    let top_left = Vector2::new(saturate(x + left - top_shift), saturate(y + top));
    let top_right = Vector2::new(saturate(x + right - top_shift), saturate(y + top));
    let bottom_left = Vector2::new(saturate(x + left - bottom_shift), saturate(y + bottom));
    let bottom_right = Vector2::new(saturate(x + right - bottom_shift), saturate(y + bottom));
    vertices.push(Vertex { position: top_left, color, tex_coords: Vector2::new(u1, v1) });
    vertices.push(Vertex { position: top_right, color, tex_coords: Vector2::new(u2, v1) });
    vertices.push(Vertex { position: bottom_left, color, tex_coords: Vector2::new(u1, v2) });
    vertices.push(Vertex { position: bottom_left, color, tex_coords: Vector2::new(u1, v2) });
    vertices.push(Vertex { position: top_right, color, tex_coords: Vector2::new(u2, v1) });
    vertices.push(Vertex { position: bottom_right, color, tex_coords: Vector2::new(u2, v2) });
    proof {
        assert(vertices@ =~= old(vertices)@ + glyph_quad(position, color, glyph, italic));
    }
}

/// How a text is to be set, apart from its string and its font.
#[derive(Clone, Copy, Debug, PartialEq, Eq, Structural)]
pub struct TextFormat {
    /// Size of the characters, in pixels.
    pub character_size: u32,
    /// Factor on the space between letters; 1 leaves it as the font has it.
    pub letter_spacing_factor: i64,
    /// Factor on the space between lines; 1 leaves it as the font has it.
    pub line_spacing_factor: i64,
    /// Style of the text.
    pub style: TextStyle,
    /// Color of the glyphs and of their decoration lines.
    pub fill_color: Color,
    /// Color of the outlines.
    pub outline_color: Color,
    /// Thickness of the outlines; 0 for none.
    pub outline_thickness: i64,
}

/// What the walk over a string reads again and again: the format and the
/// distances that follow from it and from the font.
#[derive(Clone, Copy, Debug, PartialEq, Eq, Structural)]
pub struct TextMetrics {
    /// Size of the characters, in pixels.
    pub character_size: u32,
    /// Style of the text.
    pub style: TextStyle,
    /// Color of the glyphs and of their decoration lines.
    pub fill_color: Color,
    /// Color of the outlines.
    pub outline_color: Color,
    /// Thickness of the outlines; 0 for none.
    pub outline_thickness: i64,
    /// Pen movement of a space, letter spacing included.
    pub whitespace_width: i64,
    /// Space added after each glyph.
    pub letter_spacing: i64,
    /// Distance from one baseline to the next.
    pub line_spacing: i64,
    /// Vertical offset of the underline, relative to the baseline.
    pub underline_offset: i64,
    /// Thickness of the underline, and of the strike-through line.
    pub underline_thickness: i64,
    /// Vertical offset of the strike-through line, relative to the baseline.
    pub strikethrough_offset: i64,
}

/// Code point of the space character.
pub const SPACE: u32 = 0x20;

/// Code point of the tabulation character.
pub const TAB: u32 = 0x09;

/// Code point of the line feed character.
pub const LINE_FEED: u32 = 0x0a;

/// Code point of the carriage return character.
pub const CARRIAGE_RETURN: u32 = 0x0d;

/// Code point of the lowercase letter x, whose glyph places the strike-through
/// line.
pub const LOWERCASE_X: u32 = 0x78;

/// The space added after each glyph: a third of the advance of the space
/// glyph, times the letter spacing factor less 1.
pub open spec fn letter_spacing_of(font: FontView, format: TextFormat) -> i64 {
    let space = font.glyph(SPACE, format.character_size, format.style.bold, 0).advance;
    saturated(scaled(space as int / 3, format.letter_spacing_factor - ONE))
}

/// The metrics of a text in a font: the whitespace width is the advance of the
/// space glyph plus the letter spacing, the line spacing is that of the font
/// times its factor, and the strike-through line runs through the vertical
/// center of the glyph of the lowercase x.
pub open spec fn measured(font: FontView, format: TextFormat) -> TextMetrics {
    let size = format.character_size;
    let bold = format.style.bold;
    let space = font.glyph(SPACE, size, bold, 0).advance;
    let x_bounds = font.glyph(LOWERCASE_X, size, bold, 0).bounds;
    TextMetrics {
        character_size: size,
        style: format.style,
        fill_color: format.fill_color,
        outline_color: format.outline_color,
        outline_thickness: format.outline_thickness,
        whitespace_width: saturated(space + letter_spacing_of(font, format)),
        letter_spacing: letter_spacing_of(font, format),
        line_spacing: saturated(scaled(font.line_spacing(size) as int, format.line_spacing_factor as int)),
        underline_offset: font.underline_position(size),
        underline_thickness: font.underline_thickness(size),
        strikethrough_offset: saturated(x_bounds.top + x_bounds.height as int / 2),
    }
}

/// Where the pen stands, and the character it drew last (0 before the first).
#[derive(Clone, Copy, Debug, PartialEq, Eq, Structural)]
pub struct Pen {
    /// Horizontal position, from the left edge of the text.
    pub x: i64,
    /// Vertical position of the baseline.
    pub y: i64,
    /// Code point of the last character that was not a carriage return.
    pub previous: u32,
}

/// The pen before the first character: at the left edge, on the first
/// baseline.
pub open spec fn pen_start(character_size: u32) -> Pen {
    Pen { x: 0, y: (character_size * ONE) as i64, previous: 0 }
}

/// The kerning between the previous character and `code`, in the weight of the
/// text.
pub open spec fn kerning_between(font: FontView, metrics: TextMetrics, previous: u32, code: u32) -> i64 {
    if metrics.style.bold {
        font.bold_kerning(previous, code, metrics.character_size)
    } else {
        font.kerning(previous, code, metrics.character_size)
    }
}

/// The horizontal position at which `ch` is drawn: the pen's, moved by the
/// kerning between the previous character and `ch`.
pub open spec fn kerned_x(font: FontView, metrics: TextMetrics, pen: Pen, ch: char) -> i64 {
    saturated(pen.x + kerning_between(font, metrics, pen.previous, ch as u32))
}

/// Whether `ch` moves the pen without drawing a glyph.
pub open spec fn is_blank(ch: char) -> bool {
    ch == ' ' || ch == '\n' || ch == '\t'
}

/// The pen after `ch`. A carriage return leaves it as it is. Any other
/// character first moves it by the kerning; then a space moves it by the
/// whitespace width, a tabulation by four times that, a line feed to the start
/// of the next line, and any other character by the advance of its glyph plus
/// the letter spacing.
pub open spec fn pen_advance(font: FontView, metrics: TextMetrics, pen: Pen, ch: char) -> Pen {
    if ch == '\r' {
        pen
    } else {
        let x = kerned_x(font, metrics, pen, ch);
        let code = ch as u32;
        if ch == ' ' {
            Pen { x: saturated(x + metrics.whitespace_width), y: pen.y, previous: code }
        } else if ch == '\t' {
            Pen { x: saturated(x + metrics.whitespace_width * 4), y: pen.y, previous: code }
        } else if ch == '\n' {
            Pen { x: 0, y: saturated(pen.y + metrics.line_spacing), previous: code }
        } else {
            let glyph = font.glyph(code, metrics.character_size, metrics.style.bold, 0);
            Pen {
                x: saturated(x + glyph.advance + metrics.letter_spacing),
                y: pen.y,
                previous: code,
            }
        }
    }
}

/// The pen after the first `count` characters of `text`.
pub open spec fn pen_after(font: FontView, metrics: TextMetrics, text: Seq<char>, count: int) -> Pen
    decreases count,
{
    if count <= 0 {
        pen_start(metrics.character_size)
    } else {
        pen_advance(font, metrics, pen_after(font, metrics, text, count - 1), text[count - 1])
    }
}

/// The fill vertices of the decoration lines of a line of text that ends at
/// `(x, y)`: the underline, then the strike-through line, as far as the style
/// has them.
pub open spec fn fill_decorations(metrics: TextMetrics, x: i64, y: i64) -> Seq<Vertex> {
    let underline = if metrics.style.underlined {
        line_quad(x, y, metrics.fill_color, metrics.underline_offset, metrics.underline_thickness, 0)
    } else {
        Seq::empty()
    };
    let strikethrough = if metrics.style.strikethrough {
        line_quad(
            x,
            y,
            metrics.fill_color,
            metrics.strikethrough_offset,
            metrics.underline_thickness,
            0,
        )
    } else {
        Seq::empty()
    };
    underline + strikethrough
}

/// The outline vertices of the decoration lines of a line of text that ends at
/// `(x, y)`: none without an outline, else as the fill's, widened by the outline
/// thickness and in the outline color.
pub open spec fn outline_decorations(metrics: TextMetrics, x: i64, y: i64) -> Seq<Vertex> {
    let underline = if metrics.style.underlined && metrics.outline_thickness != 0 {
        line_quad(
            x,
            y,
            metrics.outline_color,
            metrics.underline_offset,
            metrics.underline_thickness,
            metrics.outline_thickness,
        )
    } else {
        Seq::empty()
    };
    let strikethrough = if metrics.style.strikethrough && metrics.outline_thickness != 0 {
        line_quad(
            x,
            y,
            metrics.outline_color,
            metrics.strikethrough_offset,
            metrics.underline_thickness,
            metrics.outline_thickness,
        )
    } else {
        Seq::empty()
    };
    underline + strikethrough
}

/// Whether `ch` ends a line that gets its decoration lines: a line feed that
/// does not follow another line feed.
pub open spec fn ends_line(pen: Pen, ch: char) -> bool {
    ch == '\n' && pen.previous != LINE_FEED
}

/// The fill vertices that `ch` adds when the pen is at `pen`: the decoration
/// lines where `ch` ends a line, then the quad of its glyph unless `ch` is
/// blank. A carriage return adds nothing.
pub open spec fn fill_of(font: FontView, metrics: TextMetrics, pen: Pen, ch: char) -> Seq<Vertex> {
    if ch == '\r' {
        Seq::empty()
    } else {
        let x = kerned_x(font, metrics, pen, ch);
        let lines = if ends_line(pen, ch) {
            fill_decorations(metrics, x, pen.y)
        } else {
            Seq::empty()
        };
        let quad = if is_blank(ch) {
            Seq::empty()
        } else {
            glyph_quad(
                Vector2 { x, y: pen.y },
                metrics.fill_color,
                font.glyph(ch as u32, metrics.character_size, metrics.style.bold, 0),
                metrics.style.italic,
            )
        };
        lines + quad
    }
}

/// The outline vertices that `ch` adds when the pen is at `pen`: as the fill's,
/// from the outlined version of the glyph and in the outline color; none
/// without an outline.
pub open spec fn outline_of(font: FontView, metrics: TextMetrics, pen: Pen, ch: char) -> Seq<Vertex> {
    if ch == '\r' {
        Seq::empty()
    } else {
        let x = kerned_x(font, metrics, pen, ch);
        let lines = if ends_line(pen, ch) {
            outline_decorations(metrics, x, pen.y)
        } else {
            Seq::empty()
        };
        let quad = if is_blank(ch) || metrics.outline_thickness == 0 {
            Seq::empty()
        } else {
            glyph_quad(
                Vector2 { x, y: pen.y },
                metrics.outline_color,
                font.glyph(
                    ch as u32,
                    metrics.character_size,
                    metrics.style.bold,
                    metrics.outline_thickness,
                ),
                metrics.style.italic,
            )
        };
        lines + quad
    }
}

/// The fill vertices of the first `count` characters of `text`.
pub open spec fn fill_upto(font: FontView, metrics: TextMetrics, text: Seq<char>, count: int) -> Seq<Vertex>
    decreases count,
{
    if count <= 0 {
        Seq::empty()
    } else {
        fill_upto(font, metrics, text, count - 1) + fill_of(
            font,
            metrics,
            pen_after(font, metrics, text, count - 1),
            text[count - 1],
        )
    }
}

/// The outline vertices of the first `count` characters of `text`.
pub open spec fn outline_upto(font: FontView, metrics: TextMetrics, text: Seq<char>, count: int) -> Seq<Vertex>
    decreases count,
{
    if count <= 0 {
        Seq::empty()
    } else {
        outline_upto(font, metrics, text, count - 1) + outline_of(
            font,
            metrics,
            pen_after(font, metrics, text, count - 1),
            text[count - 1],
        )
    }
}

/// The least and greatest coordinates that the text has reached.
#[derive(Clone, Copy, Debug, PartialEq, Eq, Structural)]
pub struct Extremes {
    /// Least x coordinate.
    pub min_x: i64,
    /// Least y coordinate.
    pub min_y: i64,
    /// Greatest x coordinate.
    pub max_x: i64,
    /// Greatest y coordinate.
    pub max_y: i64,
}

/// The extremes before the first character.
pub open spec fn extremes_start(character_size: u32) -> Extremes {
    Extremes {
        min_x: (character_size * ONE) as i64,
        min_y: (character_size * ONE) as i64,
        max_x: 0,
        max_y: 0,
    }
}

/// The extremes after `ch`, drawn with the pen at `pen`. A carriage return
/// leaves them. A blank character extends the least ones to the pen before it
/// advances and the greatest ones to the pen after. A glyph extends them to its
/// bounding box, placed at the pen: to the left to its sheared bottom left
/// corner, to the right to its sheared top right corner, and vertically to its
/// top and bottom edges.
pub open spec fn extremes_extend(
    font: FontView,
    metrics: TextMetrics,
    extremes: Extremes,
    pen: Pen,
    ch: char,
) -> Extremes {
    if ch == '\r' {
        extremes
    } else {
        let x = kerned_x(font, metrics, pen, ch);
        if is_blank(ch) {
            let next = pen_advance(font, metrics, pen, ch);
            Extremes {
                min_x: lesser(extremes.min_x, x),
                min_y: lesser(extremes.min_y, pen.y),
                max_x: greater(extremes.max_x, next.x),
                max_y: greater(extremes.max_y, next.y),
            }
        } else {
            let bounds = font.glyph(ch as u32, metrics.character_size, metrics.style.bold, 0).bounds;
            let right = bounds.left + bounds.width;
            let bottom = bounds.top + bounds.height;
            let italic = metrics.style.italic;
            Extremes {
                min_x: lesser(extremes.min_x, saturated(x + bounds.left - shear(italic, bottom))),
                max_x: greater(
                    extremes.max_x,
                    saturated(x + right - shear(italic, bounds.top as int)),
                ),
                min_y: lesser(extremes.min_y, saturated(pen.y + bounds.top)),
                max_y: greater(extremes.max_y, saturated(pen.y + bottom)),
            }
        }
    }
}

/// The extremes after the first `count` characters of `text`.
pub open spec fn extremes_after(font: FontView, metrics: TextMetrics, text: Seq<char>, count: int) -> Extremes
    decreases count,
{
    if count <= 0 {
        extremes_start(metrics.character_size)
    } else {
        extremes_extend(
            font,
            metrics,
            extremes_after(font, metrics, text, count - 1),
            pen_after(font, metrics, text, count - 1),
            text[count - 1],
        )
    }
}

/// The extremes of a text with its outline: each moved outward by the
/// magnitude of the outline thickness, rounded up to a whole pixel.
pub open spec fn extremes_outlined(extremes: Extremes, outline_thickness: i64) -> Extremes {
    if outline_thickness == 0 {
        extremes
    } else {
        let outline = ceil_whole(magnitude(outline_thickness as int));
        Extremes {
            min_x: saturated(extremes.min_x - outline),
            min_y: saturated(extremes.min_y - outline),
            max_x: saturated(extremes.max_x + outline),
            max_y: saturated(extremes.max_y + outline),
        }
    }
}

/// The rectangle from the least to the greatest coordinates.
pub open spec fn extremes_rect(extremes: Extremes) -> Rect {
    Rect {
        left: extremes.min_x,
        top: extremes.min_y,
        width: saturated(extremes.max_x - extremes.min_x),
        height: saturated(extremes.max_y - extremes.min_y),
    }
}

/// What a text looks like: the vertices of its glyphs and lines, those of their
/// outlines, and the rectangle that bounds them.
pub struct GeometryView {
    /// The fill vertices, six for each quad.
    pub fill: Seq<Vertex>,
    /// The outline vertices, six for each quad.
    pub outline: Seq<Vertex>,
    /// The local bounding rectangle.
    pub bounds: Rect,
}

/// The geometry of nothing: no vertices, and the zero rectangle.
pub open spec fn blank_geometry() -> GeometryView {
    GeometryView {
        fill: Seq::empty(),
        outline: Seq::empty(),
        bounds: Rect { left: 0, top: 0, width: 0, height: 0 },
    }
}

/// The geometry of `text` in a font. An empty text has the blank geometry. Else
/// the pen walks the whole text; where it ends to the right of the left edge,
/// the last line gets its decoration lines too; and the bounds are the extremes
/// that the walk has reached, with the outline.
pub open spec fn laid_out(font: FontView, format: TextFormat, text: Seq<char>) -> GeometryView {
    if text.len() == 0 {
        blank_geometry()
    } else {
        let metrics = measured(font, format);
        let count = text.len() as int;
        let pen = pen_after(font, metrics, text, count);
        let fill = fill_upto(font, metrics, text, count);
        let outline = outline_upto(font, metrics, text, count);
        let extremes = extremes_outlined(
            extremes_after(font, metrics, text, count),
            metrics.outline_thickness,
        );
        GeometryView {
            fill: if pen.x > 0 {
                fill + fill_decorations(metrics, pen.x, pen.y)
            } else {
                fill
            },
            outline: if pen.x > 0 {
                outline + outline_decorations(metrics, pen.x, pen.y)
            } else {
                outline
            },
            bounds: extremes_rect(extremes),
        }
    }
}

/// The geometry of a text: vertices to draw and their bounds.
#[derive(Debug)]
pub struct Geometry {
    /// The fill vertices, six for each quad.
    pub fill: Vec<Vertex>,
    /// The outline vertices, six for each quad.
    pub outline: Vec<Vertex>,
    /// The local bounding rectangle.
    pub bounds: Rect,
}

impl View for Geometry {
    type V = GeometryView;

    open spec fn view(&self) -> GeometryView {
        GeometryView { fill: self.fill@, outline: self.outline@, bounds: self.bounds }
    }
}

/// Measures a text: the distances that its layout reads from the font.
pub fn measure(font: &Font, format: &TextFormat) -> (metrics: TextMetrics)
    ensures
        metrics == measured(font@, *format),
{
    let size = format.character_size;
    let bold = format.style.bold;
    let underline_offset = font.underline_position(size);
    let underline_thickness = font.underline_thickness(size);
    // Compute the location of the strike through dynamically
    // We use the center point of the lowercase 'x' glyph as the reference
    // We reuse the underline thickness as the thickness of the strike through as well
    let x_bounds = font.glyph(LOWERCASE_X, size, bold, 0).bounds();
    let strikethrough_offset = saturate(x_bounds.top as i128 + floor_div(x_bounds.height as i128, 2));
    let space = font.glyph(SPACE, size, bold, 0).advance();
    let third: i128 = floor_div(space as i128, 3);
    let excess: i128 = format.letter_spacing_factor as i128 - ONE as i128;
    assert(-0x4000_0000_0000_0000_0000_0000_0000_0000 < third * excess
        < 0x4000_0000_0000_0000_0000_0000_0000_0000) by (nonlinear_arith)
        requires
            -0x4000_0000_0000_0000 <= third <= 0x4000_0000_0000_0000,
            -0x8000_0000_0001_0000 <= excess <= 0x8000_0000_0000_0000,
    ;
    let letter_spacing = saturate(floor_div(third * excess, ONE as i128));
    let whitespace_width = saturate(space as i128 + letter_spacing as i128);
    let line_spacing = multiply(font.line_spacing(size), format.line_spacing_factor);
    TextMetrics {
        character_size: size,
        style: format.style,
        fill_color: format.fill_color,
        outline_color: format.outline_color,
        outline_thickness: format.outline_thickness,
        whitespace_width,
        letter_spacing,
        line_spacing,
        underline_offset,
        underline_thickness,
        strikethrough_offset,
    }
}

/// Moves the pen over one character.
pub fn advance_pen(font: &Font, metrics: &TextMetrics, pen: Pen, ch: char) -> (next: Pen)
    ensures
        next == pen_advance(font@, *metrics, pen, ch),
{
    if ch == '\r' {
        return pen;
    }
    let code = ch as u32;
    let size = metrics.character_size;
    let kerning = if metrics.style.bold {
        font.bold_kerning(pen.previous, code, size)
    } else {
        font.kerning(pen.previous, code, size)
    };
    let x: i128 = saturate(pen.x as i128 + kerning as i128) as i128;
    match ch {
        ' ' => Pen { x: saturate(x + metrics.whitespace_width as i128), y: pen.y, previous: code },
        '\t' => Pen {
            x: saturate(x + metrics.whitespace_width as i128 * 4),
            y: pen.y,
            previous: code,
        },
        '\n' => Pen {
            x: 0,
            y: saturate(pen.y as i128 + metrics.line_spacing as i128),
            previous: code,
        },
        _ => {
            let glyph = font.glyph(code, size, metrics.style.bold, 0);
            Pen {
                x: saturate(x + glyph.advance() as i128 + metrics.letter_spacing as i128),
                y: pen.y,
                previous: code,
            }
        },
    }
}

/// Adds the decoration lines of a line of text that ends at `(x, y)`: the
/// underline and the strike-through line, each with its outline.
pub fn add_decorations(
    fill: &mut Vec<Vertex>,
    outline: &mut Vec<Vertex>,
    metrics: &TextMetrics,
    x: i64,
    y: i64,
)
    ensures
        final(fill)@ == old(fill)@ + fill_decorations(*metrics, x, y),
        final(outline)@ == old(outline)@ + outline_decorations(*metrics, x, y),
{
    if metrics.style.underlined {
        add_line(
            fill,
            x,
            y,
            metrics.fill_color,
            metrics.underline_offset,
            metrics.underline_thickness,
            0,
        );
        if metrics.outline_thickness != 0 {
            add_line(
                outline,
                x,
                y,
                metrics.outline_color,
                metrics.underline_offset,
                metrics.underline_thickness,
                metrics.outline_thickness,
            );
        }
    }
    if metrics.style.strikethrough {
        add_line(
            fill,
            x,
            y,
            metrics.fill_color,
            metrics.strikethrough_offset,
            metrics.underline_thickness,
            0,
        );
        if metrics.outline_thickness != 0 {
            add_line(
                outline,
                x,
                y,
                metrics.outline_color,
                metrics.strikethrough_offset,
                metrics.underline_thickness,
                metrics.outline_thickness,
            );
        }
    }
    proof {
        assert(fill@ =~= old(fill)@ + fill_decorations(*metrics, x, y));
        assert(outline@ =~= old(outline)@ + outline_decorations(*metrics, x, y));
    }
}

/// Lays out one character: adds its vertices, extends the extremes and moves
/// the pen.
pub fn lay_out_character(
    font: &Font,
    metrics: &TextMetrics,
    pen: &mut Pen,
    extremes: &mut Extremes,
    fill: &mut Vec<Vertex>,
    outline: &mut Vec<Vertex>,
    ch: char,
)
    ensures
        *final(pen) == pen_advance(font@, *metrics, *old(pen), ch),
        *final(extremes) == extremes_extend(font@, *metrics, *old(extremes), *old(pen), ch),
        final(fill)@ == old(fill)@ + fill_of(font@, *metrics, *old(pen), ch),
        final(outline)@ == old(outline)@ + outline_of(font@, *metrics, *old(pen), ch),
{
    if ch == '\r' {
        proof {
            assert(fill@ =~= old(fill)@ + fill_of(font@, *metrics, *old(pen), ch));
            assert(outline@ =~= old(outline)@ + outline_of(font@, *metrics, *old(pen), ch));
        }
        return;
    }
    let size = metrics.character_size;
    let bold = metrics.style.bold;
    let italic = metrics.style.italic;
    let code = ch as u32;
    let kerning = if bold {
        font.bold_kerning(pen.previous, code, size)
    } else {
        font.kerning(pen.previous, code, size)
    };
    let x: i64 = saturate(pen.x as i128 + kerning as i128);
    let y: i64 = pen.y;
    if ch == '\n' && pen.previous != LINE_FEED {
        add_decorations(fill, outline, metrics, x, y);
    }
    if ch == ' ' || ch == '\n' || ch == '\t' {
        extremes.min_x = if x < extremes.min_x { x } else { extremes.min_x };
        extremes.min_y = if y < extremes.min_y { y } else { extremes.min_y };
        match ch {
            ' ' => {
                pen.x = saturate(x as i128 + metrics.whitespace_width as i128);
            },
            '\t' => {
                pen.x = saturate(x as i128 + metrics.whitespace_width as i128 * 4);
            },
            _ => {
                pen.y = saturate(y as i128 + metrics.line_spacing as i128);
                pen.x = 0;
            },
        }
        extremes.max_x = if pen.x > extremes.max_x { pen.x } else { extremes.max_x };
        extremes.max_y = if pen.y > extremes.max_y { pen.y } else { extremes.max_y };
    } else {
        if metrics.outline_thickness != 0 {
            let outlined = font.glyph(code, size, bold, metrics.outline_thickness);
            add_glyph_quad(outline, Vector2::new(x, y), metrics.outline_color, outlined, italic);
        }
        let glyph = font.glyph(code, size, bold, 0);
        add_glyph_quad(fill, Vector2::new(x, y), metrics.fill_color, glyph, italic);
        let bounds = glyph.bounds();
        let left: i128 = bounds.left as i128;
        let top: i128 = bounds.top as i128;
        let right: i128 = bounds.left as i128 + bounds.width as i128;
        let bottom: i128 = bounds.top as i128 + bounds.height as i128;
        let leftmost = saturate(x as i128 + left - sheared(italic, bottom));
        let rightmost = saturate(x as i128 + right - sheared(italic, top));
        let highest = saturate(y as i128 + top);
        let lowest = saturate(y as i128 + bottom);
        extremes.min_x = if leftmost < extremes.min_x { leftmost } else { extremes.min_x };
        extremes.max_x = if rightmost > extremes.max_x { rightmost } else { extremes.max_x };
        extremes.min_y = if highest < extremes.min_y { highest } else { extremes.min_y };
        extremes.max_y = if lowest > extremes.max_y { lowest } else { extremes.max_y };
        pen.x = saturate(x as i128 + glyph.advance() as i128 + metrics.letter_spacing as i128);
    }
    pen.previous = code;
    proof {
        assert(fill@ =~= old(fill)@ + fill_of(font@, *metrics, *old(pen), ch));
        assert(outline@ =~= old(outline)@ + outline_of(font@, *metrics, *old(pen), ch));
    }
}

/// Lays out a text: walks the string with the pen and collects the vertices of
/// its glyphs and decoration lines, those of their outlines, and the bounds.
pub fn lay_out(font: &Font, format: &TextFormat, text: &str) -> (geometry: Geometry)
    ensures
        geometry@ == laid_out(font@, *format, text@),
{
    let mut fill: Vec<Vertex> = Vec::new();
    let mut outline: Vec<Vertex> = Vec::new();
    if text.is_empty() {
        return Geometry { fill, outline, bounds: Rect::default() };
    }
    let metrics = measure(font, format);
    let baseline: i64 = (metrics.character_size as i64) * ONE;
    let mut pen = Pen { x: 0, y: baseline, previous: 0 };
    let mut extremes = Extremes { min_x: baseline, min_y: baseline, max_x: 0, max_y: 0 };
    for ch in it: text.chars()
        invariant
            it.seq() == text@,
            pen == pen_after(font@, metrics, text@, it.index()),
            fill@ == fill_upto(font@, metrics, text@, it.index()),
            outline@ == outline_upto(font@, metrics, text@, it.index()),
            extremes == extremes_after(font@, metrics, text@, it.index()),
    {
        lay_out_character(font, &metrics, &mut pen, &mut extremes, &mut fill, &mut outline, ch);
    }
    if metrics.outline_thickness != 0 {
        let thickness: i128 = metrics.outline_thickness as i128;
        let spread: i128 = if thickness < 0 { -thickness } else { thickness };
        let outline_reach: i128 = floor_div(spread + ONE as i128 - 1, ONE as i128) * (ONE as i128);
        extremes.min_x = saturate(extremes.min_x as i128 - outline_reach);
        extremes.max_x = saturate(extremes.max_x as i128 + outline_reach);
        extremes.min_y = saturate(extremes.min_y as i128 - outline_reach);
        extremes.max_y = saturate(extremes.max_y as i128 + outline_reach);
    }
    if pen.x > 0 {
        add_decorations(&mut fill, &mut outline, &metrics, pen.x, pen.y);
    }
    let bounds = Rect {
        left: extremes.min_x,
        top: extremes.min_y,
        width: saturate(extremes.max_x as i128 - extremes.min_x as i128),
        height: saturate(extremes.max_y as i128 - extremes.min_y as i128),
    };
    Geometry { fill, outline, bounds }
}

/// The pen does not depend on the outline: two metrics that differ in the
/// outline thickness alone move it alike.
pub proof fn lemma_pen_ignores_outline(
    font: FontView,
    metrics: TextMetrics,
    outline_thickness: i64,
    text: Seq<char>,
    count: int,
)
    ensures
        pen_after(font, TextMetrics { outline_thickness, ..metrics }, text, count) == pen_after(
            font,
            metrics,
            text,
            count,
        ),
    decreases count,
{
    if count > 0 {
        lemma_pen_ignores_outline(font, metrics, outline_thickness, text, count - 1);
    }
}

/// The fill vertices do not depend on the outline: two metrics that differ in
/// the outline thickness alone give the same.
pub proof fn lemma_fill_ignores_outline(
    font: FontView,
    metrics: TextMetrics,
    outline_thickness: i64,
    text: Seq<char>,
    count: int,
)
    ensures
        fill_upto(font, TextMetrics { outline_thickness, ..metrics }, text, count) == fill_upto(
            font,
            metrics,
            text,
            count,
        ),
    decreases count,
{
    if count > 0 {
        lemma_fill_ignores_outline(font, metrics, outline_thickness, text, count - 1);
        lemma_pen_ignores_outline(font, metrics, outline_thickness, text, count - 1);
    }
}

/// Without an outline there are no outline vertices.
pub proof fn lemma_no_outline_no_vertices(
    font: FontView,
    metrics: TextMetrics,
    text: Seq<char>,
    count: int,
)
    requires
        metrics.outline_thickness == 0,
    ensures
        outline_upto(font, metrics, text, count) == Seq::<Vertex>::empty(),
    decreases count,
{
    if count > 0 {
        lemma_no_outline_no_vertices(font, metrics, text, count - 1);
        let pen = pen_after(font, metrics, text, count - 1);
        assert(outline_of(font, metrics, pen, text[count - 1]) =~= Seq::<Vertex>::empty());
        assert(outline_upto(font, metrics, text, count) =~= Seq::<Vertex>::empty());
    }
}

/// How many quads the fill of `ch` has: one for each decoration line where
/// `ch` ends a line, and one for its glyph unless `ch` is blank.
pub open spec fn fill_quads_of(metrics: TextMetrics, pen: Pen, ch: char) -> nat {
    if ch == '\r' {
        0
    } else {
        let lines: nat = if ends_line(pen, ch) {
            decoration_count(metrics)
        } else {
            0
        };
        let glyphs: nat = if is_blank(ch) {
            0
        } else {
            1
        };
        lines + glyphs
    }
}

/// How many decoration lines a line of text gets.
pub open spec fn decoration_count(metrics: TextMetrics) -> nat {
    let underline: nat = if metrics.style.underlined {
        1
    } else {
        0
    };
    let strikethrough: nat = if metrics.style.strikethrough {
        1
    } else {
        0
    };
    underline + strikethrough
}

/// How many quads the fill of the first `count` characters of `text` has.
pub open spec fn fill_quads_upto(font: FontView, metrics: TextMetrics, text: Seq<char>, count: int) -> nat
    decreases count,
{
    if count <= 0 {
        0
    } else {
        fill_quads_upto(font, metrics, text, count - 1) + fill_quads_of(
            metrics,
            pen_after(font, metrics, text, count - 1),
            text[count - 1],
        )
    }
}

/// The fill vertices come in groups of six: six for each glyph that is not
/// blank, and six for each decoration line.
pub proof fn lemma_fill_has_six_vertices_a_quad(
    font: FontView,
    metrics: TextMetrics,
    text: Seq<char>,
    count: int,
)
    ensures
        fill_upto(font, metrics, text, count).len() == 6 * fill_quads_upto(
            font,
            metrics,
            text,
            count,
        ),
    decreases count,
{
    if count > 0 {
        lemma_fill_has_six_vertices_a_quad(font, metrics, text, count - 1);
    }
}

/// The decoration lines of a line of text take six fill vertices each.
pub proof fn lemma_decorations_have_six_vertices_a_line(metrics: TextMetrics, x: i64, y: i64)
    ensures
        fill_decorations(metrics, x, y).len() == 6 * decoration_count(metrics),
{
}

/// With an outline, each character adds as many outline vertices as fill
/// vertices.
pub proof fn lemma_outline_has_a_vertex_for_each_of_the_fill(
    font: FontView,
    metrics: TextMetrics,
    text: Seq<char>,
    count: int,
)
    requires
        metrics.outline_thickness != 0,
    ensures
        outline_upto(font, metrics, text, count).len() == fill_upto(font, metrics, text, count).len(),
    decreases count,
{
    if count > 0 {
        lemma_outline_has_a_vertex_for_each_of_the_fill(font, metrics, text, count - 1);
    }
}

/// How many quads the fill of a text has: those of its characters, and the
/// decoration lines of the last line where the pen ends to the right of the
/// left edge.
pub open spec fn quad_count(font: FontView, format: TextFormat, text: Seq<char>) -> nat {
    if text.len() == 0 {
        0
    } else {
        let metrics = measured(font, format);
        let count = text.len() as int;
        let last: nat = if pen_after(font, metrics, text, count).x > 0 {
            decoration_count(metrics)
        } else {
            0
        };
        fill_quads_upto(font, metrics, text, count) + last
    }
}

/// The vertices of a text come in groups of six, one group for each quad; and
/// a text with an outline has as many outline vertices as fill vertices, one
/// without has none.
pub proof fn lemma_geometry_has_six_vertices_a_quad(
    font: FontView,
    format: TextFormat,
    text: Seq<char>,
)
    ensures
        laid_out(font, format, text).fill.len() == 6 * quad_count(font, format, text),
        format.outline_thickness != 0 ==> laid_out(font, format, text).outline.len() == 6
            * quad_count(font, format, text),
        format.outline_thickness == 0 ==> laid_out(font, format, text).outline.len() == 0,
{
    if text.len() > 0 {
        let metrics = measured(font, format);
        let count = text.len() as int;
        let pen = pen_after(font, metrics, text, count);
        lemma_fill_has_six_vertices_a_quad(font, metrics, text, count);
        lemma_decorations_have_six_vertices_a_line(metrics, pen.x, pen.y);
        if format.outline_thickness != 0 {
            lemma_outline_has_a_vertex_for_each_of_the_fill(font, metrics, text, count);
            assert(outline_decorations(metrics, pen.x, pen.y).len() == fill_decorations(
                metrics,
                pen.x,
                pen.y,
            ).len());
        } else {
            lemma_no_outline_no_vertices(font, metrics, text, count);
            assert(outline_decorations(metrics, pen.x, pen.y) =~= Seq::<Vertex>::empty());
        }
    }
}

} // verus!
