//! Graphical text.

use vstd::prelude::*;
use crate::graphics::color::Color;
use crate::graphics::font::{Font, FontView};
use crate::graphics::layout::{
    advance_pen, blank_geometry, laid_out, lay_out, lemma_fill_ignores_outline,
    lemma_no_outline_no_vertices, lemma_pen_ignores_outline, measure, measured,
    outline_decorations, pen_after, GeometryView, Pen, TextFormat, TextMetrics,
};
use crate::graphics::metric_keys::{
    fonts_agree, keys_of, lemma_layout_reads_its_keys_only, lemma_walk_reads_its_keys_only,
};
use crate::graphics::primitive_type::PrimitiveType;
use crate::graphics::rect::Rect;
use crate::graphics::text_style::TextStyle;
use crate::graphics::transform::Transform;
use crate::graphics::transformable::{
    lemma_initial_matrix_is_identity, Rotation, TransformChange, Transformable,
    TransformableData,
};
use crate::graphics::vertex::Vertex;
use crate::fixed::{multiply, saturated, scaled, ONE};
use crate::system::Vector2;

verus! {

/// What a text is, apart from what it has computed and kept.
pub struct TextView {
    /// The string of the text.
    pub string: Seq<char>,
    /// The metrics of the font that the text borrows, if it has one.
    pub font: Option<FontView>,
    /// How the text is set.
    pub format: TextFormat,
    /// Origin, position, rotation and scale of the text.
    pub placement: TransformableData,
    /// Whether the geometry is to be generated anew before it is read.
    pub geometry_need_update: bool,
    /// Whether the combined transform is to be computed anew before it is read.
    pub transform_need_update: bool,
}

/// The geometry of a text: blank without a font, else that of its string in
/// its font and format.
pub open spec fn geometry_of(view: TextView) -> GeometryView {
    match view.font {
        None => blank_geometry(),
        Some(font) => laid_out(font, view.format, view.string),
    }
}

/// The format of a text that nothing was set on: character size 30, spacing
/// factors 1, regular style, opaque white fill, opaque black outline of
/// thickness 0.
pub open spec fn default_format() -> TextFormat {
    TextFormat {
        character_size: 30,
        letter_spacing_factor: ONE,
        line_spacing_factor: ONE,
        style: TextStyle { bold: false, italic: false, underlined: false, strikethrough: false },
        fill_color: Color { r: 255, g: 255, b: 255, a: 255 },
        outline_color: Color { r: 0, g: 0, b: 0, a: 255 },
        outline_thickness: 0,
    }
}

/// The distance between two lines of a text: the line spacing of its font at
/// its character size, times its line spacing factor; 0 without a font.
pub open spec fn line_spacing_of(view: TextView) -> i64 {
    match view.font {
        None => 0,
        Some(font) => saturated(
            scaled(
                font.line_spacing(view.format.character_size) as int,
                view.format.line_spacing_factor as int,
            ),
        ),
    }
}

/// Where the pen stands after the first `count` characters of a text with a
/// font, in local coordinates.
pub open spec fn pen_position(font: FontView, view: TextView, count: int) -> Vector2 {
    let pen = pen_after(font, measured(font, view.format), view.string, count);
    Vector2 { x: pen.x, y: pen.y }
}

/// The position of the character at `index` in global coordinates: the image
/// under the combined transform of where the pen stands before it, or after
/// the whole string where the string is shorter. Without a font it is the
/// origin.
pub open spec fn character_position(view: TextView, index: usize) -> Vector2 {
    match view.font {
        None => Vector2 { x: 0, y: 0 },
        Some(font) => {
            let count = if index < view.string.len() {
                index as int
            } else {
                view.string.len() as int
            };
            view.placement.matrix().apply(pen_position(font, view, count))
        },
    }
}

/// What a render target is to draw of a text.
#[derive(Clone, Copy, Debug, PartialEq, Eq, Structural)]
pub struct DrawCall {
    /// How the vertices make up primitives: in threes, as triangles.
    pub primitive: PrimitiveType,
    /// The transform to draw under.
    pub transform: Transform,
    /// Whether the outline vertices are drawn, before the fill vertices.
    pub outline: bool,
}

/// What is to be drawn of a text under the transform `states`: nothing without
/// a font, else its vertices under `states` combined with its own transform,
/// the outline vertices only where the text has an outline.
pub open spec fn draw_call(view: TextView, states: Transform) -> Option<DrawCall> {
    match view.font {
        None => None,
        Some(_) => Some(
            DrawCall {
                primitive: PrimitiveType::Triangles,
                transform: states.combined(view.placement.matrix()),
                outline: view.format.outline_thickness != 0,
            },
        ),
    }
}

/// A text after it was drawn: the same, with nothing left to compute anew.
pub open spec fn drawn(view: TextView) -> TextView {
    TextView { geometry_need_update: false, transform_need_update: false, ..view }
}

/// A text after a change of its decomposed transform: the combined transform
/// is to be computed anew.
pub open spec fn moved(view: TextView, change: TransformChange) -> TextView {
    TextView { placement: view.placement.after(change), transform_need_update: true, ..view }
}

/// Graphical text
///
/// Text is a drawable type that allows to easily
/// display some text with custom style and color on a render target.
///
/// A text borrows its font: the font outlives the text, and nothing changes it
/// while the text holds it.
///
/// Geometry and combined transform are kept, and computed anew only when
/// something they depend on has changed since, right before they are read.
#[derive(Debug)]
pub struct Text<'s> {
    string: String,
    font: Option<&'s Font>,
    format: TextFormat,
    vertices: Vec<Vertex>,
    outline_vertices: Vec<Vertex>,
    bounds: Rect,
    geometry_need_update: bool,
    placement: TransformableData,
    transform: Transform,
    transform_need_update: bool,
}

impl<'s> View for Text<'s> {
    type V = TextView;

    closed spec fn view(&self) -> TextView {
        TextView {
            string: self.string@,
            font: match self.font {
                Some(font) => Some(font@),
                None => None,
            },
            format: self.format,
            placement: self.placement,
            geometry_need_update: self.geometry_need_update,
            transform_need_update: self.transform_need_update,
        }
    }
}

impl<'s> Text<'s> {
    /// What is kept is up to date unless it is marked otherwise.
    #[verifier::type_invariant]
    closed spec fn kept_is_current(self) -> bool {
        &&& !self.geometry_need_update ==> self.kept_geometry() == geometry_of(self@)
        &&& !self.transform_need_update ==> self.transform == self.placement.matrix()
    }

    /// The combined transform that the text keeps.
    pub closed spec fn kept_transform(self) -> Transform {
        self.transform
    }

    /// The geometry that the text keeps.
    pub closed spec fn kept_geometry(self) -> GeometryView {
        GeometryView {
            fill: self.vertices@,
            outline: self.outline_vertices@,
            bounds: self.bounds,
        }
    }

    /// Create a new text with initialized value
    ///
    /// Default value for the character size is 30.
    ///
    /// # Arguments
    /// * string - The string of the text
    /// * font - The font to display the Text
    /// * character_size - The size of the Text
    #[must_use]
    pub fn new(string: String, font: &'s Font, character_size: u32) -> (text: Text<'s>)
        ensures
            text@ == (TextView {
                string: string@,
                font: Some(font@),
                format: TextFormat { character_size, ..default_format() },
                placement: TransformableData::initial(),
                geometry_need_update: true,
                transform_need_update: false,
            }),
            text.kept_geometry() == blank_geometry(),
            text.kept_transform() == Transform::identity(),
    {
        let mut text = Text::default();
        text.set_string(string);
        text.set_font(font);
        text.set_character_size(character_size);
        text
    }

    /// Set the string of a text
    ///
    /// A text's string is empty by default.
    ///
    /// # Arguments
    /// * string - New string
    pub fn set_string(&mut self, string: String)
        ensures
            final(self)@ == (TextView {
                string: string@,
                geometry_need_update: old(self)@.geometry_need_update || old(self)@.string
                    != string@,
                ..old(self)@
            }),
            final(self).kept_geometry() == old(self).kept_geometry(),
            final(self).kept_transform() == old(self).kept_transform(),
    {
        proof {
            use_type_invariant(&*self);
        }
        if self.string != string {
            self.geometry_need_update = true;
            self.string = string;
        }
    }

    /// Get the string of a text
    #[must_use]
    pub fn string(&self) -> (string: &str)
        ensures
            string@ == self@.string,
    {
        self.string.as_str()
    }

    /// Get the size of the characters
    ///
    /// Return the size of the characters
    #[must_use]
    pub fn character_size(&self) -> (size: u32)
        ensures
            size == self@.format.character_size,
    {
        self.format.character_size
    }

    /// Set the font of the text
    ///
    /// The text doesn't store its own copy of the font, but rather keeps
    /// a reference to the one that you passed to this function: it borrows the
    /// font for as long as it uses it.
    ///
    /// font - New font
    pub fn set_font(&mut self, font: &'s Font)
        ensures
            final(self)@ == (TextView {
                font: Some(font@),
                geometry_need_update: true,
                ..old(self)@
            }),
            final(self).kept_geometry() == old(self).kept_geometry(),
            final(self).kept_transform() == old(self).kept_transform(),
    {
        proof {
            use_type_invariant(&*self);
        }
        self.geometry_need_update = true;
        self.font = Some(font);
    }

    /// Set the style of a text
    ///
    /// You can pass a combination of one or more styles, for
    /// example bold and italic.
    /// The default style is regular.
    ///
    /// # Arguments
    /// * style - New style
    pub fn set_style(&mut self, style: TextStyle)
        ensures
            final(self)@ == (TextView {
                format: TextFormat { style, ..old(self)@.format },
                geometry_need_update: true,
                ..old(self)@
            }),
            final(self).kept_geometry() == old(self).kept_geometry(),
            final(self).kept_transform() == old(self).kept_transform(),
    {
        proof {
            use_type_invariant(&*self);
        }
        self.geometry_need_update = true;
        self.format.style = style;
    }

    /// Set the size of the characters of a text
    ///
    /// The default size is 30.
    ///
    /// # Arguments
    /// * size - The new character size, in pixels
    pub fn set_character_size(&mut self, size: u32)
        ensures
            final(self)@ == (TextView {
                format: TextFormat { character_size: size, ..old(self)@.format },
                geometry_need_update: true,
                ..old(self)@
            }),
            final(self).kept_geometry() == old(self).kept_geometry(),
            final(self).kept_transform() == old(self).kept_transform(),
    {
        proof {
            use_type_invariant(&*self);
        }
        self.geometry_need_update = true;
        self.format.character_size = size;
    }

    /// Get the style of a text
    ///
    /// Return the current string style
    #[must_use]
    pub fn style(&self) -> (style: TextStyle)
        ensures
            style == self@.format.style,
    {
        self.format.style
    }

    /// Get the font of a text
    /// If the text has no font attached, a None is returned.
    /// The returned reference is shared, which means that you can't
    /// modify the font when you retrieve it with this function.
    #[must_use]
    pub fn font(&self) -> (font: Option<&'s Font>)
        ensures
            font is Some <==> self@.font is Some,
            font matches Some(borrowed) ==> self@.font == Some(borrowed@),
    {
        self.font
    }

    /// Set the fill color of the text.
    ///
    /// By default, the text's fill color is opaque white. Setting the fill color to a transparent
    /// color with an outline will cause the outline to be displayed in the fill area of the text.
    pub fn set_fill_color(&mut self, color: Color)
        ensures
            final(self)@ == (TextView {
                format: TextFormat { fill_color: color, ..old(self)@.format },
                geometry_need_update: true,
                ..old(self)@
            }),
            final(self).kept_geometry() == old(self).kept_geometry(),
            final(self).kept_transform() == old(self).kept_transform(),
    {
        proof {
            use_type_invariant(&*self);
        }
        self.geometry_need_update = true;
        self.format.fill_color = color;
    }

    /// Set the outline color of the text.
    ///
    /// By default, the text's outline color is opaque black.
    pub fn set_outline_color(&mut self, color: Color)
        ensures
            final(self)@ == (TextView {
                format: TextFormat { outline_color: color, ..old(self)@.format },
                geometry_need_update: true,
                ..old(self)@
            }),
            final(self).kept_geometry() == old(self).kept_geometry(),
            final(self).kept_transform() == old(self).kept_transform(),
    {
        proof {
            use_type_invariant(&*self);
        }
        self.geometry_need_update = true;
        self.format.outline_color = color;
    }

    /// Set the thickness of the text's outline.
    ///
    /// By default, the outline thickness is 0.
    ///
    /// Be aware that using a negative value for the outline thickness will cause distorted
    /// rendering.
    pub fn set_outline_thickness(&mut self, thickness: i64)
        ensures
            final(self)@ == (TextView {
                format: TextFormat { outline_thickness: thickness, ..old(self)@.format },
                geometry_need_update: true,
                ..old(self)@
            }),
            final(self).kept_geometry() == old(self).kept_geometry(),
            final(self).kept_transform() == old(self).kept_transform(),
    {
        proof {
            use_type_invariant(&*self);
        }
        self.geometry_need_update = true;
        self.format.outline_thickness = thickness;
    }

    /// Returns the fill color of the text.
    #[must_use]
    pub fn fill_color(&self) -> (color: Color)
        ensures
            color == self@.format.fill_color,
    {
        self.format.fill_color
    }

    /// Returns the outline color of the text.
    #[must_use]
    pub fn outline_color(&self) -> (color: Color)
        ensures
            color == self@.format.outline_color,
    {
        self.format.outline_color
    }

    /// Returns the outline thickness of the text, in pixels.
    #[must_use]
    pub fn outline_thickness(&self) -> (thickness: i64)
        ensures
            thickness == self@.format.outline_thickness,
    {
        self.format.outline_thickness
    }

    /// Return the position of the index-th character in a text
    ///
    /// This function computes the visual position of a character
    /// from its index in the string. The returned position is
    /// in global coordinates (translation, rotation, scale and
    /// origin are applied).
    /// If index is out of range, the position of the end of
    /// the string is returned. Without a font it is the origin.
    ///
    /// # Arguments
    /// * index - The index of the character
    ///
    /// Return the position of the character
    #[must_use]
    pub fn find_character_pos(&mut self, index: usize) -> (position: Vector2)
        ensures
            position == character_position(old(self)@, index),
            final(self)@ == (TextView {
                transform_need_update: old(self)@.transform_need_update && old(self)@.font is None,
                ..old(self)@
            }),
            final(self).kept_geometry() == old(self).kept_geometry(),
            final(self).kept_transform() == if old(self)@.font is Some {
                old(self)@.placement.matrix()
            } else {
                old(self).kept_transform()
            },
    {
        let font = match self.font {
            Some(font) => font,
            None => {
                return Vector2::default();
            },
        };
        let metrics = measure(font, &self.format);
        let mut pen = Pen {
            x: 0,
            y: (metrics.character_size as i64) * ONE,
            previous: 0,
        };
        let mut walked: usize = 0;
        for ch in it: self.string.as_str().chars()
            invariant_except_break
                walked == it.index(),
            invariant
                it.seq() == self.string@,
                walked <= index,
                pen == pen_after(font@, metrics, self.string@, walked as int),
            ensures
                walked == if index < self.string@.len() {
                    index as int
                } else {
                    self.string@.len() as int
                },
        {
            if walked == index {
                break;
            }
            pen = advance_pen(font, &metrics, pen, ch);
            walked = walked + 1;
        }
        self.get_transform().transform_point(Vector2 { x: pen.x, y: pen.y })
    }

    /// The combined transform, computed anew where a change has made the one
    /// that is kept stale.
    fn get_transform(&mut self) -> (transform: Transform)
        ensures
            transform == old(self)@.placement.matrix(),
            final(self)@ == (TextView { transform_need_update: false, ..old(self)@ }),
            final(self).kept_geometry() == old(self).kept_geometry(),
            final(self).kept_transform() == old(self)@.placement.matrix(),
    {
        proof {
            use_type_invariant(&*self);
        }
        if self.transform_need_update {
            self.transform = self.placement.get();
            self.transform_need_update = false;
        }
        self.transform
    }

    /// Get the local bounding rectangle of a text
    ///
    /// The returned rectangle is in local coordinates, which means
    /// that it ignores the transformations (translation, rotation,
    /// scale, ...) that are applied to the entity.
    /// In other words, this function returns the bounds of the
    /// entity in the entity's coordinate system.
    ///
    /// Return the local bounding rectangle of the entity
    #[must_use]
    pub fn local_bounds(&mut self) -> (bounds: Rect)
        ensures
            bounds == geometry_of(old(self)@).bounds,
            final(self)@ == (TextView { geometry_need_update: false, ..old(self)@ }),
            final(self).kept_geometry() == geometry_of(old(self)@),
            final(self).kept_transform() == old(self).kept_transform(),
    {
        self.ensure_geometry_update();
        self.bounds
    }

    /// Get the global bounding rectangle of a text
    ///
    /// The returned rectangle is in global coordinates, which means
    /// that it takes in account the transformations (translation,
    /// rotation, scale, ...) that are applied to the entity.
    /// In other words, this function returns the bounds of the
    /// text in the global 2D world's coordinate system.
    ///
    /// Return the global bounding rectangle of the entity
    #[must_use]
    pub fn global_bounds(&mut self) -> (bounds: Rect)
        ensures
            bounds == old(self)@.placement.matrix().apply_rect(geometry_of(old(self)@).bounds),
            final(self)@ == (TextView {
                geometry_need_update: false,
                transform_need_update: false,
                ..old(self)@
            }),
            final(self).kept_geometry() == geometry_of(old(self)@),
            final(self).kept_transform() == old(self)@.placement.matrix(),
    {
        let local = self.local_bounds();
        self.get_transform().transform_rect(local)
    }

    /// Get the distance between two lines of the text: the line spacing of the
    /// font at the character size, times the line spacing factor; 0 without a
    /// font.
    #[must_use]
    pub fn line_spacing(&self) -> (spacing: i64)
        ensures
            spacing == line_spacing_of(self@),
    {
        match self.font {
            Some(font) => multiply(
                font.line_spacing(self.format.character_size),
                self.format.line_spacing_factor,
            ),
            None => 0,
        }
    }

    /// Set the line spacing factor.
    ///
    /// The default spacing between lines is defined by the font.
    /// This method enables you to set a factor for the spacing between lines.
    /// By default the line spacing factor is 1.
    pub fn set_line_spacing(&mut self, factor: i64)
        ensures
            final(self)@ == (TextView {
                format: TextFormat { line_spacing_factor: factor, ..old(self)@.format },
                geometry_need_update: true,
                ..old(self)@
            }),
            final(self).kept_geometry() == old(self).kept_geometry(),
            final(self).kept_transform() == old(self).kept_transform(),
    {
        proof {
            use_type_invariant(&*self);
        }
        self.geometry_need_update = true;
        self.format.line_spacing_factor = factor;
    }

    /// Get the size of the letter spacing factor.
    #[must_use]
    pub fn letter_spacing(&self) -> (factor: i64)
        ensures
            factor == self@.format.letter_spacing_factor,
    {
        self.format.letter_spacing_factor
    }

    /// Set the letter spacing factor.
    ///
    /// The default spacing between letters is defined by the font.
    /// This factor doesn't directly apply to the existing spacing between each character,
    /// it rather adds a fixed space between them which is calculated from the font metrics and
    /// the character size. Note that factors below 1 (including negative numbers) bring
    /// characters closer to each other. By default the letter spacing factor is 1.
    pub fn set_letter_spacing(&mut self, factor: i64)
        ensures
            final(self)@ == (TextView {
                format: TextFormat { letter_spacing_factor: factor, ..old(self)@.format },
                geometry_need_update: true,
                ..old(self)@
            }),
            final(self).kept_geometry() == old(self).kept_geometry(),
            final(self).kept_transform() == old(self).kept_transform(),
    {
        proof {
            use_type_invariant(&*self);
        }
        self.geometry_need_update = true;
        self.format.letter_spacing_factor = factor;
    }

    /// The fill vertices that the text keeps: those of its geometry, unless the
    /// geometry is to be generated anew.
    #[must_use]
    pub fn vertices(&self) -> (vertices: &Vec<Vertex>)
        ensures
            vertices@ == self.kept_geometry().fill,
            !self@.geometry_need_update ==> vertices@ == geometry_of(self@).fill,
    {
        proof {
            use_type_invariant(self);
        }
        &self.vertices
    }

    /// The outline vertices that the text keeps: those of its geometry, unless
    /// the geometry is to be generated anew.
    #[must_use]
    pub fn outline_vertices(&self) -> (vertices: &Vec<Vertex>)
        ensures
            vertices@ == self.kept_geometry().outline,
            !self@.geometry_need_update ==> vertices@ == geometry_of(self@).outline,
    {
        proof {
            use_type_invariant(self);
        }
        &self.outline_vertices
    }

    /// Prepares the text for drawing and says what to draw: nothing without a
    /// font; else the outline vertices, if the text has an outline, and then the
    /// fill vertices, both as triangles, under the given transform combined
    /// with that of the text.
    ///
    /// After the call the geometry that the text keeps is that of the text as it
    /// is: [`vertices`](Self::vertices) and
    /// [`outline_vertices`](Self::outline_vertices) hand it out.
    pub fn draw(&mut self, states: &Transform) -> (call: Option<DrawCall>)
        ensures
            call == draw_call(old(self)@, *states),
            final(self)@ == drawn(old(self)@),
            final(self).kept_geometry() == geometry_of(old(self)@),
            final(self).kept_transform() == old(self)@.placement.matrix(),
    {
        self.ensure_geometry_update();
        let own = self.get_transform();
        match self.font {
            Some(_) => {
                let mut transform = *states;
                transform.combine(&own);
                Some(
                    DrawCall {
                        primitive: PrimitiveType::Triangles,
                        transform,
                        outline: self.format.outline_thickness != 0,
                    },
                )
            },
            None => None,
        }
    }

    /// Generates the geometry anew, if anything it depends on has changed since
    /// it was generated.
    fn ensure_geometry_update(&mut self)
        ensures
            final(self)@ == (TextView { geometry_need_update: false, ..old(self)@ }),
            final(self).kept_geometry() == geometry_of(old(self)@),
            final(self).kept_transform() == old(self).kept_transform(),
    {
        proof {
            use_type_invariant(&*self);
        }
        if !self.geometry_need_update {
            return;
        }
        match self.font {
            Some(font) => {
                let geometry = lay_out(font, &self.format, self.string.as_str());
                self.vertices = geometry.fill;
                self.outline_vertices = geometry.outline;
                self.bounds = geometry.bounds;
            },
            None => {
                self.vertices = Vec::new();
                self.outline_vertices = Vec::new();
                self.bounds = Rect::default();
            },
        }
        self.geometry_need_update = false;
    }
}

impl<'s> Default for Text<'s> {
    /// An empty text without a font, in the default format, not moved, rotated
    /// or scaled.
    fn default() -> (text: Text<'s>)
        ensures
            text@ == (TextView {
                string: Seq::empty(),
                font: None,
                format: default_format(),
                placement: TransformableData::initial(),
                geometry_need_update: false,
                transform_need_update: false,
            }),
            text.kept_geometry() == blank_geometry(),
            text.kept_transform() == Transform::identity(),
    {
        proof {
            lemma_initial_matrix_is_identity();
        }
        Text {
            string: String::new(),
            font: None,
            format: TextFormat {
                character_size: 30,
                letter_spacing_factor: ONE,
                line_spacing_factor: ONE,
                style: TextStyle::regular(),
                fill_color: Color::rgb(255, 255, 255),
                outline_color: Color::rgb(0, 0, 0),
                outline_thickness: 0,
            },
            vertices: Vec::new(),
            outline_vertices: Vec::new(),
            bounds: Rect::default(),
            geometry_need_update: false,
            placement: TransformableData::default(),
            transform: Transform::default(),
            transform_need_update: false,
        }
    }
}

impl<'s> Clone for Text<'s> {
    /// Return a new Text with the same string, font, format and decomposed
    /// transform. The new text computes its geometry and its combined transform
    /// itself, when they are first read.
    fn clone(&self) -> (text: Text<'s>)
        ensures
            text@ == (TextView {
                geometry_need_update: true,
                transform_need_update: true,
                ..self@
            }),
            text.kept_geometry() == blank_geometry(),
            text.kept_transform() == Transform::identity(),
    {
        Text {
            string: self.string.clone(),
            font: self.font,
            format: self.format,
            vertices: Vec::new(),
            outline_vertices: Vec::new(),
            bounds: Rect::default(),
            geometry_need_update: true,
            placement: self.placement,
            transform: Transform::default(),
            transform_need_update: true,
        }
    }
}

impl<'s> Transformable for Text<'s> {
    open spec fn placement(&self) -> TransformableData {
        self@.placement
    }

    fn set_position(&mut self, position: Vector2)
        ensures
            final(self)@ == moved(old(self)@, TransformChange::SetPosition(position)),
            final(self).kept_geometry() == old(self).kept_geometry(),
            final(self).kept_transform() == old(self).kept_transform(),
    {
        proof {
            use_type_invariant(&*self);
        }
        self.transform_need_update = true;
        self.placement = self.placement.changed(TransformChange::SetPosition(position));
    }

    fn set_rotation(&mut self, angle: Rotation)
        ensures
            final(self)@ == moved(old(self)@, TransformChange::SetRotation(angle)),
            final(self).kept_geometry() == old(self).kept_geometry(),
            final(self).kept_transform() == old(self).kept_transform(),
    {
        proof {
            use_type_invariant(&*self);
        }
        self.transform_need_update = true;
        self.placement = self.placement.changed(TransformChange::SetRotation(angle));
    }

    fn set_scale(&mut self, scale: Vector2)
        ensures
            final(self)@ == moved(old(self)@, TransformChange::SetScale(scale)),
            final(self).kept_geometry() == old(self).kept_geometry(),
            final(self).kept_transform() == old(self).kept_transform(),
    {
        proof {
            use_type_invariant(&*self);
        }
        self.transform_need_update = true;
        self.placement = self.placement.changed(TransformChange::SetScale(scale));
    }

    fn set_origin(&mut self, origin: Vector2)
        ensures
            final(self)@ == moved(old(self)@, TransformChange::SetOrigin(origin)),
            final(self).kept_geometry() == old(self).kept_geometry(),
            final(self).kept_transform() == old(self).kept_transform(),
    {
        proof {
            use_type_invariant(&*self);
        }
        self.transform_need_update = true;
        self.placement = self.placement.changed(TransformChange::SetOrigin(origin));
    }

    fn position(&self) -> (position: Vector2) {
        self.placement.position
    }

    fn rotation(&self) -> (rotation: Rotation) {
        self.placement.rotation
    }

    fn get_scale(&self) -> (scale: Vector2) {
        self.placement.scale
    }

    fn origin(&self) -> (origin: Vector2) {
        self.placement.origin
    }

    fn move_(&mut self, offset: Vector2)
        ensures
            final(self)@ == moved(old(self)@, TransformChange::Move(offset)),
            final(self).kept_geometry() == old(self).kept_geometry(),
            final(self).kept_transform() == old(self).kept_transform(),
    {
        proof {
            use_type_invariant(&*self);
        }
        self.transform_need_update = true;
        self.placement = self.placement.changed(TransformChange::Move(offset));
    }

    fn rotate(&mut self, angle: Rotation)
        ensures
            final(self)@ == moved(old(self)@, TransformChange::Rotate(angle)),
            final(self).kept_geometry() == old(self).kept_geometry(),
            final(self).kept_transform() == old(self).kept_transform(),
    {
        proof {
            use_type_invariant(&*self);
        }
        self.transform_need_update = true;
        self.placement = self.placement.changed(TransformChange::Rotate(angle));
    }

    fn scale(&mut self, factors: Vector2)
        ensures
            final(self)@ == moved(old(self)@, TransformChange::Scale(factors)),
            final(self).kept_geometry() == old(self).kept_geometry(),
            final(self).kept_transform() == old(self).kept_transform(),
    {
        proof {
            use_type_invariant(&*self);
        }
        self.transform_need_update = true;
        self.placement = self.placement.changed(TransformChange::Scale(factors));
    }

    fn transform(&mut self) -> (transform: Transform)
        ensures
            final(self)@ == (TextView { transform_need_update: false, ..old(self)@ }),
            final(self).kept_geometry() == old(self).kept_geometry(),
            final(self).kept_transform() == old(self)@.placement.matrix(),
    {
        self.get_transform()
    }

    fn inverse_transform(&mut self) -> (transform: Transform)
        ensures
            final(self)@ == (TextView { transform_need_update: false, ..old(self)@ }),
            final(self).kept_geometry() == old(self).kept_geometry(),
            final(self).kept_transform() == old(self)@.placement.matrix(),
    {
        self.get_transform().inverse()
    }
}

/// Drawing a text twice in a row draws the same twice: the second call asks
/// for what the first asked for, of a text with the same geometry, and leaves
/// the text as the first left it.
pub proof fn lemma_draw_is_idempotent(view: TextView, states: Transform)
    ensures
        draw_call(drawn(view), states) == draw_call(view, states),
        geometry_of(drawn(view)) == geometry_of(view),
        drawn(drawn(view)) == drawn(view),
{
}

/// A text with an empty string or without a font has no vertices, and the zero
/// rectangle for its bounds.
pub proof fn lemma_blank_text_has_blank_geometry(view: TextView)
    requires
        view.string.len() == 0 || view.font is None,
    ensures
        geometry_of(view).fill.len() == 0,
        geometry_of(view).outline.len() == 0,
        geometry_of(view).bounds == (Rect { left: 0, top: 0, width: 0, height: 0 }),
{
}

/// In a text with a font, the first character stands where the combined
/// transform takes the start of the first baseline, `(0, character size)`; and
/// an index past the end of the string stands for where it takes the pen after
/// the whole string.
pub proof fn lemma_character_position_at_the_ends(view: TextView, font: FontView, index: usize)
    requires
        view.font == Some(font),
        view.string.len() <= index,
    ensures
        character_position(view, 0) == view.placement.matrix().apply(
            Vector2 { x: 0, y: (view.format.character_size * ONE) as i64 },
        ),
        character_position(view, index) == view.placement.matrix().apply(
            pen_position(font, view, view.string.len() as int),
        ),
{
}

/// A change of the outline thickness leaves the fill vertices as they are, and
/// with an outline thickness of 0 there are no outline vertices.
pub proof fn lemma_outline_is_apart_from_fill(view: TextView, outline_thickness: i64)
    ensures
        ({
            let changed = TextView {
                format: TextFormat { outline_thickness, ..view.format },
                ..view
            };
            &&& geometry_of(changed).fill == geometry_of(view).fill
            &&& outline_thickness == 0 ==> geometry_of(changed).outline.len() == 0
        }),
{
    let changed = TextView { format: TextFormat { outline_thickness, ..view.format }, ..view };
    if let Some(font) = view.font {
        if view.string.len() > 0 {
            let count = view.string.len() as int;
            let metrics = measured(font, view.format);
            let other = measured(font, changed.format);
            assert(other == (TextMetrics { outline_thickness, ..metrics }));
            lemma_fill_ignores_outline(font, metrics, outline_thickness, view.string, count);
            lemma_pen_ignores_outline(font, metrics, outline_thickness, view.string, count);
            if outline_thickness == 0 {
                lemma_no_outline_no_vertices(font, other, view.string, count);
                let pen = pen_after(font, other, view.string, count);
                assert(outline_decorations(other, pen.x, pen.y) =~= Seq::<Vertex>::empty());
            }
        }
    }
}

/// A text reads its font under the keys of its string and format only: with
/// either of two fonts that agree on them it has the same geometry, the same
/// character positions and the same line spacing.
pub proof fn lemma_text_reads_its_keys_only(
    view: TextView,
    first: FontView,
    second: FontView,
    index: usize,
)
    requires
        fonts_agree(first, second, keys_of(view.format, view.string)),
    ensures
        geometry_of(TextView { font: Some(first), ..view }) == geometry_of(
            TextView { font: Some(second), ..view },
        ),
        character_position(TextView { font: Some(first), ..view }, index) == character_position(
            TextView { font: Some(second), ..view },
            index,
        ),
        line_spacing_of(TextView { font: Some(first), ..view }) == line_spacing_of(
            TextView { font: Some(second), ..view },
        ),
{
    lemma_layout_reads_its_keys_only(first, second, view.format, view.string);
    let count = if index < view.string.len() {
        index as int
    } else {
        view.string.len() as int
    };
    lemma_walk_reads_its_keys_only(first, second, view.format, view.string, count);
}

} // verus!
