//! Font metrics.

use vstd::prelude::*;
use crate::graphics::glyph::Glyph;

verus! {

/// What selects a glyph of a font.
#[derive(Clone, Copy, Debug, PartialEq, Eq, Structural)]
pub struct GlyphKey {
    /// Unicode code point of the character.
    pub code_point: u32,
    /// Character size, in pixels.
    pub character_size: u32,
    /// Whether the bold version of the glyph is meant.
    pub bold: bool,
    /// Thickness of the outline; 0 for the glyph itself.
    pub outline_thickness: i64,
}

/// What selects a kerning offset of a font.
#[derive(Clone, Copy, Debug, PartialEq, Eq, Structural)]
pub struct KerningKey {
    /// Unicode code point of the first character.
    pub first: u32,
    /// Unicode code point of the second character.
    pub second: u32,
    /// Character size, in pixels.
    pub character_size: u32,
    /// Whether the bold version of the glyphs is meant.
    pub bold: bool,
}

/// The metrics of a font that belong to a character size, not to a glyph.
#[derive(Clone, Copy, Debug, PartialEq, Eq, Structural)]
pub struct LineMetrics {
    /// Vertical offset to apply between two consecutive lines of text.
    pub line_spacing: i64,
    /// Vertical offset of the underline, relative to the baseline.
    pub underline_position: i64,
    /// Thickness of the underline.
    pub underline_thickness: i64,
}

impl LineMetrics {
    /// The metrics of a character size that a font does not have.
    pub open spec fn blank() -> LineMetrics {
        LineMetrics { line_spacing: 0, underline_position: 0, underline_thickness: 0 }
    }
}

/// The table that a sequence of entries stands for: a later entry replaces an
/// earlier one with the same key.
pub open spec fn table<K, V>(entries: Seq<(K, V)>) -> Map<K, V>
    decreases entries.len(),
{
    if entries.len() == 0 {
        Map::empty()
    } else {
        table(entries.drop_last()).insert(entries.last().0, entries.last().1)
    }
}

/// An entry that no later entry replaces is what the table holds for its key.
pub proof fn lemma_table_holds_last_entry<K, V>(entries: Seq<(K, V)>, i: int)
    requires
        0 <= i < entries.len(),
        forall|j: int| i < j < entries.len() ==> (#[trigger] entries[j]).0 != entries[i].0,
    ensures
        table(entries).contains_key(entries[i].0),
        table(entries)[entries[i].0] == entries[i].1,
    decreases entries.len(),
{
    if i < entries.len() - 1 {
        let shorter = entries.drop_last();
        assert(entries.last() == entries[entries.len() - 1]);
        assert forall|j: int| i < j < shorter.len() implies (#[trigger] shorter[j]).0
            != shorter[i].0 by {
            assert(shorter[j] == entries[j]);
        }
        lemma_table_holds_last_entry(shorter, i);
    }
}

/// A key that no entry has is not in the table.
pub proof fn lemma_table_lacks_absent_key<K, V>(entries: Seq<(K, V)>, key: K)
    requires
        forall|j: int| 0 <= j < entries.len() ==> (#[trigger] entries[j]).0 != key,
    ensures
        !table(entries).contains_key(key),
    decreases entries.len(),
{
    if entries.len() > 0 {
        let shorter = entries.drop_last();
        assert(entries.last() == entries[entries.len() - 1]);
        assert forall|j: int| 0 <= j < shorter.len() implies (#[trigger] shorter[j]).0 != key by {
            assert(shorter[j] == entries[j]);
        }
        lemma_table_lacks_absent_key(shorter, key);
    }
}

/// What a font is to the layout: three tables of metrics.
pub struct FontView {
    /// The glyphs that the font has.
    pub glyphs: Map<GlyphKey, Glyph>,
    /// The kerning offsets that the font has.
    pub kernings: Map<KerningKey, i64>,
    /// The line metrics that the font has, by character size.
    pub lines: Map<u32, LineMetrics>,
}

impl FontView {
    /// The glyph under a key, blank where the font has none.
    pub open spec fn glyph_of(self, key: GlyphKey) -> Glyph {
        if self.glyphs.contains_key(key) {
            self.glyphs[key]
        } else {
            Glyph::blank()
        }
    }

    /// The glyph of a character, blank where the font has none.
    pub open spec fn glyph(
        self,
        code_point: u32,
        character_size: u32,
        bold: bool,
        outline_thickness: i64,
    ) -> Glyph {
        self.glyph_of(GlyphKey { code_point, character_size, bold, outline_thickness })
    }

    /// The kerning offset of a pair of characters in the given weight, 0 where
    /// the font has none.
    pub open spec fn kerning_of(self, key: KerningKey) -> i64 {
        if self.kernings.contains_key(key) {
            self.kernings[key]
        } else {
            0
        }
    }

    /// The kerning offset of a pair of regular characters.
    pub open spec fn kerning(self, first: u32, second: u32, character_size: u32) -> i64 {
        self.kerning_of(KerningKey { first, second, character_size, bold: false })
    }

    /// The kerning offset of a pair of bold characters.
    pub open spec fn bold_kerning(self, first: u32, second: u32, character_size: u32) -> i64 {
        self.kerning_of(KerningKey { first, second, character_size, bold: true })
    }

    /// The line metrics of a character size, blank where the font has none.
    pub open spec fn line_metrics(self, character_size: u32) -> LineMetrics {
        if self.lines.contains_key(character_size) {
            self.lines[character_size]
        } else {
            LineMetrics::blank()
        }
    }

    /// The line spacing of a character size.
    pub open spec fn line_spacing(self, character_size: u32) -> i64 {
        self.line_metrics(character_size).line_spacing
    }

    /// The position of the underline of a character size.
    pub open spec fn underline_position(self, character_size: u32) -> i64 {
        self.line_metrics(character_size).underline_position
    }

    /// The thickness of the underline of a character size.
    pub open spec fn underline_thickness(self, character_size: u32) -> i64 {
        self.line_metrics(character_size).underline_thickness
    }
}

/// The metrics of a font, as far as text layout reads them: glyphs, kerning
/// offsets and line metrics, each by character size.
///
/// A font answers for what was put into it; for anything else it answers with
/// a blank glyph, no kerning and blank line metrics.
#[derive(Debug)]
pub struct Font {
    glyphs: Vec<(GlyphKey, Glyph)>,
    kernings: Vec<(KerningKey, i64)>,
    lines: Vec<(u32, LineMetrics)>,
}

impl View for Font {
    type V = FontView;

    closed spec fn view(&self) -> FontView {
        FontView {
            glyphs: table(self.glyphs@),
            kernings: table(self.kernings@),
            lines: table(self.lines@),
        }
    }
}

impl Font {
    /// A font without any metrics.
    pub fn new() -> (font: Font)
        ensures
            font@ == (FontView { glyphs: Map::empty(), kernings: Map::empty(), lines: Map::empty() }),
    {
        Font { glyphs: Vec::new(), kernings: Vec::new(), lines: Vec::new() }
    }

    /// Sets the glyph of a character, in place of the one the font had for it.
    pub fn insert_glyph(
        &mut self,
        code_point: u32,
        character_size: u32,
        bold: bool,
        outline_thickness: i64,
        glyph: Glyph,
    )
        ensures
            final(self)@ == (FontView {
                glyphs: old(self)@.glyphs.insert(
                    GlyphKey { code_point, character_size, bold, outline_thickness },
                    glyph,
                ),
                ..old(self)@
            }),
    {
        let key = GlyphKey { code_point, character_size, bold, outline_thickness };
        self.glyphs.push((key, glyph));
        proof {
            assert(self.glyphs@.drop_last() =~= old(self).glyphs@);
        }
    }

    /// Sets the kerning offset of a pair of characters, in place of the one the
    /// font had for it.
    pub fn insert_kerning(
        &mut self,
        first: u32,
        second: u32,
        character_size: u32,
        bold: bool,
        offset: i64,
    )
        ensures
            final(self)@ == (FontView {
                kernings: old(self)@.kernings.insert(
                    KerningKey { first, second, character_size, bold },
                    offset,
                ),
                ..old(self)@
            }),
    {
        let key = KerningKey { first, second, character_size, bold };
        self.kernings.push((key, offset));
        proof {
            assert(self.kernings@.drop_last() =~= old(self).kernings@);
        }
    }

    /// Sets the line metrics of a character size, in place of those the font
    /// had for it.
    pub fn insert_line_metrics(&mut self, character_size: u32, metrics: LineMetrics)
        ensures
            final(self)@ == (FontView {
                lines: old(self)@.lines.insert(character_size, metrics),
                ..old(self)@
            }),
    {
        self.lines.push((character_size, metrics));
        proof {
            assert(self.lines@.drop_last() =~= old(self).lines@);
        }
    }

    /// Retrieve a glyph of the font.
    ///
    /// `outline_thickness` selects the outlined version of the glyph; 0 selects
    /// the glyph itself.
    pub fn glyph(
        &self,
        code_point: u32,
        character_size: u32,
        bold: bool,
        outline_thickness: i64,
    ) -> (glyph: Glyph)
        ensures
            glyph == self@.glyph(code_point, character_size, bold, outline_thickness),
    {
        let key = GlyphKey { code_point, character_size, bold, outline_thickness };
        let mut index: usize = self.glyphs.len();
        while index > 0
            invariant
                key == (GlyphKey { code_point, character_size, bold, outline_thickness }),
                index <= self.glyphs@.len(),
                forall|j: int| index <= j < self.glyphs@.len() ==> (#[trigger] self.glyphs@[j]).0 != key,
            decreases index,
        {
            index = index - 1;
            if self.glyphs[index].0 == key {
                proof {
                    lemma_table_holds_last_entry(self.glyphs@, index as int);
                }
                return self.glyphs[index].1;
            }
        }
        proof {
            lemma_table_lacks_absent_key(self.glyphs@, key);
        }
        Glyph::default()
    }

    /// The kerning offset of a pair of characters in the given weight.
    fn find_kerning(&self, key: KerningKey) -> (offset: i64)
        ensures
            offset == self@.kerning_of(key),
    {
        let mut index: usize = self.kernings.len();
        while index > 0
            invariant
                index <= self.kernings@.len(),
                forall|j: int| index <= j < self.kernings@.len() ==> (#[trigger] self.kernings@[j]).0 != key,
            decreases index,
        {
            index = index - 1;
            if self.kernings[index].0 == key {
                proof {
                    lemma_table_holds_last_entry(self.kernings@, index as int);
                }
                return self.kernings[index].1;
            }
        }
        proof {
            lemma_table_lacks_absent_key(self.kernings@, key);
        }
        0
    }

    /// Get the kerning offset of two glyphs.
    pub fn kerning(&self, first: u32, second: u32, character_size: u32) -> (offset: i64)
        ensures
            offset == self@.kerning(first, second, character_size),
    {
        self.find_kerning(KerningKey { first, second, character_size, bold: false })
    }

    /// Get the bold kerning offset of two glyphs.
    pub fn bold_kerning(&self, first: u32, second: u32, character_size: u32) -> (offset: i64)
        ensures
            offset == self@.bold_kerning(first, second, character_size),
    {
        self.find_kerning(KerningKey { first, second, character_size, bold: true })
    }

    /// The line metrics of a character size.
    pub fn line_metrics(&self, character_size: u32) -> (metrics: LineMetrics)
        ensures
            metrics == self@.line_metrics(character_size),
    {
        let mut index: usize = self.lines.len();
        while index > 0
            invariant
                index <= self.lines@.len(),
                forall|j: int| index <= j < self.lines@.len() ==> (#[trigger] self.lines@[j]).0 != character_size,
            decreases index,
        {
            index = index - 1;
            if self.lines[index].0 == character_size {
                proof {
                    lemma_table_holds_last_entry(self.lines@, index as int);
                }
                return self.lines[index].1;
            }
        }
        proof {
            lemma_table_lacks_absent_key(self.lines@, character_size);
        }
        LineMetrics { line_spacing: 0, underline_position: 0, underline_thickness: 0 }
    }

    /// Get the line spacing.
    pub fn line_spacing(&self, character_size: u32) -> (spacing: i64)
        ensures
            spacing == self@.line_spacing(character_size),
    {
        self.line_metrics(character_size).line_spacing
    }

    /// Get the position of the underline.
    pub fn underline_position(&self, character_size: u32) -> (position: i64)
        ensures
            position == self@.underline_position(character_size),
    {
        self.line_metrics(character_size).underline_position
    }

    /// Get the thickness of the underline.
    pub fn underline_thickness(&self, character_size: u32) -> (thickness: i64)
        ensures
            thickness == self@.underline_thickness(character_size),
    {
        self.line_metrics(character_size).underline_thickness
    }
}

} // verus!
