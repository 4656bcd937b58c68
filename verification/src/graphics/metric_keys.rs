//! What the layout of a text reads of a font: the keys of the glyphs and of
//! the kerning offsets that it looks up, and the character size whose line
//! metrics it takes.
//!
//! Whoever fills a [`Font`](crate::graphics::font::Font) for a text needs to
//! fill it under these keys and no others: two fonts that agree on them lay the
//! text out alike.

use vstd::prelude::*;
use crate::graphics::font::{FontView, GlyphKey, KerningKey};
use crate::graphics::layout::{
    extremes_after, fill_upto, is_blank, laid_out, measured, outline_upto, pen_after, TextFormat,
    LOWERCASE_X, SPACE,
};

verus! {

/// The keys under which the layout of a text reads a font.
#[derive(Debug)]
pub struct MetricKeys {
    /// The character size whose line metrics are read.
    pub character_size: u32,
    /// The keys of the glyphs that are read, in the order of reading.
    pub glyphs: Vec<GlyphKey>,
    /// The keys of the kerning offsets that are read, in the order of reading.
    pub kernings: Vec<KerningKey>,
}

/// The keys under which the layout of a text reads a font, as sequences.
pub struct MetricKeysView {
    /// The character size whose line metrics are read.
    pub character_size: u32,
    /// The keys of the glyphs that are read, in the order of reading.
    pub glyphs: Seq<GlyphKey>,
    /// The keys of the kerning offsets that are read, in the order of reading.
    pub kernings: Seq<KerningKey>,
}

impl View for MetricKeys {
    type V = MetricKeysView;

    open spec fn view(&self) -> MetricKeysView {
        MetricKeysView {
            character_size: self.character_size,
            glyphs: self.glyphs@,
            kernings: self.kernings@,
        }
    }
}

/// The character that the pen drew last after the first `count` characters of
/// `text`: the last of them that is no carriage return, 0 where there is none.
pub open spec fn previous_code(text: Seq<char>, count: int) -> u32
    decreases count,
{
    if count <= 0 {
        0
    } else if text[count - 1] == '\r' {
        previous_code(text, count - 1)
    } else {
        text[count - 1] as u32
    }
}

/// The key of the glyph of a character in a format, without outline.
pub open spec fn plain_key(format: TextFormat, code_point: u32) -> GlyphKey {
    GlyphKey {
        code_point,
        character_size: format.character_size,
        bold: format.style.bold,
        outline_thickness: 0,
    }
}

/// The glyph keys that one character is read under: none for a carriage return
/// or a blank character, else that of its glyph and, where the text has an
/// outline, that of the outlined glyph.
pub open spec fn glyph_keys_of(format: TextFormat, ch: char) -> Seq<GlyphKey> {
    if ch == '\r' || is_blank(ch) {
        Seq::empty()
    } else if format.outline_thickness == 0 {
        seq![plain_key(format, ch as u32)]
    } else {
        seq![
            plain_key(format, ch as u32),
            GlyphKey { outline_thickness: format.outline_thickness, ..plain_key(format, ch as u32) },
        ]
    }
}

/// The glyph keys that the first `count` characters of `text` are read under,
/// after those of the space and of the lowercase x, which every text reads.
pub open spec fn glyph_keys_upto(format: TextFormat, text: Seq<char>, count: int) -> Seq<GlyphKey>
    decreases count,
{
    if count <= 0 {
        seq![plain_key(format, SPACE), plain_key(format, LOWERCASE_X)]
    } else {
        glyph_keys_upto(format, text, count - 1) + glyph_keys_of(format, text[count - 1])
    }
}

/// The kerning key that one character is read under, after the character
/// `previous`: none for a carriage return.
pub open spec fn kerning_keys_of(format: TextFormat, previous: u32, ch: char) -> Seq<KerningKey> {
    if ch == '\r' {
        Seq::empty()
    } else {
        seq![
            KerningKey {
                first: previous,
                second: ch as u32,
                character_size: format.character_size,
                bold: format.style.bold,
            },
        ]
    }
}

/// The kerning keys that the first `count` characters of `text` are read under.
pub open spec fn kerning_keys_upto(format: TextFormat, text: Seq<char>, count: int) -> Seq<KerningKey>
    decreases count,
{
    if count <= 0 {
        Seq::empty()
    } else {
        kerning_keys_upto(format, text, count - 1) + kerning_keys_of(
            format,
            previous_code(text, count - 1),
            text[count - 1],
        )
    }
}

/// The keys under which the layout of `text` in `format` reads a font.
pub open spec fn keys_of(format: TextFormat, text: Seq<char>) -> MetricKeysView {
    MetricKeysView {
        character_size: format.character_size,
        glyphs: glyph_keys_upto(format, text, text.len() as int),
        kernings: kerning_keys_upto(format, text, text.len() as int),
    }
}

/// Whether two fonts have the same metrics under the given keys.
pub open spec fn fonts_agree(first: FontView, second: FontView, keys: MetricKeysView) -> bool {
    &&& first.line_metrics(keys.character_size) == second.line_metrics(keys.character_size)
    &&& forall|i: int|
        0 <= i < keys.glyphs.len() ==> first.glyph_of(#[trigger] keys.glyphs[i])
            == second.glyph_of(keys.glyphs[i])
    &&& forall|i: int|
        0 <= i < keys.kernings.len() ==> first.kerning_of(#[trigger] keys.kernings[i])
            == second.kerning_of(keys.kernings[i])
}

/// The keys under which the layout of `text` in `format` reads a font.
pub fn metric_keys(format: &TextFormat, text: &str) -> (keys: MetricKeys)
    ensures
        keys@ == keys_of(*format, text@),
{
    let size = format.character_size;
    let bold = format.style.bold;
    let mut glyphs: Vec<GlyphKey> = Vec::new();
    let mut kernings: Vec<KerningKey> = Vec::new();
    glyphs.push(GlyphKey { code_point: SPACE, character_size: size, bold, outline_thickness: 0 });
    glyphs.push(
        GlyphKey { code_point: LOWERCASE_X, character_size: size, bold, outline_thickness: 0 },
    );
    let mut previous: u32 = 0;
    proof {
        assert(glyphs@ =~= glyph_keys_upto(*format, text@, 0));
        assert(kernings@ =~= kerning_keys_upto(*format, text@, 0));
    }
    for ch in it: text.chars()
        invariant
            it.seq() == text@,
            size == format.character_size,
            bold == format.style.bold,
            previous == previous_code(text@, it.index()),
            glyphs@ == glyph_keys_upto(*format, text@, it.index()),
            kernings@ == kerning_keys_upto(*format, text@, it.index()),
    {
        let ghost glyphs_before = glyphs@;
        let ghost kernings_before = kernings@;
        if ch != '\r' {
            let code = ch as u32;
            kernings.push(KerningKey { first: previous, second: code, character_size: size, bold });
            if !(ch == ' ' || ch == '\n' || ch == '\t') {
                glyphs.push(
                    GlyphKey { code_point: code, character_size: size, bold, outline_thickness: 0 },
                );
                if format.outline_thickness != 0 {
                    glyphs.push(
                        GlyphKey {
                            code_point: code,
                            character_size: size,
                            bold,
                            outline_thickness: format.outline_thickness,
                        },
                    );
                }
            }
            previous = code;
        }
        proof {
            assert(glyphs@ =~= glyphs_before + glyph_keys_of(*format, ch));
            assert(kernings@ =~= kernings_before + kerning_keys_of(
                *format,
                previous_code(text@, it.index() as int),
                ch,
            ));
        }
    }
    MetricKeys { character_size: size, glyphs, kernings }
}

/// The glyph keys of a part of a text are the first of those of the whole.
pub proof fn lemma_glyph_keys_grow(format: TextFormat, text: Seq<char>, count: int, whole: int)
    requires
        0 <= count <= whole,
    ensures
        glyph_keys_upto(format, text, count).len() <= glyph_keys_upto(format, text, whole).len(),
        forall|i: int|
            0 <= i < glyph_keys_upto(format, text, count).len() ==> glyph_keys_upto(
                format,
                text,
                whole,
            )[i] == glyph_keys_upto(format, text, count)[i],
    decreases whole - count,
{
    if count < whole {
        lemma_glyph_keys_grow(format, text, count, whole - 1);
    }
}

/// The kerning keys of a part of a text are the first of those of the whole.
pub proof fn lemma_kerning_keys_grow(format: TextFormat, text: Seq<char>, count: int, whole: int)
    requires
        0 <= count <= whole,
    ensures
        kerning_keys_upto(format, text, count).len() <= kerning_keys_upto(format, text, whole).len(),
        forall|i: int|
            0 <= i < kerning_keys_upto(format, text, count).len() ==> kerning_keys_upto(
                format,
                text,
                whole,
            )[i] == kerning_keys_upto(format, text, count)[i],
    decreases whole - count,
{
    if count < whole {
        lemma_kerning_keys_grow(format, text, count, whole - 1);
    }
}

/// Two fonts that agree on the keys of a text measure it alike.
pub proof fn lemma_measure_reads_its_keys_only(
    first: FontView,
    second: FontView,
    format: TextFormat,
    text: Seq<char>,
)
    requires
        fonts_agree(first, second, keys_of(format, text)),
    ensures
        measured(first, format) == measured(second, format),
{
    let keys = keys_of(format, text);
    lemma_glyph_keys_grow(format, text, 0, text.len() as int);
    assert(keys.glyphs[0] == plain_key(format, SPACE));
    assert(keys.glyphs[1] == plain_key(format, LOWERCASE_X));
    assert(first.glyph_of(keys.glyphs[0]) == second.glyph_of(keys.glyphs[0]));
    assert(first.glyph_of(keys.glyphs[1]) == second.glyph_of(keys.glyphs[1]));
}

/// Two fonts that agree on the keys of a text walk it alike: after each of its
/// characters the pen, the vertices and the extremes are the same.
pub proof fn lemma_walk_reads_its_keys_only(
    first: FontView,
    second: FontView,
    format: TextFormat,
    text: Seq<char>,
    count: int,
)
    requires
        fonts_agree(first, second, keys_of(format, text)),
        0 <= count <= text.len(),
    ensures
        pen_after(first, measured(first, format), text, count) == pen_after(
            second,
            measured(second, format),
            text,
            count,
        ),
        pen_after(first, measured(first, format), text, count).previous == previous_code(
            text,
            count,
        ),
        fill_upto(first, measured(first, format), text, count) == fill_upto(
            second,
            measured(second, format),
            text,
            count,
        ),
        outline_upto(first, measured(first, format), text, count) == outline_upto(
            second,
            measured(second, format),
            text,
            count,
        ),
        extremes_after(first, measured(first, format), text, count) == extremes_after(
            second,
            measured(second, format),
            text,
            count,
        ),
    decreases count,
{
    lemma_measure_reads_its_keys_only(first, second, format, text);
    if count > 0 {
        lemma_walk_reads_its_keys_only(first, second, format, text, count - 1);
        let keys = keys_of(format, text);
        let whole = text.len() as int;
        let ch = text[count - 1];
        let previous = previous_code(text, count - 1);
        lemma_glyph_keys_grow(format, text, count, whole);
        lemma_kerning_keys_grow(format, text, count, whole);
        if ch != '\r' {
            let at = kerning_keys_upto(format, text, count - 1).len() as int;
            let kerning = kerning_keys_of(format, previous, ch)[0];
            assert(kerning_keys_upto(format, text, count)[at] == kerning);
            assert(keys.kernings[at] == kerning);
            assert(first.kerning_of(kerning) == second.kerning_of(kerning));
            if !is_blank(ch) {
                let from = glyph_keys_upto(format, text, count - 1).len() as int;
                let plain = plain_key(format, ch as u32);
                assert(glyph_keys_upto(format, text, count)[from] == plain);
                assert(keys.glyphs[from] == plain);
                assert(first.glyph_of(plain) == second.glyph_of(plain));
                if format.outline_thickness != 0 {
                    let outlined = GlyphKey {
                        outline_thickness: format.outline_thickness,
                        ..plain
                    };
                    assert(glyph_keys_upto(format, text, count)[from + 1] == outlined);
                    assert(keys.glyphs[from + 1] == outlined);
                    assert(first.glyph_of(outlined) == second.glyph_of(outlined));
                }
            }
        }
    }
}

/// The layout of a text reads a font under the keys of the text only: two
/// fonts that agree on them give the same geometry.
pub proof fn lemma_layout_reads_its_keys_only(
    first: FontView,
    second: FontView,
    format: TextFormat,
    text: Seq<char>,
)
    requires
        fonts_agree(first, second, keys_of(format, text)),
    ensures
        laid_out(first, format, text) == laid_out(second, format, text),
{
    lemma_measure_reads_its_keys_only(first, second, format, text);
    lemma_walk_reads_its_keys_only(first, second, format, text, text.len() as int);
}

} // verus!
