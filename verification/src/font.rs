//! Vector fonts: glyphs as stroke paths in a unit square, and the registry
//! that finds a font for a style with a fixed order of fallbacks.

use vstd::prelude::*;
use crate::scene::FontStyleId;
use crate::scene::Point;

verus! {

/// The style that stands for "whatever the default font is".
pub const STYLE_DEFAULT: u32 = 0;

/// The baseline style, tried when neither the requested style nor the default
/// is registered.
pub const STYLE_ATARI: u32 = 1;

/// The style of the Cinematronics cabinets.
pub const STYLE_CINEMATRONICS: u32 = 2;

/// The style of the Midway cabinets.
pub const STYLE_MIDWAY: u32 = 3;

/// The scanline style.
pub const STYLE_VECTOR_SCANLINE: u32 = 4;

/// One pen movement of a glyph outline, in the glyph's unit square.
#[derive(Clone, Copy, Debug, PartialEq, Eq, Structural)]
pub enum GlyphPathCmd {
    MoveTo(Point),
    LineTo(Point),
    Close,
}

/// One stroke of a glyph.
#[derive(Debug)]
pub struct GlyphPath {
    pub cmds: Vec<GlyphPathCmd>,
}

/// A character's outline: zero, one or several strokes, and how far the
/// cursor moves past it, in millionths of the glyph scale.
#[derive(Debug)]
pub struct Glyph {
    pub ch: char,
    pub advance: u32,
    pub paths: Vec<GlyphPath>,
}

/// A vector font: its style and its glyphs. Where two glyphs name the same
/// character the first one counts.
#[derive(Debug)]
pub struct Font {
    pub style: FontStyleId,
    pub glyphs: Vec<Glyph>,
}

/// The fonts registered so far, in the order of registration. Where two
/// fonts have the same style the one registered later counts. As soon as
/// one font is registered every style resolves to a font, the default id
/// and the baseline id among them.
#[derive(Debug)]
pub struct FontRegistry {
    pub fonts: Vec<Font>,
}

/// The place of the first glyph for `ch` among `glyphs`, if there is one.
pub open spec fn first_glyph(glyphs: Seq<Glyph>, ch: char) -> Option<int>
    decreases glyphs.len(),
{
    if glyphs.len() == 0 {
        None
    } else {
        match first_glyph(glyphs.drop_last(), ch) {
            Some(i) => Some(i),
            None => if glyphs.last().ch == ch {
                Some(glyphs.len() - 1)
            } else {
                None
            },
        }
    }
}

/// The place of the font registered last for `style` among `fonts`, if there
/// is one.
pub open spec fn latest_font(fonts: Seq<Font>, style: FontStyleId) -> Option<int>
    decreases fonts.len(),
{
    if fonts.len() == 0 {
        None
    } else if fonts.last().style == style {
        Some(fonts.len() - 1)
    } else {
        latest_font(fonts.drop_last(), style)
    }
}

/// What `first_glyph` finds is a glyph for `ch` with none for `ch` before it,
/// and it finds nothing only where no glyph is for `ch`.
pub proof fn lemma_first_glyph(glyphs: Seq<Glyph>, ch: char)
    ensures
        match first_glyph(glyphs, ch) {
            Some(i) => 0 <= i < glyphs.len() && glyphs[i].ch == ch && forall|j: int|
                0 <= j < i ==> glyphs[j].ch != ch,
            None => forall|j: int| 0 <= j < glyphs.len() ==> glyphs[j].ch != ch,
        },
    decreases glyphs.len(),
{
    if glyphs.len() > 0 {
        let head = glyphs.drop_last();
        lemma_first_glyph(head, ch);
        assert(forall|j: int| 0 <= j < head.len() ==> head[j] == glyphs[j]);
    }
}

/// What `latest_font` finds is a font of that style with none of it after it,
/// and it finds nothing only where no font has the style.
pub proof fn lemma_latest_font(fonts: Seq<Font>, style: FontStyleId)
    ensures
        match latest_font(fonts, style) {
            Some(i) => 0 <= i < fonts.len() && fonts[i].style == style && forall|j: int|
                i < j < fonts.len() ==> fonts[j].style != style,
            None => forall|j: int| 0 <= j < fonts.len() ==> fonts[j].style != style,
        },
    decreases fonts.len(),
{
    if fonts.len() > 0 {
        let head = fonts.drop_last();
        lemma_latest_font(head, style);
        assert(forall|j: int| 0 <= j < head.len() ==> head[j] == fonts[j]);
    }
}

impl Font {
    /// The glyph that this font draws for `ch`, if it has one.
    pub open spec fn glyph_of(self, ch: char) -> Option<Glyph> {
        match first_glyph(self.glyphs@, ch) {
            Some(i) => Some(self.glyphs@[i]),
            None => None,
        }
    }

    /// Whether this font has a glyph for `ch`.
    pub open spec fn maps(self, ch: char) -> bool {
        first_glyph(self.glyphs@, ch) is Some
    }

    /// The glyph for `ch`, or `None` where the font has none.
    pub fn glyph(&self, ch: char) -> (g: Option<&Glyph>)
        ensures
            match g {
                Some(found) => self.glyph_of(ch) == Some(*found),
                None => self.glyph_of(ch) is None,
            },
            g is Some <==> exists|i: int| 0 <= i < self.glyphs@.len() && self.glyphs@[i].ch == ch,
    {
        let n = self.glyphs.len();
        let mut i: usize = 0;
        while i < n
            invariant
                i <= n,
                n == self.glyphs@.len(),
                forall|j: int| 0 <= j < i ==> self.glyphs@[j].ch != ch,
            decreases n - i,
        {
            if self.glyphs[i].ch == ch {
                proof {
                    lemma_first_glyph(self.glyphs@, ch);
                }
                return Some(&self.glyphs[i]);
            }
            i = i + 1;
        }
        proof {
            lemma_first_glyph(self.glyphs@, ch);
        }
        None
    }

    /// Whether the font has a glyph for `ch`.
    pub fn has_glyph(&self, ch: char) -> (has: bool)
        ensures
            has == self.maps(ch),
    {
        self.glyph(ch).is_some()
    }
}

impl FontRegistry {
    /// The font registered for exactly `style`, if any.
    pub open spec fn exact(self, style: FontStyleId) -> Option<Font> {
        match latest_font(self.fonts@, style) {
            Some(i) => Some(self.fonts@[i]),
            None => None,
        }
    }

    /// The font that stands for the default id and the baseline id where no
    /// font is registered under them: the font of the style that was
    /// registered first. There is none only in an empty registry.
    pub open spec fn first_registered(self) -> Option<Font> {
        if self.fonts@.len() == 0 {
            None
        } else {
            self.exact(self.fonts@[0].style)
        }
    }

    /// The font that text of `style` is drawn with: the one registered for
    /// the style, else the default font, else the baseline font, else the
    /// font that stands for these two. There is none only in an empty
    /// registry.
    pub open spec fn resolved(self, style: FontStyleId) -> Option<Font> {
        if self.exact(style) is Some {
            self.exact(style)
        } else if self.exact(FontStyleId(STYLE_DEFAULT)) is Some {
            self.exact(FontStyleId(STYLE_DEFAULT))
        } else if self.exact(FontStyleId(STYLE_ATARI)) is Some {
            self.exact(FontStyleId(STYLE_ATARI))
        } else {
            self.first_registered()
        }
    }

    /// A registry with no font.
    pub fn new() -> (registry: FontRegistry)
        ensures
            registry.fonts@.len() == 0,
            forall|style: FontStyleId| registry.exact(style) is None,
            forall|style: FontStyleId| registry.resolved(style) is None,
    {
        FontRegistry { fonts: Vec::new() }
    }

    /// Registers `font` for its style. It takes the place of a font
    /// registered for that style before; the other styles keep their fonts.
    pub fn register(&mut self, font: Font)
        ensures
            final(self).fonts@ == old(self).fonts@.push(font),
            final(self).exact(font.style) == Some(font),
            forall|style: FontStyleId|
                style != font.style ==> final(self).exact(style) == old(self).exact(style),
            forall|style: FontStyleId| final(self).resolved(style) is Some,
    {
        self.fonts.push(font);
        proof {
            assert forall|style: FontStyleId| self.resolved(style) is Some by {
                lemma_fallback_always_resolves(*self, style);
            }
            assert(self.fonts@.drop_last() =~= old(self).fonts@);
            assert(self.fonts@.last() == font);
            assert forall|style: FontStyleId| style != font.style implies self.exact(style) == old(
                self,
            ).exact(style) by {
                assert(latest_font(self.fonts@, style) == latest_font(old(self).fonts@, style));
                lemma_latest_font(old(self).fonts@, style);
            }
        }
    }

    /// The font registered for exactly `style`, without any fallback.
    pub fn lookup(&self, style: FontStyleId) -> (f: Option<&Font>)
        ensures
            match f {
                Some(found) => self.exact(style) == Some(*found),
                None => self.exact(style) is None,
            },
    {
        let mut i: usize = self.fonts.len();
        proof {
            assert(self.fonts@.take(i as int) =~= self.fonts@);
        }
        while i > 0
            invariant
                i <= self.fonts@.len(),
                latest_font(self.fonts@, style) == latest_font(self.fonts@.take(i as int), style),
            decreases i,
        {
            i = i - 1;
            proof {
                let upto = self.fonts@.take(i + 1);
                assert(upto.drop_last() =~= self.fonts@.take(i as int));
                assert(upto.last() == self.fonts@[i as int]);
            }
            if self.fonts[i].style.0 == style.0 {
                return Some(&self.fonts[i]);
            }
        }
        proof {
            assert(self.fonts@.take(0).len() == 0);
        }
        None
    }

    /// The font to draw text of `style` with: the style's own, else the
    /// default font, else the baseline font, else the font that stands for
    /// these two. `None` only where no font is registered at all.
    pub fn get(&self, style: FontStyleId) -> (f: Option<&Font>)
        ensures
            match f {
                Some(found) => self.resolved(style) == Some(*found),
                None => self.resolved(style) is None,
            },
            f is None <==> self.fonts@.len() == 0,
    {
        proof {
            if self.fonts@.len() > 0 {
                lemma_fallback_always_resolves(*self, style);
            } else {
                lemma_latest_font(self.fonts@, style);
                lemma_latest_font(self.fonts@, FontStyleId(STYLE_DEFAULT));
                lemma_latest_font(self.fonts@, FontStyleId(STYLE_ATARI));
            }
        }
        match self.lookup(style) {
            Some(found) => Some(found),
            None => match self.lookup(FontStyleId(STYLE_DEFAULT)) {
                Some(found) => Some(found),
                None => match self.lookup(FontStyleId(STYLE_ATARI)) {
                    Some(found) => Some(found),
                    None => if self.fonts.len() > 0 {
                        self.lookup(self.fonts[0].style)
                    } else {
                        None
                    },
                },
            },
        }
    }
}

/// Where any font is registered, every style resolves to some font: the
/// default id and the baseline id among them, whether or not a font is
/// registered under them.
pub proof fn lemma_fallback_always_resolves(registry: FontRegistry, style: FontStyleId)
    requires
        registry.fonts@.len() > 0,
    ensures
        registry.first_registered() is Some,
        registry.resolved(style) is Some,
        registry.resolved(FontStyleId(STYLE_DEFAULT)) is Some,
        registry.resolved(FontStyleId(STYLE_ATARI)) is Some,
{
    lemma_latest_font(registry.fonts@, registry.fonts@[0].style);
}

/// Where the default font or the baseline font is registered, no style
/// falls through to the stand-in: a style without a font of its own gets
/// the default font, and the baseline font where there is no default.
pub proof fn lemma_fallback_order(registry: FontRegistry, style: FontStyleId)
    requires
        registry.exact(style) is None,
    ensures
        registry.exact(FontStyleId(STYLE_DEFAULT)) is Some ==> registry.resolved(style)
            == registry.exact(FontStyleId(STYLE_DEFAULT)),
        registry.exact(FontStyleId(STYLE_DEFAULT)) is None && registry.exact(
            FontStyleId(STYLE_ATARI),
        ) is Some ==> registry.resolved(style) == registry.exact(FontStyleId(STYLE_ATARI)),
{
}

} // verus!
