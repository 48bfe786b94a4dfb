use vectorcade_web::font::{
    Font, FontRegistry, Glyph, GlyphPath, GlyphPathCmd, STYLE_ATARI, STYLE_CINEMATRONICS,
    STYLE_DEFAULT, STYLE_MIDWAY, STYLE_VECTOR_SCANLINE,
};
use vectorcade_web::scene::{FontStyleId, Point};

fn bar(ch: char, advance: u32) -> Glyph {
    Glyph {
        ch,
        advance,
        paths: vec![GlyphPath {
            cmds: vec![
                GlyphPathCmd::MoveTo(Point { x: 0, y: 0 }),
                GlyphPathCmd::LineTo(Point { x: 0, y: 1_000_000 }),
            ],
        }],
    }
}

fn font(style: u32, chars: &str, advance: u32) -> Font {
    Font { style: FontStyleId(style), glyphs: chars.chars().map(|c| bar(c, advance)).collect() }
}

#[test]
fn the_styles_are_distinct() {
    let all = [
        STYLE_DEFAULT,
        STYLE_ATARI,
        STYLE_CINEMATRONICS,
        STYLE_MIDWAY,
        STYLE_VECTOR_SCANLINE,
    ];
    for i in 0..all.len() {
        for j in 0..i {
            assert_ne!(all[i], all[j]);
        }
    }
}

#[test]
fn an_empty_registry_resolves_nothing() {
    let registry = FontRegistry::new();
    assert!(registry.get(FontStyleId(STYLE_DEFAULT)).is_none());
    assert!(registry.get(FontStyleId(STYLE_ATARI)).is_none());
    assert!(registry.get(FontStyleId(77)).is_none());
    assert!(registry.lookup(FontStyleId(STYLE_DEFAULT)).is_none());
}

#[test]
fn get_prefers_the_exact_style() {
    let mut registry = FontRegistry::new();
    registry.register(font(STYLE_DEFAULT, "D", 1));
    registry.register(font(STYLE_ATARI, "A", 2));
    registry.register(font(STYLE_MIDWAY, "M", 3));
    assert_eq!(registry.get(FontStyleId(STYLE_MIDWAY)).unwrap().style, FontStyleId(STYLE_MIDWAY));
    assert_eq!(registry.get(FontStyleId(STYLE_ATARI)).unwrap().style, FontStyleId(STYLE_ATARI));
    assert_eq!(
        registry.get(FontStyleId(STYLE_DEFAULT)).unwrap().style,
        FontStyleId(STYLE_DEFAULT)
    );
}

#[test]
fn get_falls_back_to_the_default_before_the_baseline() {
    let mut registry = FontRegistry::new();
    registry.register(font(STYLE_ATARI, "A", 2));
    registry.register(font(STYLE_DEFAULT, "D", 1));
    let found = registry.get(FontStyleId(STYLE_CINEMATRONICS)).unwrap();
    assert_eq!(found.style, FontStyleId(STYLE_DEFAULT));
    assert!(registry.lookup(FontStyleId(STYLE_CINEMATRONICS)).is_none());
}

#[test]
fn get_falls_back_to_the_baseline_without_a_default() {
    let mut registry = FontRegistry::new();
    registry.register(font(STYLE_MIDWAY, "M", 3));
    registry.register(font(STYLE_ATARI, "A", 2));
    let found = registry.get(FontStyleId(STYLE_VECTOR_SCANLINE)).unwrap();
    assert_eq!(found.style, FontStyleId(STYLE_ATARI));
    let for_default = registry.get(FontStyleId(STYLE_DEFAULT)).unwrap();
    assert_eq!(for_default.style, FontStyleId(STYLE_ATARI));
}

#[test]
fn the_default_and_the_baseline_resolve_whenever_a_font_is_registered() {
    let mut registry = FontRegistry::new();
    registry.register(font(STYLE_MIDWAY, "M", 3));
    let for_default = registry.get(FontStyleId(STYLE_DEFAULT)).unwrap();
    assert_eq!(for_default.style, FontStyleId(STYLE_MIDWAY));
    let for_baseline = registry.get(FontStyleId(STYLE_ATARI)).unwrap();
    assert_eq!(for_baseline.style, FontStyleId(STYLE_MIDWAY));
    let for_other = registry.get(FontStyleId(STYLE_CINEMATRONICS)).unwrap();
    assert_eq!(for_other.style, FontStyleId(STYLE_MIDWAY));
    assert_eq!(registry.get(FontStyleId(STYLE_MIDWAY)).unwrap().style, FontStyleId(STYLE_MIDWAY));
    // Only the lookup without fallback says that the ids have no font of their own.
    assert!(registry.lookup(FontStyleId(STYLE_DEFAULT)).is_none());
    assert!(registry.lookup(FontStyleId(STYLE_ATARI)).is_none());
}

#[test]
fn the_font_registered_first_stands_for_the_default_and_the_baseline() {
    let mut registry = FontRegistry::new();
    registry.register(font(STYLE_VECTOR_SCANLINE, "V", 4));
    registry.register(font(STYLE_MIDWAY, "M", 3));
    registry.register(font(STYLE_CINEMATRONICS, "C", 2));
    for style in [STYLE_DEFAULT, STYLE_ATARI, 77] {
        let found = registry.get(FontStyleId(style)).unwrap();
        assert_eq!(found.style, FontStyleId(STYLE_VECTOR_SCANLINE));
    }
    // A later font for that style takes its place there too.
    registry.register(font(STYLE_VECTOR_SCANLINE, "W", 5));
    let found = registry.get(FontStyleId(STYLE_DEFAULT)).unwrap();
    assert!(found.has_glyph('W'));
    assert!(!found.has_glyph('V'));
    // A font registered under the baseline id comes before the stand-in.
    registry.register(font(STYLE_ATARI, "A", 1));
    assert_eq!(registry.get(FontStyleId(STYLE_DEFAULT)).unwrap().style, FontStyleId(STYLE_ATARI));
    assert_eq!(registry.get(FontStyleId(77)).unwrap().style, FontStyleId(STYLE_ATARI));
}

#[test]
fn a_later_registration_takes_the_place_of_an_earlier_one() {
    let mut registry = FontRegistry::new();
    registry.register(font(STYLE_ATARI, "A", 2));
    registry.register(font(STYLE_MIDWAY, "M", 3));
    registry.register(font(STYLE_ATARI, "B", 9));
    let found = registry.lookup(FontStyleId(STYLE_ATARI)).unwrap();
    assert!(found.has_glyph('B'));
    assert!(!found.has_glyph('A'));
    assert_eq!(found.glyph('B').unwrap().advance, 9);
    assert!(registry.lookup(FontStyleId(STYLE_MIDWAY)).unwrap().has_glyph('M'));
    assert_eq!(registry.fonts.len(), 3);
}

#[test]
fn a_font_finds_its_glyphs() {
    let f = font(STYLE_ATARI, "ABC", 700_000);
    assert!(f.has_glyph('A'));
    assert!(f.has_glyph('C'));
    assert!(!f.has_glyph('a'));
    assert!(!f.has_glyph(' '));
    assert_eq!(f.glyph('B').unwrap().ch, 'B');
    assert!(f.glyph('Z').is_none());
}

#[test]
fn the_first_glyph_for_a_character_counts() {
    let f = Font {
        style: FontStyleId(STYLE_ATARI),
        glyphs: vec![bar('X', 1), bar('Y', 2), bar('X', 3)],
    };
    assert_eq!(f.glyph('X').unwrap().advance, 1);
    assert_eq!(f.glyph('Y').unwrap().advance, 2);
}

#[test]
fn a_font_without_glyphs_has_none() {
    let f = Font { style: FontStyleId(5), glyphs: Vec::new() };
    assert!(!f.has_glyph('A'));
    assert!(f.glyph('A').is_none());
}

#[test]
fn a_glyph_may_have_no_stroke() {
    let f = Font {
        style: FontStyleId(STYLE_ATARI),
        glyphs: vec![Glyph { ch: ' ', advance: 500_000, paths: Vec::new() }],
    };
    assert!(f.has_glyph(' '));
    assert_eq!(f.glyph(' ').unwrap().paths.len(), 0);
}
