use vectorcade_web::font::{
    Font, FontRegistry, Glyph, GlyphPath, GlyphPathCmd, STYLE_ATARI, STYLE_DEFAULT, STYLE_MIDWAY,
};
use vectorcade_web::glow::{
    apply_glow, clear_glow, rgba_to_css, rgba_to_css_glow, stroke_glow, CanvasOp, CssColor,
    DEFAULT_GLOW, GLOW_INTENSITY,
};
use vectorcade_web::render::{
    draw_line_with_glow, draw_polyline_with_glow, render_to_canvas, render_vector_text_with_glow,
    Viewport,
};
use vectorcade_web::scene::{DrawCmd, FontStyleId, Line2, Point, Rgba, Stroke};

const WHITE: Rgba = Rgba { r: 1_000_000, g: 1_000_000, b: 1_000_000, a: 1_000_000 };
const BLACK: Rgba = Rgba { r: 0, g: 0, b: 0, a: 1_000_000 };
const CSS_WHITE: CssColor = CssColor { r: 255, g: 255, b: 255, alpha: 1_000_000 };

fn pt(x: i32, y: i32) -> Point {
    Point { x, y }
}

fn white_stroke(glow: u32) -> Stroke {
    Stroke { color: WHITE, width_px: 2_000_000, glow }
}

/// The blur radius a canvas holds after the operations, starting from `blur`.
fn blur_after(ops: &[CanvasOp], mut blur: u64) -> u64 {
    for op in ops {
        if let CanvasOp::SetShadowBlur(b) = op {
            blur = *b;
        }
    }
    blur
}

fn letter_a() -> Glyph {
    Glyph {
        ch: 'A',
        advance: 800_000,
        paths: vec![
            GlyphPath {
                cmds: vec![
                    GlyphPathCmd::MoveTo(pt(0, 0)),
                    GlyphPathCmd::LineTo(pt(500_000, 1_000_000)),
                    GlyphPathCmd::LineTo(pt(1_000_000, 0)),
                ],
            },
            GlyphPath {
                cmds: vec![
                    GlyphPathCmd::LineTo(pt(250_000, 500_000)),
                    GlyphPathCmd::LineTo(pt(750_000, 500_000)),
                    GlyphPathCmd::Close,
                ],
            },
        ],
    }
}

fn atari() -> FontRegistry {
    let mut fonts = FontRegistry::new();
    fonts.register(Font { style: FontStyleId(STYLE_ATARI), glyphs: vec![letter_a()] });
    fonts
}

/// The strokes of `letter_a` whose origin lands on the pixel column `x0`
/// (in millionths), on a 100 by 100 viewport at a glyph size of 10 pixels.
fn strokes_of_a(x0: i64) -> Vec<CanvasOp> {
    vec![
        CanvasOp::BeginPath,
        CanvasOp::MoveTo { x: x0, y: 50_000_000 },
        CanvasOp::LineTo { x: x0 + 5_000_000, y: 40_000_000 },
        CanvasOp::LineTo { x: x0 + 10_000_000, y: 50_000_000 },
        CanvasOp::Stroke,
        CanvasOp::BeginPath,
        CanvasOp::MoveTo { x: x0 + 2_500_000, y: 45_000_000 },
        CanvasOp::LineTo { x: x0 + 7_500_000, y: 45_000_000 },
        CanvasOp::ClosePath,
        CanvasOp::Stroke,
    ]
}

fn text_head() -> Vec<CanvasOp> {
    vec![
        // Text carries no glow of its own: blur (8 + 0.5 * 12) * 0.8 and
        // alpha 1 * 0.6 * 0.5 * 0.8.
        CanvasOp::SetShadowBlur(11_200_000),
        CanvasOp::SetShadowColor(CssColor { r: 255, g: 255, b: 255, alpha: 240_000 }),
        CanvasOp::SetStrokeStyle(CSS_WHITE),
        CanvasOp::SetLineWidth(2_000_000),
        CanvasOp::SetLineCapRound,
        CanvasOp::SetLineJoinRound,
    ]
}

#[test]
fn clear_then_line_leaves_the_glow_cleared() {
    let cmds = vec![
        DrawCmd::Clear { color: BLACK },
        DrawCmd::Line(Line2 { a: pt(-1_000_000, 0), b: pt(1_000_000, 0), stroke: white_stroke(0) }),
    ];
    let mut ops = Vec::new();
    render_to_canvas(&mut ops, &cmds, 100, 100, &FontRegistry::new());
    assert_eq!(
        ops,
        vec![
            CanvasOp::SetShadowBlur(0),
            CanvasOp::SetFillStyle(CssColor { r: 0, g: 0, b: 0, alpha: 1_000_000 }),
            CanvasOp::FillRect { width: 100, height: 100 },
            CanvasOp::SetShadowBlur(11_200_000),
            CanvasOp::SetShadowColor(CssColor { r: 255, g: 255, b: 255, alpha: 240_000 }),
            CanvasOp::BeginPath,
            CanvasOp::MoveTo { x: 0, y: 50_000_000 },
            CanvasOp::LineTo { x: 100_000_000, y: 50_000_000 },
            CanvasOp::SetStrokeStyle(CSS_WHITE),
            CanvasOp::SetLineWidth(2_000_000),
            CanvasOp::SetLineCapRound,
            CanvasOp::Stroke,
            CanvasOp::SetShadowBlur(0),
            CanvasOp::SetShadowBlur(0),
        ]
    );
    assert_eq!(blur_after(&ops, 99), 0);
}

#[test]
fn an_empty_scene_only_clears_the_glow() {
    let mut ops = vec![CanvasOp::SetShadowBlur(5)];
    render_to_canvas(&mut ops, &[], 640, 480, &FontRegistry::new());
    assert_eq!(ops, vec![CanvasOp::SetShadowBlur(5), CanvasOp::SetShadowBlur(0)]);
}

#[test]
fn no_glow_leaks_from_one_command_into_the_next() {
    let cmds = vec![
        DrawCmd::Line(Line2 { a: pt(0, 0), b: pt(1, 1), stroke: white_stroke(2_000_000) }),
        DrawCmd::Polyline {
            pts: vec![pt(0, 0), pt(10, 10), pt(20, 0)],
            closed: true,
            stroke: white_stroke(0),
        },
        DrawCmd::Text {
            pos: pt(0, 0),
            text: String::from("AA"),
            size_px: 10_000_000,
            color: WHITE,
            style: FontStyleId(STYLE_ATARI),
        },
        DrawCmd::Clear { color: BLACK },
    ];
    let fonts = atari();
    for n in 0..=cmds.len() {
        let mut all = Vec::new();
        render_to_canvas(&mut all, &cmds[..n], 100, 100, &fonts);
        // Without the closing clear of the frame the canvas is clean already.
        assert_eq!(blur_after(&all[..all.len() - 1], 0), 0, "after {} commands", n);
    }
    // The fill of a clear is never drawn with a glow.
    let mut ops = Vec::new();
    render_to_canvas(&mut ops, &cmds, 100, 100, &fonts);
    let fill = ops.iter().position(|op| matches!(op, CanvasOp::FillRect { .. })).unwrap();
    assert_eq!(blur_after(&ops[..fill], 1), 0);
}

#[test]
fn markers_for_transforms_and_layers_draw_nothing() {
    let cmds = vec![
        DrawCmd::PushTransform,
        DrawCmd::BeginLayer,
        DrawCmd::EndLayer,
        DrawCmd::PopTransform,
    ];
    let mut ops = Vec::new();
    render_to_canvas(&mut ops, &cmds, 100, 100, &atari());
    assert_eq!(ops, vec![CanvasOp::SetShadowBlur(0)]);
}

#[test]
fn a_polyline_of_fewer_than_two_points_draws_nothing() {
    let cmds = vec![
        DrawCmd::Polyline { pts: vec![], closed: true, stroke: white_stroke(0) },
        DrawCmd::Polyline { pts: vec![pt(5, 5)], closed: false, stroke: white_stroke(0) },
    ];
    let mut ops = Vec::new();
    render_to_canvas(&mut ops, &cmds, 100, 100, &atari());
    assert_eq!(ops, vec![CanvasOp::SetShadowBlur(0)]);
}

#[test]
fn a_closed_polyline_is_traced_joined_and_closed() {
    let view = Viewport::new(200, 100);
    let pts = vec![pt(-1_000_000, -1_000_000), pt(1_000_000, -1_000_000), pt(0, 1_000_000)];
    let mut ops = Vec::new();
    draw_polyline_with_glow(&mut ops, &pts, true, &white_stroke(1_000_000), &view);
    assert_eq!(
        ops,
        vec![
            CanvasOp::SetShadowBlur(16_000_000),
            CanvasOp::SetShadowColor(CssColor { r: 255, g: 255, b: 255, alpha: 480_000 }),
            CanvasOp::BeginPath,
            CanvasOp::MoveTo { x: 50_000_000, y: 100_000_000 },
            CanvasOp::LineTo { x: 150_000_000, y: 100_000_000 },
            CanvasOp::LineTo { x: 100_000_000, y: 0 },
            CanvasOp::ClosePath,
            CanvasOp::SetStrokeStyle(CSS_WHITE),
            CanvasOp::SetLineWidth(2_000_000),
            CanvasOp::SetLineCapRound,
            CanvasOp::SetLineJoinRound,
            CanvasOp::Stroke,
            CanvasOp::SetShadowBlur(0),
        ]
    );
}

#[test]
fn an_open_polyline_is_not_closed() {
    let view = Viewport::new(100, 100);
    let pts = vec![pt(0, 0), pt(500_000, 500_000)];
    let mut ops = vec![CanvasOp::Stroke];
    draw_polyline_with_glow(&mut ops, &pts, false, &white_stroke(0), &view);
    assert_eq!(ops[0], CanvasOp::Stroke);
    assert!(!ops.contains(&CanvasOp::ClosePath));
    assert_eq!(ops[4], CanvasOp::MoveTo { x: 50_000_000, y: 50_000_000 });
    assert_eq!(ops[5], CanvasOp::LineTo { x: 75_000_000, y: 25_000_000 });
    assert_eq!(ops.len(), 12);
}

#[test]
fn a_line_sets_no_join() {
    let mut ops = Vec::new();
    draw_line_with_glow(&mut ops, 1, 2, 3, 4, &white_stroke(0));
    assert!(!ops.contains(&CanvasOp::SetLineJoinRound));
    assert_eq!(ops[3], CanvasOp::MoveTo { x: 1, y: 2 });
    assert_eq!(ops[4], CanvasOp::LineTo { x: 3, y: 4 });
    assert_eq!(ops.last(), Some(&CanvasOp::SetShadowBlur(0)));
}

#[test]
fn a_glow_of_zero_is_drawn_with_the_default_glow() {
    assert_eq!(stroke_glow(0), DEFAULT_GLOW);
    assert_eq!(stroke_glow(1), 1);
    assert_eq!(stroke_glow(3_000_000), 3_000_000);
    let mut unset = Vec::new();
    let mut half = Vec::new();
    draw_line_with_glow(&mut unset, 0, 0, 9, 9, &white_stroke(0));
    draw_line_with_glow(&mut half, 0, 0, 9, 9, &white_stroke(500_000));
    assert_eq!(unset, half);
    assert_eq!(unset[0], CanvasOp::SetShadowBlur(11_200_000));
}

#[test]
fn glow_gives_blur_and_shadow_colour() {
    assert_eq!(GLOW_INTENSITY, 800_000);
    let mut ops = Vec::new();
    apply_glow(&mut ops, &Rgba { r: 1_000_000, g: 500_000, b: 0, a: 500_000 }, 2_000_000);
    // blur = (8 + 2 * 12) * 0.8, alpha = 0.5 * (0.6 * 2 * 0.8)
    assert_eq!(
        ops,
        vec![
            CanvasOp::SetShadowBlur(25_600_000),
            CanvasOp::SetShadowColor(CssColor { r: 255, g: 127, b: 0, alpha: 480_000 }),
        ]
    );
}

#[test]
fn glow_rounds_down() {
    let mut ops = Vec::new();
    apply_glow(&mut ops, &WHITE, 1);
    // 8 000 012 * 0.8 = 6 400 009.6, and 0.6 millionths of alpha share is 0.
    assert_eq!(
        ops,
        vec![
            CanvasOp::SetShadowBlur(6_400_009),
            CanvasOp::SetShadowColor(CssColor { r: 255, g: 255, b: 255, alpha: 0 }),
        ]
    );
}

#[test]
fn no_glow_switches_the_blur_off() {
    let mut ops = Vec::new();
    apply_glow(&mut ops, &WHITE, 0);
    assert_eq!(ops, vec![CanvasOp::SetShadowBlur(0)]);
    clear_glow(&mut ops);
    assert_eq!(ops, vec![CanvasOp::SetShadowBlur(0), CanvasOp::SetShadowBlur(0)]);
}

#[test]
fn the_shadow_alpha_is_held_to_full_opacity() {
    let mut ops = Vec::new();
    apply_glow(&mut ops, &WHITE, 5_000_000);
    assert_eq!(ops[0], CanvasOp::SetShadowBlur(54_400_000));
    assert_eq!(ops[1], CanvasOp::SetShadowColor(CSS_WHITE));
    assert_eq!(rgba_to_css_glow(&WHITE, u64::MAX).alpha, 1_000_000);
    assert_eq!(rgba_to_css_glow(&WHITE, 1_000_000).alpha, 1_000_000);
    assert_eq!(rgba_to_css_glow(&WHITE, 999_999).alpha, 999_999);
    assert_eq!(rgba_to_css_glow(&WHITE, 0).alpha, 0);
}

#[test]
fn colours_become_bytes() {
    let c = Rgba { r: 0, g: 500_000, b: 1_000_000, a: 300_000 };
    assert_eq!(rgba_to_css(&c), CssColor { r: 0, g: 127, b: 255, alpha: 300_000 });
    let over = Rgba { r: 1_000_001, g: u32::MAX, b: 999_999, a: 2_000_000 };
    assert_eq!(rgba_to_css(&over), CssColor { r: 255, g: 255, b: 254, alpha: 2_000_000 });
    assert_eq!(rgba_to_css(&Rgba { r: 3_921, g: 3_922, b: 7_844, a: 0 }).r, 0);
    assert_eq!(rgba_to_css(&Rgba { r: 3_921, g: 3_922, b: 7_844, a: 0 }).g, 1);
    assert_eq!(rgba_to_css(&Rgba { r: 3_921, g: 3_922, b: 7_844, a: 0 }).b, 2);
    assert_eq!(rgba_to_css_glow(&c, 500_000), CssColor { r: 0, g: 127, b: 255, alpha: 150_000 });
}

#[test]
fn the_projection_centres_and_keeps_the_aspect() {
    let wide = Viewport::new(200, 100);
    assert_eq!(wide.scale_px(), 50_000_000);
    assert_eq!(wide.to_px(pt(0, 0)), (100_000_000, 50_000_000));
    assert_eq!(wide.to_px(pt(1_000_000, 1_000_000)), (150_000_000, 0));
    assert_eq!(wide.to_px(pt(-1_000_000, -1_000_000)), (50_000_000, 100_000_000));
    let tall = Viewport::new(100, 300);
    assert_eq!(tall.scale_px(), 50_000_000);
    assert_eq!(tall.to_px(pt(0, 0)), (50_000_000, 150_000_000));
    assert_eq!(tall.to_px(pt(-1_000_000, 1_000_000)), (0, 100_000_000));
    assert_eq!(tall.to_px(pt(500_000, -500_000)), (75_000_000, 175_000_000));
}

#[test]
fn the_projection_rounds_toward_the_centre() {
    let view = Viewport::new(3, 3);
    // Half the side is 1.5 pixels: 1 millionth of the square is 1.5 millionths of a pixel.
    assert_eq!(view.to_px(pt(1, 1)), (1_500_001, 1_499_999));
    assert_eq!(view.to_px(pt(-1, -1)), (1_499_999, 1_500_001));
    assert_eq!(view.to_px(pt(3, -3)), (1_500_004, 1_500_004));
}

#[test]
fn a_viewport_without_area_projects_onto_its_centre() {
    let view = Viewport::new(0, 480);
    assert_eq!(view.scale_px(), 0);
    assert_eq!(view.to_px(pt(1_000_000, 1_000_000)), (0, 240_000_000));
    assert_eq!(view.glyph_scale_for(24_000_000), 0);
}

#[test]
fn the_projection_holds_at_the_limits() {
    let view = Viewport::new(u32::MAX, u32::MAX);
    // Half the side is 2 147 483 647.5 pixels.
    let (x, y) = view.to_px(pt(i32::MAX, i32::MIN));
    assert_eq!(x, 4613833498853662432);
    assert_eq!(y, 4613833501001146080);
    assert_eq!(view.to_px_x(i64::MAX), i64::MAX);
    assert_eq!(view.to_px_x(i64::MIN), i64::MIN + 2_147_483_647_500_000);
    assert_eq!(view.to_px_y(i64::MIN), i64::MAX);
}

#[test]
fn the_glyph_scale_is_size_over_projection_scale() {
    assert_eq!(Viewport::new(100, 100).glyph_scale_for(10_000_000), 200_000);
    assert_eq!(Viewport::new(800, 600).glyph_scale_for(24_000_000), 80_000);
    assert_eq!(Viewport::new(600, 800).glyph_scale_for(24_000_000), 80_000);
    assert_eq!(Viewport::new(3, 3).glyph_scale_for(1_000_000), 666_666);
}

#[test]
fn text_is_traced_glyph_by_glyph() {
    let view = Viewport::new(100, 100);
    let mut ops = Vec::new();
    render_vector_text_with_glow(
        &mut ops,
        &atari(),
        FontStyleId(STYLE_ATARI),
        "A",
        -500_000,
        0,
        10_000_000,
        &WHITE,
        &view,
    );
    let mut want = text_head();
    want.extend(strokes_of_a(25_000_000));
    want.push(CanvasOp::SetShadowBlur(0));
    assert_eq!(ops, want);
}

#[test]
fn a_missing_glyph_draws_nothing_and_moves_the_cursor() {
    let view = Viewport::new(100, 100);
    let mut ops = Vec::new();
    render_vector_text_with_glow(
        &mut ops,
        &atari(),
        FontStyleId(STYLE_ATARI),
        "A?A",
        -500_000,
        0,
        10_000_000,
        &WHITE,
        &view,
    );
    // The glyph scale is 0.2. The first A moves the cursor by 0.8 * 0.2, the
    // missing glyph by 0.6 * 0.2: the second A starts at -0.5 + 0.16 + 0.12.
    let mut want = text_head();
    want.extend(strokes_of_a(25_000_000));
    want.extend(strokes_of_a(39_000_000));
    want.push(CanvasOp::SetShadowBlur(0));
    assert_eq!(ops, want);
}

#[test]
fn text_of_missing_glyphs_only_draws_no_stroke() {
    let view = Viewport::new(100, 100);
    let mut ops = Vec::new();
    render_vector_text_with_glow(
        &mut ops,
        &atari(),
        FontStyleId(STYLE_ATARI),
        "xyz",
        0,
        0,
        10_000_000,
        &WHITE,
        &view,
    );
    let mut want = text_head();
    want.push(CanvasOp::SetShadowBlur(0));
    assert_eq!(ops, want);
    assert!(!ops.contains(&CanvasOp::Stroke));
}

#[test]
fn text_glows_like_a_stroke_that_sets_no_glow() {
    let view = Viewport::new(100, 100);
    let mut text = Vec::new();
    render_vector_text_with_glow(
        &mut text,
        &atari(),
        FontStyleId(STYLE_ATARI),
        "A",
        0,
        0,
        10_000_000,
        &WHITE,
        &view,
    );
    let mut line = Vec::new();
    draw_line_with_glow(&mut line, 0, 0, 1, 1, &white_stroke(0));
    assert_eq!(text[..2], line[..2]);
    let mut by_hand = Vec::new();
    apply_glow(&mut by_hand, &WHITE, DEFAULT_GLOW);
    assert_eq!(text[..2], by_hand[..]);
    // The shadow follows the alpha of the text colour.
    let faint = Rgba { r: 0, g: 1_000_000, b: 0, a: 500_000 };
    let mut ops = Vec::new();
    render_vector_text_with_glow(
        &mut ops,
        &atari(),
        FontStyleId(STYLE_ATARI),
        "",
        0,
        0,
        10_000_000,
        &faint,
        &view,
    );
    assert_eq!(ops[0], CanvasOp::SetShadowBlur(11_200_000));
    assert_eq!(
        ops[1],
        CanvasOp::SetShadowColor(CssColor { r: 0, g: 255, b: 0, alpha: 120_000 })
    );
}

#[test]
fn text_is_drawn_with_any_registered_font_rather_than_dropped() {
    let view = Viewport::new(100, 100);
    let mut fonts = FontRegistry::new();
    fonts.register(Font { style: FontStyleId(STYLE_MIDWAY), glyphs: vec![letter_a()] });
    let mut ops = Vec::new();
    render_vector_text_with_glow(
        &mut ops,
        &fonts,
        FontStyleId(STYLE_DEFAULT),
        "A",
        -500_000,
        0,
        10_000_000,
        &WHITE,
        &view,
    );
    let mut want = text_head();
    want.extend(strokes_of_a(25_000_000));
    want.push(CanvasOp::SetShadowBlur(0));
    assert_eq!(ops, want);
}

#[test]
fn text_without_any_font_draws_nothing() {
    let view = Viewport::new(100, 100);
    let mut ops = vec![CanvasOp::BeginPath];
    render_vector_text_with_glow(
        &mut ops,
        &FontRegistry::new(),
        FontStyleId(STYLE_ATARI),
        "AAA",
        0,
        0,
        10_000_000,
        &WHITE,
        &view,
    );
    assert_eq!(ops, vec![CanvasOp::BeginPath]);
}

#[test]
fn text_falls_back_to_the_baseline_font() {
    let view = Viewport::new(100, 100);
    let mut with_style = Vec::new();
    let mut with_other = Vec::new();
    let fonts = atari();
    render_vector_text_with_glow(
        &mut with_style,
        &fonts,
        FontStyleId(STYLE_ATARI),
        "A",
        0,
        0,
        10_000_000,
        &WHITE,
        &view,
    );
    render_vector_text_with_glow(
        &mut with_other,
        &fonts,
        FontStyleId(42),
        "A",
        0,
        0,
        10_000_000,
        &WHITE,
        &view,
    );
    assert_eq!(with_style, with_other);
    assert_eq!(with_style.len(), 17);
}

#[test]
fn empty_text_still_sets_and_clears_the_glow() {
    let view = Viewport::new(100, 100);
    let mut ops = Vec::new();
    render_vector_text_with_glow(
        &mut ops,
        &atari(),
        FontStyleId(STYLE_ATARI),
        "",
        0,
        0,
        10_000_000,
        &WHITE,
        &view,
    );
    let mut want = text_head();
    want.push(CanvasOp::SetShadowBlur(0));
    assert_eq!(ops, want);
}

#[test]
fn the_advance_is_the_glyphs_own() {
    let mut fonts = FontRegistry::new();
    let mut narrow = letter_a();
    narrow.ch = 'i';
    narrow.advance = 300_000;
    fonts.register(Font { style: FontStyleId(STYLE_ATARI), glyphs: vec![letter_a(), narrow] });
    let view = Viewport::new(100, 100);
    let mut ops = Vec::new();
    render_vector_text_with_glow(
        &mut ops,
        &fonts,
        FontStyleId(STYLE_ATARI),
        "iAi",
        0,
        0,
        10_000_000,
        &WHITE,
        &view,
    );
    // Cursor: 0, then 0.3 * 0.2 = 0.06, then 0.06 + 0.8 * 0.2 = 0.22.
    let mut want = text_head();
    want.extend(strokes_of_a(50_000_000));
    want.extend(strokes_of_a(53_000_000));
    want.extend(strokes_of_a(61_000_000));
    want.push(CanvasOp::SetShadowBlur(0));
    assert_eq!(ops, want);
}

#[test]
fn a_scene_with_text_is_rendered_in_order() {
    let cmds = vec![
        DrawCmd::Clear { color: BLACK },
        DrawCmd::Text {
            pos: pt(-500_000, 0),
            text: String::from("A"),
            size_px: 10_000_000,
            color: WHITE,
            style: FontStyleId(7),
        },
        DrawCmd::PushTransform,
        DrawCmd::Line(Line2 { a: pt(0, 0), b: pt(0, 1_000_000), stroke: white_stroke(0) }),
    ];
    let mut ops = Vec::new();
    render_to_canvas(&mut ops, &cmds, 100, 100, &atari());
    let mut want = vec![
        CanvasOp::SetShadowBlur(0),
        CanvasOp::SetFillStyle(CssColor { r: 0, g: 0, b: 0, alpha: 1_000_000 }),
        CanvasOp::FillRect { width: 100, height: 100 },
    ];
    want.extend(text_head());
    want.extend(strokes_of_a(25_000_000));
    want.push(CanvasOp::SetShadowBlur(0));
    want.extend(vec![
        CanvasOp::SetShadowBlur(11_200_000),
        CanvasOp::SetShadowColor(CssColor { r: 255, g: 255, b: 255, alpha: 240_000 }),
        CanvasOp::BeginPath,
        CanvasOp::MoveTo { x: 50_000_000, y: 50_000_000 },
        CanvasOp::LineTo { x: 50_000_000, y: 0 },
        CanvasOp::SetStrokeStyle(CSS_WHITE),
        CanvasOp::SetLineWidth(2_000_000),
        CanvasOp::SetLineCapRound,
        CanvasOp::Stroke,
        CanvasOp::SetShadowBlur(0),
        CanvasOp::SetShadowBlur(0),
    ]);
    assert_eq!(ops, want);
}
