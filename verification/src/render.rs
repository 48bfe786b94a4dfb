//! Turning a scene into canvas operations: the projection from the
//! normalized square to pixels, and the glow-decorated strokes of lines,
//! polylines and vector text.

use vstd::prelude::*;
use crate::font::Font;
use crate::font::FontRegistry;
use crate::font::GlyphPath;
use crate::font::GlyphPathCmd;
use crate::glow::apply_glow;
use crate::glow::clear_glow;
use crate::glow::css_of;
use crate::glow::effective_glow;
use crate::glow::glow_ops;
use crate::glow::rgba_to_css;
use crate::glow::shadow_blur_after;
use crate::glow::stroke_glow;
use crate::glow::CanvasOp;
use crate::glow::DEFAULT_GLOW;
use crate::scene::DrawCmd;
use crate::scene::FontStyleId;
use crate::scene::Point;
use crate::scene::Rgba;
use crate::scene::Stroke;
use crate::units::add_clamped;
use crate::units::clamp;
use crate::units::clamp_i64;
use crate::units::lemma_scaled_bounds;
use crate::units::lemma_scaled_by_one;
use crate::units::scale;
use crate::units::scaled;
use crate::units::UNIT;

verus! {

/// The width of the strokes of text, in millionths of a pixel.
pub const TEXT_LINE_WIDTH: u32 = 2_000_000;

/// How far the cursor moves past a character that the font has no glyph
/// for, in millionths of the glyph scale.
pub const FALLBACK_ADVANCE: u32 = 600_000;

/// Half of 1 in fixed point: the factor from a side in whole pixels to half
/// that side in millionths of a pixel.
pub const HALF_UNIT: i64 = 500_000;

/// The greatest half side a viewport can have, in millionths of a pixel.
pub const MAX_HALF_EXTENT: i64 = 2_147_483_647_500_000;

/// The pixel surface that a frame is drawn on.
#[derive(Clone, Copy, Debug, PartialEq, Eq, Structural)]
pub struct Viewport {
    pub width: u32,
    pub height: u32,
}

impl Viewport {
    /// The pixels per unit of the normalized square, in millionths: half the
    /// smaller side, so that the square fits whole and keeps its aspect.
    pub open spec fn half_extent(self) -> int {
        (if self.width <= self.height { self.width as int } else { self.height as int }) * HALF_UNIT
    }

    /// The pixel column of the centre, in millionths.
    pub open spec fn center_x(self) -> int {
        self.width * HALF_UNIT
    }

    /// The pixel row of the centre, in millionths.
    pub open spec fn center_y(self) -> int {
        self.height * HALF_UNIT
    }

    /// The pixel column of the normalized abscissa `x`.
    pub open spec fn column(self, x: int) -> int {
        clamp_i64(self.center_x() + clamp_i64(scaled(x, self.half_extent())))
    }

    /// The pixel row of the normalized ordinate `y`: rows grow downward.
    pub open spec fn row(self, y: int) -> int {
        clamp_i64(self.center_y() - clamp_i64(scaled(y, self.half_extent())))
    }

    /// The glyph scale for text of `size_px`: the factor that brings a
    /// glyph's unit square to that many pixels under this projection. A
    /// viewport without area gives the scale 0.
    pub open spec fn glyph_scale(self, size_px: u32) -> int {
        if self.half_extent() == 0 {
            0
        } else {
            size_px * UNIT / self.half_extent()
        }
    }

    /// The viewport of a surface of `width` by `height` whole pixels.
    pub fn new(width: u32, height: u32) -> (view: Viewport)
        ensures
            view.width == width,
            view.height == height,
    {
        Viewport { width, height }
    }

    /// Half the smaller side, in millionths of a pixel.
    pub fn scale_px(&self) -> (s: i64)
        ensures
            s == self.half_extent(),
            0 <= s <= MAX_HALF_EXTENT,
    {
        proof {
            lemma_half_extent(*self);
        }
        let side: u32 = if self.width <= self.height {
            self.width
        } else {
            self.height
        };
        (side as i64) * HALF_UNIT
    }

    /// The pixel column of the normalized abscissa `x`.
    pub fn to_px_x(&self, x: i64) -> (px: i64)
        ensures
            px == self.column(x as int),
    {
        proof {
            lemma_half_extent(*self);
        }
        let cx: i64 = (self.width as i64) * HALF_UNIT;
        add_clamped(cx, scale(x, self.scale_px()))
    }

    /// The pixel row of the normalized ordinate `y`.
    pub fn to_px_y(&self, y: i64) -> (py: i64)
        ensures
            py == self.row(y as int),
    {
        proof {
            lemma_half_extent(*self);
        }
        let cy: i128 = (self.height as i128) * (HALF_UNIT as i128);
        let off: i128 = scale(y, self.scale_px()) as i128;
        clamp(cy - off)
    }

    /// The pixel position of a point of the normalized square.
    pub fn to_px(&self, p: Point) -> (at: (i64, i64))
        ensures
            at.0 == self.column(p.x as int),
            at.1 == self.row(p.y as int),
    {
        (self.to_px_x(p.x as i64), self.to_px_y(p.y as i64))
    }

    /// The glyph scale for text of `size_px`.
    pub fn glyph_scale_for(&self, size_px: u32) -> (gs: i64)
        ensures
            gs == self.glyph_scale(size_px),
            0 <= gs,
    {
        let s: i64 = self.scale_px();
        if s == 0 {
            0
        } else {
            proof {
                lemma_size_in_millionths(size_px);
            }
            ((size_px as i64) * UNIT) / s
        }
    }
}

/// The half side and the centre of a viewport in plain numbers, and their
/// bounds: the half side is never more than either coordinate of the
/// centre, and all three fit the pixel type with room to spare.
pub proof fn lemma_half_extent(view: Viewport)
    ensures
        view.half_extent() == (if view.width <= view.height {
            view.width as int
        } else {
            view.height as int
        }) * 500_000,
        view.center_x() == view.width * 500_000,
        view.center_y() == view.height * 500_000,
        0 <= view.half_extent() <= MAX_HALF_EXTENT,
        view.half_extent() <= view.center_x() <= MAX_HALF_EXTENT,
        view.half_extent() <= view.center_y() <= MAX_HALF_EXTENT,
        2 * HALF_UNIT == UNIT,
{
    let half = HALF_UNIT as int;
    let w = view.width as int;
    let h = view.height as int;
    assert(half == 500_000);
    assert(w * half == w * 500_000) by (nonlinear_arith)
        requires
            half == 500_000,
    ;
    assert(h * half == h * 500_000) by (nonlinear_arith)
        requires
            half == 500_000,
    ;
    assert(MAX_HALF_EXTENT == 0xffff_ffff * 500_000);
}

/// A size in millionths of a pixel times the unit fits the pixel type.
pub proof fn lemma_size_in_millionths(size_px: u32)
    ensures
        0 <= size_px * UNIT <= 0xffff_ffff * 1_000_000,
        size_px * UNIT == size_px * 1_000_000,
{
    let unit = UNIT as int;
    let size = size_px as int;
    assert(unit == 1_000_000);
    assert(size * unit == size * 1_000_000) by (nonlinear_arith)
        requires
            unit == 1_000_000,
    ;
}

/// The operations that end every stroke: colour, width, round caps, the
/// stroke itself and the clearing of the glow. A polyline also rounds its
/// joins.
pub open spec fn stroke_tail(stroke: Stroke, joined: bool) -> Seq<CanvasOp> {
    if joined {
        seq![
            CanvasOp::SetStrokeStyle(css_of(stroke.color)),
            CanvasOp::SetLineWidth(stroke.width_px),
            CanvasOp::SetLineCapRound,
            CanvasOp::SetLineJoinRound,
            CanvasOp::Stroke,
            CanvasOp::SetShadowBlur(0),
        ]
    } else {
        seq![
            CanvasOp::SetStrokeStyle(css_of(stroke.color)),
            CanvasOp::SetLineWidth(stroke.width_px),
            CanvasOp::SetLineCapRound,
            CanvasOp::Stroke,
            CanvasOp::SetShadowBlur(0),
        ]
    }
}

/// What drawing a line between two pixel positions puts on the canvas.
pub open spec fn line_ops(x1: i64, y1: i64, x2: i64, y2: i64, stroke: Stroke) -> Seq<CanvasOp> {
    glow_ops(stroke.color, effective_glow(stroke.glow)) + seq![
        CanvasOp::BeginPath,
        CanvasOp::MoveTo { x: x1, y: y1 },
        CanvasOp::LineTo { x: x2, y: y2 },
    ] + stroke_tail(stroke, false)
}

/// The segments of a polyline after its first point: a line to each further
/// point, in order.
pub open spec fn segment_ops(view: Viewport, pts: Seq<Point>) -> Seq<CanvasOp> {
    Seq::new(
        (pts.len() - 1) as nat,
        |i: int|
            CanvasOp::LineTo {
                x: view.column(pts[i + 1].x as int) as i64,
                y: view.row(pts[i + 1].y as int) as i64,
            },
    )
}

/// What drawing a polyline of at least one point puts on the canvas.
pub open spec fn polyline_ops(view: Viewport, pts: Seq<Point>, closed: bool, stroke: Stroke) -> Seq<
    CanvasOp,
> {
    glow_ops(stroke.color, effective_glow(stroke.glow)) + seq![
        CanvasOp::BeginPath,
        CanvasOp::MoveTo {
            x: view.column(pts[0].x as int) as i64,
            y: view.row(pts[0].y as int) as i64,
        },
    ] + segment_ops(view, pts) + (if closed {
        seq![CanvasOp::ClosePath]
    } else {
        Seq::<CanvasOp>::empty()
    }) + stroke_tail(stroke, true)
}

/// Draws a line between two pixel positions with its glow, and clears the
/// glow after it.
pub fn draw_line_with_glow(
    ctx: &mut Vec<CanvasOp>,
    x1: i64,
    y1: i64,
    x2: i64,
    y2: i64,
    stroke: &Stroke,
)
    ensures
        final(ctx)@ == old(ctx)@ + line_ops(x1, y1, x2, y2, *stroke),
{
    let effective_glow = stroke_glow(stroke.glow);
    apply_glow(ctx, &stroke.color, effective_glow);

    ctx.push(CanvasOp::BeginPath);
    ctx.push(CanvasOp::MoveTo { x: x1, y: y1 });
    ctx.push(CanvasOp::LineTo { x: x2, y: y2 });
    ctx.push(CanvasOp::SetStrokeStyle(rgba_to_css(&stroke.color)));
    ctx.push(CanvasOp::SetLineWidth(stroke.width_px));
    ctx.push(CanvasOp::SetLineCapRound);
    ctx.push(CanvasOp::Stroke);

    clear_glow(ctx);
    proof {
        assert(ctx@ =~= old(ctx)@ + line_ops(x1, y1, x2, y2, *stroke));
    }
}

/// Draws a polyline with its glow, closing it where asked, and clears the
/// glow after it.
pub fn draw_polyline_with_glow(
    ctx: &mut Vec<CanvasOp>,
    pts: &Vec<Point>,
    closed: bool,
    stroke: &Stroke,
    view: &Viewport,
)
    requires
        pts@.len() >= 1,
    ensures
        final(ctx)@ == old(ctx)@ + polyline_ops(*view, pts@, closed, *stroke),
{
    let effective_glow = stroke_glow(stroke.glow);
    apply_glow(ctx, &stroke.color, effective_glow);

    ctx.push(CanvasOp::BeginPath);
    let (x0, y0) = view.to_px(pts[0]);
    ctx.push(CanvasOp::MoveTo { x: x0, y: y0 });
    let ghost head = ctx@;
    let n = pts.len();
    let mut i: usize = 1;
    while i < n
        invariant
            1 <= i <= n,
            n == pts@.len(),
            ctx@.len() == head.len() + (i - 1),
            forall|j: int| 0 <= j < head.len() ==> ctx@[j] == head[j],
            forall|j: int| 0 <= j < i - 1 ==> ctx@[head.len() + j] == segment_ops(*view, pts@)[j],
        decreases n - i,
    {
        let (x, y) = view.to_px(pts[i]);
        ctx.push(CanvasOp::LineTo { x, y });
        i = i + 1;
    }
    proof {
        assert(ctx@ =~= head + segment_ops(*view, pts@));
    }
    if closed {
        ctx.push(CanvasOp::ClosePath);
    }
    ctx.push(CanvasOp::SetStrokeStyle(rgba_to_css(&stroke.color)));
    ctx.push(CanvasOp::SetLineWidth(stroke.width_px));
    ctx.push(CanvasOp::SetLineCapRound);
    ctx.push(CanvasOp::SetLineJoinRound);
    ctx.push(CanvasOp::Stroke);

    clear_glow(ctx);
    proof {
        assert(ctx@ =~= old(ctx)@ + polyline_ops(*view, pts@, closed, *stroke));
    }
}

/// Where a point of a glyph lands in the normalized square: the glyph's
/// origin plus the point times the glyph scale.
pub open spec fn glyph_abscissa(cursor_x: i64, pt: Point, glyph_scale: i64) -> int {
    clamp_i64(cursor_x + clamp_i64(scaled(pt.x as int, glyph_scale as int)))
}

/// See `glyph_abscissa`.
pub open spec fn glyph_ordinate(y: i32, pt: Point, glyph_scale: i64) -> int {
    clamp_i64(y + clamp_i64(scaled(pt.y as int, glyph_scale as int)))
}

/// Whether the pen is on the canvas after the path commands `cmds`: a move
/// or a line has put it there.
pub open spec fn pen_down(cmds: Seq<GlyphPathCmd>) -> bool
    decreases cmds.len(),
{
    if cmds.len() == 0 {
        false
    } else {
        !(cmds.last() is Close) || pen_down(cmds.drop_last())
    }
}

/// The canvas operation for one path command. A line with the pen not yet
/// down only puts the pen down.
pub open spec fn pen_op(
    view: Viewport,
    cmd: GlyphPathCmd,
    started: bool,
    cursor_x: i64,
    y: i32,
    glyph_scale: i64,
) -> CanvasOp {
    match cmd {
        GlyphPathCmd::MoveTo(pt) => CanvasOp::MoveTo {
            x: view.column(glyph_abscissa(cursor_x, pt, glyph_scale)) as i64,
            y: view.row(glyph_ordinate(y, pt, glyph_scale)) as i64,
        },
        GlyphPathCmd::LineTo(pt) => if started {
            CanvasOp::LineTo {
                x: view.column(glyph_abscissa(cursor_x, pt, glyph_scale)) as i64,
                y: view.row(glyph_ordinate(y, pt, glyph_scale)) as i64,
            }
        } else {
            CanvasOp::MoveTo {
                x: view.column(glyph_abscissa(cursor_x, pt, glyph_scale)) as i64,
                y: view.row(glyph_ordinate(y, pt, glyph_scale)) as i64,
            }
        },
        GlyphPathCmd::Close => CanvasOp::ClosePath,
    }
}

/// The canvas operations for the commands of one path, one for each.
pub open spec fn path_ops(
    view: Viewport,
    cmds: Seq<GlyphPathCmd>,
    cursor_x: i64,
    y: i32,
    glyph_scale: i64,
) -> Seq<CanvasOp> {
    Seq::new(
        cmds.len(),
        |i: int| pen_op(view, cmds[i], pen_down(cmds.take(i)), cursor_x, y, glyph_scale),
    )
}

/// The canvas operations for the strokes of one glyph: each path is begun,
/// traced and stroked, in order.
pub open spec fn glyph_ops(
    view: Viewport,
    paths: Seq<GlyphPath>,
    cursor_x: i64,
    y: i32,
    glyph_scale: i64,
) -> Seq<CanvasOp>
    decreases paths.len(),
{
    if paths.len() == 0 {
        Seq::<CanvasOp>::empty()
    } else {
        glyph_ops(view, paths.drop_last(), cursor_x, y, glyph_scale) + seq![CanvasOp::BeginPath]
            + path_ops(view, paths.last().cmds@, cursor_x, y, glyph_scale) + seq![CanvasOp::Stroke]
    }
}

/// The canvas operations for one character at `cursor_x`: the strokes of
/// its glyph, and nothing where the font has no glyph for it.
pub open spec fn char_ops(
    view: Viewport,
    font: Font,
    ch: char,
    cursor_x: i64,
    y: i32,
    glyph_scale: i64,
) -> Seq<CanvasOp> {
    match font.glyph_of(ch) {
        Some(glyph) => glyph_ops(view, glyph.paths@, cursor_x, y, glyph_scale),
        None => Seq::<CanvasOp>::empty(),
    }
}

/// How far the cursor moves past one character: the glyph's own advance
/// times the glyph scale, or the fallback advance times the glyph scale
/// where the font has no glyph for it.
pub open spec fn char_step(font: Font, ch: char, glyph_scale: i64) -> int {
    match font.glyph_of(ch) {
        Some(glyph) => clamp_i64(scaled(glyph.advance as int, glyph_scale as int)),
        None => clamp_i64(scaled(FALLBACK_ADVANCE as int, glyph_scale as int)),
    }
}

/// Where the cursor stands after the characters `text`, having started at
/// `x`.
pub open spec fn cursor_after(font: Font, text: Seq<char>, x: i64, glyph_scale: i64) -> i64
    decreases text.len(),
{
    if text.len() == 0 {
        x
    } else {
        clamp_i64(
            cursor_after(font, text.drop_last(), x, glyph_scale) + char_step(
                font,
                text.last(),
                glyph_scale,
            ),
        ) as i64
    }
}

/// The canvas operations for the characters `text`, each drawn where the
/// cursor stands after the ones before it.
pub open spec fn run_ops(
    view: Viewport,
    font: Font,
    text: Seq<char>,
    x: i64,
    y: i32,
    glyph_scale: i64,
) -> Seq<CanvasOp>
    decreases text.len(),
{
    if text.len() == 0 {
        Seq::<CanvasOp>::empty()
    } else {
        run_ops(view, font, text.drop_last(), x, y, glyph_scale) + char_ops(
            view,
            font,
            text.last(),
            cursor_after(font, text.drop_last(), x, glyph_scale),
            y,
            glyph_scale,
        )
    }
}

/// What drawing a run of text puts on the canvas: nothing at all where no
/// font resolves for the style; else the default glow, the stroke settings,
/// the strokes of the characters, and the clearing of the glow.
pub open spec fn text_ops(
    view: Viewport,
    fonts: FontRegistry,
    style: FontStyleId,
    text: Seq<char>,
    x: i32,
    y: i32,
    size_px: u32,
    color: Rgba,
) -> Seq<CanvasOp> {
    match fonts.resolved(style) {
        None => Seq::<CanvasOp>::empty(),
        Some(font) => glow_ops(color, DEFAULT_GLOW) + seq![
            CanvasOp::SetStrokeStyle(css_of(color)),
            CanvasOp::SetLineWidth(TEXT_LINE_WIDTH),
            CanvasOp::SetLineCapRound,
            CanvasOp::SetLineJoinRound,
        ] + run_ops(view, font, text, x as i64, y, view.glyph_scale(size_px) as i64) + seq![
            CanvasOp::SetShadowBlur(0),
        ],
    }
}

/// Traces one path of a glyph: a canvas operation for each of its commands.
pub fn trace_glyph_path(
    ctx: &mut Vec<CanvasOp>,
    path: &GlyphPath,
    cursor_x: i64,
    y: i32,
    glyph_scale: i64,
    view: &Viewport,
)
    ensures
        final(ctx)@ == old(ctx)@ + path_ops(*view, path.cmds@, cursor_x, y, glyph_scale),
{
    let ghost want = path_ops(*view, path.cmds@, cursor_x, y, glyph_scale);
    let n = path.cmds.len();
    let mut path_started = false;
    let mut i: usize = 0;
    while i < n
        invariant
            i <= n,
            n == path.cmds@.len(),
            want == path_ops(*view, path.cmds@, cursor_x, y, glyph_scale),
            path_started == pen_down(path.cmds@.take(i as int)),
            ctx@.len() == old(ctx)@.len() + i,
            forall|j: int| 0 <= j < old(ctx)@.len() ==> ctx@[j] == old(ctx)@[j],
            forall|j: int| 0 <= j < i ==> ctx@[old(ctx)@.len() + j] == want[j],
        decreases n - i,
    {
        proof {
            let upto = path.cmds@.take(i + 1);
            assert(upto.drop_last() =~= path.cmds@.take(i as int));
            assert(upto.last() == path.cmds@[i as int]);
        }
        match path.cmds[i] {
            GlyphPathCmd::MoveTo(pt) => {
                let px = view.to_px_x(add_clamped(cursor_x, scale(pt.x as i64, glyph_scale)));
                let py = view.to_px_y(add_clamped(y as i64, scale(pt.y as i64, glyph_scale)));
                ctx.push(CanvasOp::MoveTo { x: px, y: py });
                path_started = true;
            },
            GlyphPathCmd::LineTo(pt) => {
                let px = view.to_px_x(add_clamped(cursor_x, scale(pt.x as i64, glyph_scale)));
                let py = view.to_px_y(add_clamped(y as i64, scale(pt.y as i64, glyph_scale)));
                if !path_started {
                    ctx.push(CanvasOp::MoveTo { x: px, y: py });
                    path_started = true;
                } else {
                    ctx.push(CanvasOp::LineTo { x: px, y: py });
                }
            },
            GlyphPathCmd::Close => {
                ctx.push(CanvasOp::ClosePath);
            },
        }
        i = i + 1;
    }
    proof {
        assert(ctx@ =~= old(ctx)@ + want);
    }
}

/// Strokes the paths of one glyph at `cursor_x`.
pub fn stroke_glyph(
    ctx: &mut Vec<CanvasOp>,
    paths: &Vec<GlyphPath>,
    cursor_x: i64,
    y: i32,
    glyph_scale: i64,
    view: &Viewport,
)
    ensures
        final(ctx)@ == old(ctx)@ + glyph_ops(*view, paths@, cursor_x, y, glyph_scale),
{
    let n = paths.len();
    let mut i: usize = 0;
    proof {
        assert(ctx@ =~= old(ctx)@ + glyph_ops(*view, paths@.take(0), cursor_x, y, glyph_scale));
    }
    while i < n
        invariant
            i <= n,
            n == paths@.len(),
            ctx@ == old(ctx)@ + glyph_ops(*view, paths@.take(i as int), cursor_x, y, glyph_scale),
        decreases n - i,
    {
        let ghost before = ctx@;
        ctx.push(CanvasOp::BeginPath);
        trace_glyph_path(ctx, &paths[i], cursor_x, y, glyph_scale, view);
        ctx.push(CanvasOp::Stroke);
        proof {
            let upto = paths@.take(i + 1);
            assert(upto.drop_last() =~= paths@.take(i as int));
            assert(upto.last() == paths@[i as int]);
            assert(ctx@ =~= old(ctx)@ + glyph_ops(*view, upto, cursor_x, y, glyph_scale));
        }
        i = i + 1;
    }
    proof {
        assert(paths@.take(n as int) =~= paths@);
    }
}

/// Draws a run of text with the font that resolves for `style`, with the
/// default glow, and clears the glow after it. Where no font resolves nothing
/// is drawn. A character without a glyph draws nothing and still moves the
/// cursor, by the fallback advance.
pub fn render_vector_text_with_glow(
    ctx: &mut Vec<CanvasOp>,
    fonts: &FontRegistry,
    style: FontStyleId,
    text: &str,
    x: i32,
    y: i32,
    size_px: u32,
    color: &Rgba,
    view: &Viewport,
)
    ensures
        final(ctx)@ == old(ctx)@ + text_ops(*view, *fonts, style, text@, x, y, size_px, *color),
{
    let font = match fonts.get(style) {
        Some(font) => font,
        None => {
            proof {
                assert(ctx@ =~= old(ctx)@ + Seq::<CanvasOp>::empty());
            }
            return ;
        },
    };

    apply_glow(ctx, color, DEFAULT_GLOW);

    ctx.push(CanvasOp::SetStrokeStyle(rgba_to_css(color)));
    ctx.push(CanvasOp::SetLineWidth(TEXT_LINE_WIDTH));
    ctx.push(CanvasOp::SetLineCapRound);
    ctx.push(CanvasOp::SetLineJoinRound);

    let mut cursor_x: i64 = x as i64;
    let glyph_scale = view.glyph_scale_for(size_px);
    let ghost head = ctx@;
    proof {
        assert(ctx@ =~= head + run_ops(*view, *font, text@.take(0), x as i64, y, glyph_scale));
    }
    for ch in it: text.chars()
        invariant
            it.seq() == text@,
            cursor_x == cursor_after(*font, text@.take(it.index() as int), x as i64, glyph_scale),
            ctx@ == head + run_ops(
                *view,
                *font,
                text@.take(it.index() as int),
                x as i64,
                y,
                glyph_scale,
            ),
    {
        let ghost i = it.index() as int;
        proof {
            let upto = text@.take(i + 1);
            assert(upto.drop_last() =~= text@.take(i));
            assert(upto.last() == ch);
        }
        match font.glyph(ch) {
            None => {
                cursor_x = add_clamped(cursor_x, scale(FALLBACK_ADVANCE as i64, glyph_scale));
                proof {
                    assert(ctx@ =~= head + run_ops(
                        *view,
                        *font,
                        text@.take(i + 1),
                        x as i64,
                        y,
                        glyph_scale,
                    ));
                }
            },
            Some(glyph) => {
                stroke_glyph(ctx, &glyph.paths, cursor_x, y, glyph_scale, view);
                proof {
                    assert(ctx@ =~= head + run_ops(
                        *view,
                        *font,
                        text@.take(i + 1),
                        x as i64,
                        y,
                        glyph_scale,
                    ));
                }
                cursor_x = add_clamped(cursor_x, scale(glyph.advance as i64, glyph_scale));
            },
        }
    }

    clear_glow(ctx);
    proof {
        assert(text@.take(text@.len() as int) =~= text@);
        assert(ctx@ =~= old(ctx)@ + text_ops(*view, *fonts, style, text@, x, y, size_px, *color));
    }
}

/// What one drawing command puts on the canvas. A clear switches the glow
/// off before it fills; a polyline of fewer than two points draws nothing;
/// the transform and layer markers draw nothing.
pub open spec fn cmd_ops(view: Viewport, fonts: FontRegistry, cmd: DrawCmd) -> Seq<CanvasOp> {
    match cmd {
        DrawCmd::Clear { color } => seq![
            CanvasOp::SetShadowBlur(0),
            CanvasOp::SetFillStyle(css_of(color)),
            CanvasOp::FillRect { width: view.width, height: view.height },
        ],
        DrawCmd::Line(line) => line_ops(
            view.column(line.a.x as int) as i64,
            view.row(line.a.y as int) as i64,
            view.column(line.b.x as int) as i64,
            view.row(line.b.y as int) as i64,
            line.stroke,
        ),
        DrawCmd::Polyline { pts, closed, stroke } => if pts@.len() < 2 {
            Seq::<CanvasOp>::empty()
        } else {
            polyline_ops(view, pts@, closed, stroke)
        },
        DrawCmd::Text { pos, text, size_px, color, style } => text_ops(
            view,
            fonts,
            style,
            text@,
            pos.x,
            pos.y,
            size_px,
            color,
        ),
        DrawCmd::PushTransform => Seq::<CanvasOp>::empty(),
        DrawCmd::PopTransform => Seq::<CanvasOp>::empty(),
        DrawCmd::BeginLayer => Seq::<CanvasOp>::empty(),
        DrawCmd::EndLayer => Seq::<CanvasOp>::empty(),
    }
}

/// What the commands of a scene put on the canvas, in the order of the
/// scene.
pub open spec fn scene_ops(view: Viewport, fonts: FontRegistry, cmds: Seq<DrawCmd>) -> Seq<CanvasOp>
    decreases cmds.len(),
{
    if cmds.len() == 0 {
        Seq::<CanvasOp>::empty()
    } else {
        scene_ops(view, fonts, cmds.drop_last()) + cmd_ops(view, fonts, cmds.last())
    }
}

/// What rendering a whole frame puts on the canvas: the scene, and a last
/// clearing of the glow.
pub open spec fn frame_ops(view: Viewport, fonts: FontRegistry, cmds: Seq<DrawCmd>) -> Seq<CanvasOp> {
    scene_ops(view, fonts, cmds).push(CanvasOp::SetShadowBlur(0))
}

/// Draws one command of a scene.
pub fn render_cmd(ctx: &mut Vec<CanvasOp>, cmd: &DrawCmd, view: &Viewport, fonts: &FontRegistry)
    ensures
        final(ctx)@ == old(ctx)@ + cmd_ops(*view, *fonts, *cmd),
{
    match cmd {
        DrawCmd::Clear { color } => {
            clear_glow(ctx);
            ctx.push(CanvasOp::SetFillStyle(rgba_to_css(color)));
            ctx.push(CanvasOp::FillRect { width: view.width, height: view.height });
            proof {
                assert(ctx@ =~= old(ctx)@ + cmd_ops(*view, *fonts, *cmd));
            }
        },
        DrawCmd::Line(line) => {
            let (x1, y1) = view.to_px(line.a);
            let (x2, y2) = view.to_px(line.b);
            draw_line_with_glow(ctx, x1, y1, x2, y2, &line.stroke);
        },
        DrawCmd::Polyline { pts, closed, stroke } => {
            if pts.len() < 2 {
                proof {
                    assert(ctx@ =~= old(ctx)@ + cmd_ops(*view, *fonts, *cmd));
                }
            } else {
                draw_polyline_with_glow(ctx, pts, *closed, stroke, view);
            }
        },
        DrawCmd::Text { pos, text, size_px, color, style } => {
            render_vector_text_with_glow(
                ctx,
                fonts,
                *style,
                text.as_str(),
                pos.x,
                pos.y,
                *size_px,
                color,
                view,
            );
        },
        DrawCmd::PushTransform | DrawCmd::PopTransform => {
            proof {
                assert(ctx@ =~= old(ctx)@ + cmd_ops(*view, *fonts, *cmd));
            }
        },
        DrawCmd::BeginLayer | DrawCmd::EndLayer => {
            proof {
                assert(ctx@ =~= old(ctx)@ + cmd_ops(*view, *fonts, *cmd));
            }
        },
    }
}

/// Renders a scene onto a surface of `width` by `height` pixels: every
/// command in order, each stroke with its glow, and the glow cleared at the
/// end.
pub fn render_to_canvas(
    ctx: &mut Vec<CanvasOp>,
    cmds: &[DrawCmd],
    width: u32,
    height: u32,
    fonts: &FontRegistry,
)
    ensures
        final(ctx)@ == old(ctx)@ + frame_ops(Viewport { width, height }, *fonts, cmds@),
        shadow_blur_after(final(ctx)@, 0) == 0,
{
    let view = Viewport::new(width, height);
    let n = cmds.len();
    let mut i: usize = 0;
    proof {
        assert(ctx@ =~= old(ctx)@ + scene_ops(view, *fonts, cmds@.take(0)));
    }
    while i < n
        invariant
            i <= n,
            n == cmds@.len(),
            view == (Viewport { width, height }),
            ctx@ == old(ctx)@ + scene_ops(view, *fonts, cmds@.take(i as int)),
        decreases n - i,
    {
        render_cmd(ctx, &cmds[i], &view, fonts);
        proof {
            let upto = cmds@.take(i + 1);
            assert(upto.drop_last() =~= cmds@.take(i as int));
            assert(upto.last() == cmds@[i as int]);
            assert(ctx@ =~= old(ctx)@ + scene_ops(view, *fonts, upto));
        }
        i = i + 1;
    }
    proof {
        assert(cmds@.take(n as int) =~= cmds@);
    }
    clear_glow(ctx);
    proof {
        assert(ctx@ =~= old(ctx)@ + frame_ops(view, *fonts, cmds@));
    }
}

/// A character that the font has no glyph for puts nothing on the canvas
/// and moves the cursor by the fallback advance times the glyph scale: the
/// text after it is laid out as if it had been a blank of that width.
pub proof fn lemma_missing_glyph_is_skipped(
    view: Viewport,
    font: Font,
    text: Seq<char>,
    ch: char,
    x: i64,
    y: i32,
    glyph_scale: i64,
)
    requires
        !font.maps(ch),
    ensures
        char_ops(view, font, ch, cursor_after(font, text, x, glyph_scale), y, glyph_scale).len() == 0,
        run_ops(view, font, text.push(ch), x, y, glyph_scale) == run_ops(
            view,
            font,
            text,
            x,
            y,
            glyph_scale,
        ),
        cursor_after(font, text.push(ch), x, glyph_scale) == clamp_i64(
            cursor_after(font, text, x, glyph_scale) + clamp_i64(
                scaled(FALLBACK_ADVANCE as int, glyph_scale as int),
            ),
        ),
{
    let longer = text.push(ch);
    assert(longer.drop_last() =~= text);
    assert(longer.last() == ch);
    assert(run_ops(view, font, longer, x, y, glyph_scale) =~= run_ops(
        view,
        font,
        text,
        x,
        y,
        glyph_scale,
    ));
}

/// Operations that end by setting the blur leave the canvas with that blur,
/// whatever came before.
pub proof fn lemma_blur_after_append(head: Seq<CanvasOp>, tail: Seq<CanvasOp>, before: u64)
    ensures
        shadow_blur_after(head + tail, before) == shadow_blur_after(
            tail,
            shadow_blur_after(head, before),
        ),
    decreases tail.len(),
{
    if tail.len() == 0 {
        assert(head + tail =~= head);
    } else {
        let all = head + tail;
        assert(all.last() == tail.last());
        assert(all.drop_last() =~= head + tail.drop_last());
        lemma_blur_after_append(head, tail.drop_last(), before);
    }
}

/// No command leaves a glow behind: whatever blur the canvas held before a
/// command, it holds none after it, unless the command drew nothing and so
/// left the canvas as it was. A clear switches the glow off before it fills.
pub proof fn lemma_cmd_leaves_no_glow(view: Viewport, fonts: FontRegistry, cmd: DrawCmd, before: u64)
    ensures
        shadow_blur_after(cmd_ops(view, fonts, cmd), before) == (if cmd_ops(view, fonts, cmd).len()
            == 0 {
            before
        } else {
            0
        }),
        cmd is Clear ==> cmd_ops(view, fonts, cmd)[0] == CanvasOp::SetShadowBlur(0),
{
    let ops = cmd_ops(view, fonts, cmd);
    if ops.len() > 0 {
        match cmd {
            DrawCmd::Clear { color } => {
                assert(ops.drop_last().drop_last() =~= seq![CanvasOp::SetShadowBlur(0)]);
                assert(shadow_blur_after(ops.drop_last().drop_last(), before) == 0);
                assert(shadow_blur_after(ops.drop_last(), before) == 0);
            },
            _ => {
                assert(ops.last() == CanvasOp::SetShadowBlur(0));
            },
        }
    }
}

/// A canvas that holds no glow before a scene holds none after any number
/// of its commands: glow never leaks from one primitive into the next.
pub proof fn lemma_scene_leaves_no_glow(view: Viewport, fonts: FontRegistry, cmds: Seq<DrawCmd>)
    ensures
        shadow_blur_after(scene_ops(view, fonts, cmds), 0) == 0,
    decreases cmds.len(),
{
    if cmds.len() > 0 {
        lemma_scene_leaves_no_glow(view, fonts, cmds.drop_last());
        lemma_cmd_leaves_no_glow(view, fonts, cmds.last(), 0);
        lemma_blur_after_append(
            scene_ops(view, fonts, cmds.drop_last()),
            cmd_ops(view, fonts, cmds.last()),
            0,
        );
    }
}

/// After a whole frame the canvas holds no glow, whatever it held before
/// and whatever the scene was.
pub proof fn lemma_frame_leaves_no_glow(
    view: Viewport,
    fonts: FontRegistry,
    cmds: Seq<DrawCmd>,
    before: u64,
)
    ensures
        shadow_blur_after(frame_ops(view, fonts, cmds), before) == 0,
        frame_ops(view, fonts, cmds).last() == CanvasOp::SetShadowBlur(0),
{
}

/// For every coordinate that a point of a scene can hold the projection is
/// exact: the pixel position is the centre plus or minus the coordinate
/// times half the smaller side, and nothing is cut off at the range of the
/// pixel type.
pub proof fn lemma_projection_is_exact(view: Viewport, p: Point)
    ensures
        view.column(p.x as int) == view.center_x() + scaled(p.x as int, view.half_extent()),
        view.row(p.y as int) == view.center_y() - scaled(p.y as int, view.half_extent()),
{
    let h = view.half_extent();
    lemma_half_extent(view);
    lemma_scaled_bounds(p.x as int, h, 0x8000_0000, 2_147_483_647_500_000);
    lemma_scaled_bounds(p.y as int, h, 0x8000_0000, 2_147_483_647_500_000);
    assert(0x8000_0000 * 2_147_483_647_500_000int / 1_000_000 == 4_611_686_017_353_646_080int);
}

/// The projection puts the centre of the normalized square at the centre of
/// the viewport and its unit at half the smaller side, on both axes, with
/// rows growing downward: the square fits whole and keeps its aspect.
pub proof fn lemma_projection_is_centered(view: Viewport)
    ensures
        view.column(0) == view.center_x(),
        view.row(0) == view.center_y(),
        2 * view.center_x() == view.width * 1_000_000,
        2 * view.center_y() == view.height * 1_000_000,
        view.column(UNIT as int) == view.center_x() + view.half_extent(),
        view.column(-(UNIT as int)) == view.center_x() - view.half_extent(),
        view.row(UNIT as int) == view.center_y() - view.half_extent(),
        view.row(-(UNIT as int)) == view.center_y() + view.half_extent(),
        0 <= view.center_x() - view.half_extent(),
        0 <= view.center_y() - view.half_extent(),
        view.center_x() + view.half_extent() <= 2 * view.center_x(),
        view.center_y() + view.half_extent() <= 2 * view.center_y(),
{
    lemma_half_extent(view);
    lemma_scaled_by_one(view.half_extent());
}

} // verus!
