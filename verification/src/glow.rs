//! The canvas operations a backend replays, and the glow that simulates the
//! phosphor of a vector display: a blur radius and a tinted shadow colour
//! derived from a stroke's glow intensity.

use vstd::prelude::*;
use crate::scene::Rgba;
use crate::units::clamp_i64;
use crate::units::lemma_scaled_nonneg;
use crate::units::scale;
use crate::units::scaled;
use crate::units::UNIT;

verus! {

/// The global glow multiplier, in millionths: 0 turns the effect off, a
/// million is the full effect. Every backend uses this one value.
pub const GLOW_INTENSITY: u32 = 800_000;

/// The glow of a primitive that sets none: a stroke whose glow is 0, and
/// text, which carries no glow of its own.
pub const DEFAULT_GLOW: u32 = 500_000;

/// The blur radius at glow 0, in millionths of a pixel.
pub const BASE_BLUR: u32 = 8_000_000;

/// The blur radius added per unit of glow, in millionths of a pixel.
pub const BLUR_SPREAD: u32 = 12_000_000;

/// The share of a colour's alpha that its shadow gets per unit of glow.
pub const GLOW_ALPHA: u32 = 600_000;

/// A colour as a canvas takes it: three bytes and an alpha in millionths.
#[derive(Clone, Copy, Debug, PartialEq, Eq, Structural)]
pub struct CssColor {
    pub r: u8,
    pub g: u8,
    pub b: u8,
    pub alpha: u32,
}

/// One call on the drawing surface. Lengths and positions are in millionths
/// of a pixel, from the top left corner, y pointing down.
#[derive(Clone, Copy, Debug, PartialEq, Eq, Structural)]
pub enum CanvasOp {
    SetShadowBlur(u64),
    SetShadowColor(CssColor),
    SetFillStyle(CssColor),
    /// Fill the rectangle from the origin that is this many whole pixels wide
    /// and high.
    FillRect { width: u32, height: u32 },
    SetStrokeStyle(CssColor),
    SetLineWidth(u32),
    SetLineCapRound,
    SetLineJoinRound,
    BeginPath,
    MoveTo { x: i64, y: i64 },
    LineTo { x: i64, y: i64 },
    ClosePath,
    Stroke,
}

/// A colour channel as a byte: 255 times the channel, rounded down, and 255
/// for a channel above full intensity.
pub open spec fn channel_byte(c: u32) -> u8 {
    if c * 255 / (UNIT as int) > 255 {
        255u8
    } else {
        (c * 255 / (UNIT as int)) as u8
    }
}

/// The canvas colour of `c`, its alpha as it is.
pub open spec fn css_of(c: Rgba) -> CssColor {
    CssColor { r: channel_byte(c.r), g: channel_byte(c.g), b: channel_byte(c.b), alpha: c.a }
}

/// The alpha of `c` times `alpha_mult`, at most full opacity.
pub open spec fn scaled_alpha(alpha: u32, alpha_mult: u64) -> u32 {
    if clamp_i64(scaled(alpha as int, clamp_i64(alpha_mult as int))) > UNIT {
        UNIT as u32
    } else {
        clamp_i64(scaled(alpha as int, clamp_i64(alpha_mult as int))) as u32
    }
}

/// The canvas colour of `c` with its alpha multiplied by `alpha_mult` and
/// held to full opacity.
pub open spec fn css_glow_of(c: Rgba, alpha_mult: u64) -> CssColor {
    CssColor {
        r: channel_byte(c.r),
        g: channel_byte(c.g),
        b: channel_byte(c.b),
        alpha: scaled_alpha(c.a, alpha_mult),
    }
}

/// The glow a stroke is drawn with: its own where it sets one, else the
/// default.
pub open spec fn effective_glow(glow: u32) -> u32 {
    if glow > 0 {
        glow
    } else {
        DEFAULT_GLOW
    }
}

/// The blur radius for a glow: the base blur plus the spread per unit of
/// glow, times the global multiplier.
pub open spec fn blur_for(glow: u32) -> int {
    scaled(BASE_BLUR + scaled(glow as int, BLUR_SPREAD as int), GLOW_INTENSITY as int)
}

/// The factor on a colour's alpha for a glow: the alpha share per unit of
/// glow times the glow, times the global multiplier.
pub open spec fn glow_alpha_factor(glow: u32) -> int {
    scaled(scaled(GLOW_ALPHA as int, glow as int), GLOW_INTENSITY as int)
}

/// What switching the glow on for a primitive of colour `color` puts on the
/// canvas: a blur and a shadow colour, or a zero blur where there is no glow.
pub open spec fn glow_ops(color: Rgba, glow: u32) -> Seq<CanvasOp> {
    if glow > 0 && GLOW_INTENSITY > 0 {
        seq![
            CanvasOp::SetShadowBlur(blur_for(glow) as u64),
            CanvasOp::SetShadowColor(css_glow_of(color, glow_alpha_factor(glow) as u64)),
        ]
    } else {
        seq![CanvasOp::SetShadowBlur(0)]
    }
}

/// The blur radius that the canvas holds after `ops`, when it held `before`.
pub open spec fn shadow_blur_after(ops: Seq<CanvasOp>, before: u64) -> u64
    decreases ops.len(),
{
    if ops.len() == 0 {
        before
    } else {
        match ops.last() {
            CanvasOp::SetShadowBlur(blur) => blur,
            _ => shadow_blur_after(ops.drop_last(), before),
        }
    }
}

fn to_byte(c: u32) -> (byte: u8)
    ensures
        byte == channel_byte(c),
{
    let v: u64 = (c as u64) * 255 / (UNIT as u64);
    if v > 255 {
        255
    } else {
        v as u8
    }
}

/// The canvas colour of `c`.
pub fn rgba_to_css(c: &Rgba) -> (css: CssColor)
    ensures
        css == css_of(*c),
{
    CssColor { r: to_byte(c.r), g: to_byte(c.g), b: to_byte(c.b), alpha: c.a }
}

/// The canvas colour of `c` with its alpha multiplied by `alpha_mult`, a
/// fixed-point factor, and held to full opacity.
pub fn rgba_to_css_glow(c: &Rgba, alpha_mult: u64) -> (css: CssColor)
    ensures
        css == css_glow_of(*c, alpha_mult),
{
    let factor: i64 = if alpha_mult > i64::MAX as u64 {
        i64::MAX
    } else {
        alpha_mult as i64
    };
    let alpha: i64 = scale(c.a as i64, factor);
    proof {
        assert(0 <= (c.a as int) * (factor as int)) by (nonlinear_arith)
            requires
                0 <= c.a as int,
                0 <= factor as int,
        ;
    }
    let held: u32 = if alpha > UNIT {
        UNIT as u32
    } else {
        alpha as u32
    };
    CssColor { r: to_byte(c.r), g: to_byte(c.g), b: to_byte(c.b), alpha: held }
}

/// Switches the glow on for a primitive of colour `color`: with a glow above
/// 0 the canvas gets the blur radius and the tinted shadow colour for it,
/// otherwise a zero blur.
pub fn apply_glow(ctx: &mut Vec<CanvasOp>, color: &Rgba, glow: u32)
    ensures
        final(ctx)@ == old(ctx)@ + glow_ops(*color, glow),
{
    if glow > 0 && GLOW_INTENSITY > 0 {
        proof {
            lemma_scaled_nonneg(glow as int, BLUR_SPREAD as int, u32::MAX as int, 12_000_000);
            lemma_scaled_nonneg(
                BASE_BLUR + scaled(glow as int, BLUR_SPREAD as int),
                GLOW_INTENSITY as int,
                60_000_000_000,
                800_000,
            );
            lemma_scaled_nonneg(GLOW_ALPHA as int, glow as int, 600_000, u32::MAX as int);
            lemma_scaled_nonneg(
                scaled(GLOW_ALPHA as int, glow as int),
                GLOW_INTENSITY as int,
                3_000_000_000,
                800_000,
            );
        }
        let spread: u64 = (glow as u64) * (BLUR_SPREAD as u64) / (UNIT as u64);
        let blur: u64 = (BASE_BLUR as u64 + spread) * (GLOW_INTENSITY as u64) / (UNIT as u64);
        let share: u64 = (GLOW_ALPHA as u64) * (glow as u64) / (UNIT as u64);
        let factor: u64 = share * (GLOW_INTENSITY as u64) / (UNIT as u64);
        ctx.push(CanvasOp::SetShadowBlur(blur));
        ctx.push(CanvasOp::SetShadowColor(rgba_to_css_glow(color, factor)));
        proof {
            assert(blur == blur_for(glow));
            assert(factor == glow_alpha_factor(glow));
            assert(ctx@ =~= old(ctx)@ + glow_ops(*color, glow));
        }
    } else {
        ctx.push(CanvasOp::SetShadowBlur(0));
        proof {
            assert(ctx@ =~= old(ctx)@ + glow_ops(*color, glow));
        }
    }
}

/// Switches the glow off: the blur radius goes to zero.
pub fn clear_glow(ctx: &mut Vec<CanvasOp>)
    ensures
        final(ctx)@ == old(ctx)@.push(CanvasOp::SetShadowBlur(0)),
        shadow_blur_after(final(ctx)@, 0) == 0,
{
    ctx.push(CanvasOp::SetShadowBlur(0));
}

/// The intensity a glow of 0 is drawn with is the default, and any other is
/// its own: no stroke is drawn without glow.
pub fn stroke_glow(glow: u32) -> (g: u32)
    ensures
        g == effective_glow(glow),
        g > 0,
{
    if glow > 0 {
        glow
    } else {
        DEFAULT_GLOW
    }
}

} // verus!
