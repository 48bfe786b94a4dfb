//! The scene model: what a game emits each frame, in the order in which it is
//! to be painted. Coordinates are fixed-point in the normalized square that
//! runs from -1 to 1 on both axes, with y pointing up.

use vstd::prelude::*;

verus! {

/// A point of the normalized square, in millionths.
#[derive(Clone, Copy, Debug, PartialEq, Eq, Structural)]
pub struct Point {
    pub x: i32,
    pub y: i32,
}

/// A colour. Each channel runs from 0 to 1 000 000 for full intensity.
#[derive(Clone, Copy, Debug, PartialEq, Eq, Structural)]
pub struct Rgba {
    pub r: u32,
    pub g: u32,
    pub b: u32,
    pub a: u32,
}

/// How a stroke is drawn: its colour, its width in millionths of a pixel and
/// its glow in millionths. A glow of 0 stands for "not set": such a stroke
/// is drawn with the default subtle glow, not without glow.
#[derive(Clone, Copy, Debug, PartialEq, Eq, Structural)]
pub struct Stroke {
    pub color: Rgba,
    pub width_px: u32,
    pub glow: u32,
}

/// A straight stroke from `a` to `b`.
#[derive(Clone, Copy, Debug, PartialEq, Eq, Structural)]
pub struct Line2 {
    pub a: Point,
    pub b: Point,
    pub stroke: Stroke,
}

/// Selects one registered vector font.
#[derive(Clone, Copy, Debug, PartialEq, Eq, Structural)]
pub struct FontStyleId(pub u32);

/// One drawing command.
#[derive(Debug)]
pub enum DrawCmd {
    /// Fill the whole surface.
    Clear { color: Rgba },
    Line(Line2),
    Polyline { pts: Vec<Point>, closed: bool, stroke: Stroke },
    /// A run of text whose first glyph starts at `pos`; `size_px` is in
    /// millionths of a pixel.
    Text { pos: Point, text: String, size_px: u32, color: Rgba, style: FontStyleId },
    PushTransform,
    PopTransform,
    BeginLayer,
    EndLayer,
}

/// The size of the host surface and its pixel density, recomputed by the host
/// before every frame. The density is in millionths.
#[derive(Clone, Copy, Debug, PartialEq, Eq, Structural)]
pub struct ScreenInfo {
    pub width_px: u32,
    pub height_px: u32,
    pub dpi_scale: u32,
}

} // verus!
