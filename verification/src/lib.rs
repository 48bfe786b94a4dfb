//! Core of a browser-hosted vector arcade: input edges, a fixed-step clock,
//! game selection, vector fonts and the glow-decorated canvas rendering plan.

pub mod clock;
pub mod font;
pub mod glow;
pub mod input;
pub mod render;
pub mod scene;
pub mod session;
pub mod units;
