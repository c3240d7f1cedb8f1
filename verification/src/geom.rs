//! The data the renderer works on: glyph runs, atlas rectangles and the
//! per-instance vertex record.
//!
//! Texture coordinates, colors and depths are not computed here, only copied
//! from the run and the atlas to each emitted vertex, so they are carried as
//! opaque 32-bit patterns (the caller's IEEE-754 bits). Screen rectangles are
//! integer pixel coordinates; only those are mapped, through [`crate::ndc`].

use vstd::prelude::*;
use crate::ndc::Ndc;

verus! {

/// A point in atlas texture space, as two opaque 32-bit patterns (the
/// atlas's normalized coordinates, already in `[0, 1]`).
#[derive(Clone, Copy, Debug, PartialEq, Eq, Structural)]
pub struct UvPoint {
    pub x: u32,
    pub y: u32,
}

/// A rectangle in atlas texture space; copied verbatim onto the vertex.
#[derive(Clone, Copy, Debug, PartialEq, Eq, Structural)]
pub struct UvRect {
    pub min: UvPoint,
    pub max: UvPoint,
}

/// A point in integer screen pixel space.
#[derive(Clone, Copy, Debug, PartialEq, Eq, Structural)]
pub struct ScreenPoint {
    pub x: i32,
    pub y: i32,
}

/// A glyph's box in screen pixel space. The atlas reports `min`
/// componentwise at or below `max`; a degenerate rectangle (`min == max`) is
/// a valid zero-area quad.
#[derive(Clone, Copy, Debug, PartialEq, Eq, Structural)]
pub struct ScreenRect {
    pub min: ScreenPoint,
    pub max: ScreenPoint,
}

/// An RGBA color as four opaque 32-bit patterns, shared by every glyph of a
/// run.
#[derive(Clone, Copy, Debug, PartialEq, Eq, Structural)]
pub struct Rgba {
    pub r: u32,
    pub g: u32,
    pub b: u32,
    pub a: u32,
}

/// The identity of the font a run was shaped with; the atlas keys its
/// entries by font and glyph.
#[derive(Clone, Copy, Debug, PartialEq, Eq, Structural)]
pub struct FontId {
    pub id: u32,
}

/// One positioned glyph of a run, as the opaque handle under which the
/// caller and the atlas know the placement.
#[derive(Clone, Copy, Debug, PartialEq, Eq, Structural)]
pub struct Glyph {
    pub id: u64,
}

/// A shaped glyph run: an ordered sequence of placements sharing one font,
/// one color and one depth. Immutable for the duration of one draw.
#[derive(Debug)]
pub struct GlyphRun {
    pub font: FontId,
    pub glyphs: Vec<Glyph>,
    pub color: Rgba,
    /// Depth value shared by the run, as an opaque 32-bit pattern.
    pub z: u32,
}

/// One quad-instance record: the screen box of a glyph in NDC, its atlas
/// box, and the run's color and depth. One record per visible glyph.
#[derive(Clone, Copy, Debug, PartialEq, Eq, Structural)]
pub struct Vertex {
    /// Top-left corner in NDC: mapped x, then mapped y.
    pub tl_x: Ndc,
    pub tl_y: Ndc,
    /// Bottom-right corner in NDC: mapped x, then mapped y.
    pub br_x: Ndc,
    pub br_y: Ndc,
    /// Top-left corner in atlas space, copied from the lookup.
    pub tex_tl: UvPoint,
    /// Bottom-right corner in atlas space, copied from the lookup.
    pub tex_br: UvPoint,
    /// The run's color, copied unchanged.
    pub color: Rgba,
    /// The run's depth, copied unchanged.
    pub z: u32,
}

} // verus!
