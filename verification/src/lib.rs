//! Core of a batched glyph renderer: converts positioned glyph runs and
//! atlas lookups into the exact data an instanced, indirect quad draw needs.
//!
//! The library is pure: it computes vertex records, indirect-draw arguments
//! and viewport state from plain values. Screen positions are kept as exact
//! rationals in normalized device coordinates; texture coordinates, colors
//! and depths are carried as opaque 32-bit patterns chosen by the caller.
//! Device work (buffer upload, descriptor binding, command recording) is the
//! caller's, done with the returned plan.

pub mod assemble;
pub mod geom;
pub mod ndc;
pub mod plan;
