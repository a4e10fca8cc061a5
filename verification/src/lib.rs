//! Core of a plain-text editor that paints its buffer through a GPU backend.
//!
//! The library owns the logic that is worth stating precisely: the text
//! buffer and its splice operations, the cursor with its derived line and
//! column, the glyph table that models the per-character textures of the
//! font renderer, the shader build protocol with its resource accounting,
//! and the per-frame line layout. Everything that talks to the window
//! system, the font rasterizer or the GPU lives outside the library and
//! hands plain values in and out.

pub mod editor;
pub mod font;
pub mod shader;
pub mod ui;
