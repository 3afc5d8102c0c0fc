//! Per-frame state engine of an immediate-mode GUI toolkit: a frame
//! lifecycle that reconciles a transient widget snapshot against a
//! persistent tree, recomputes layout, and assembles draw output, plus a
//! glyph texture atlas that shelf-packs rasterized glyphs into a single
//! reusable texture and hands out stable rectangles for each glyph key.

pub mod dom;
pub mod draw;
pub mod fixed_size;
pub mod flexible;
pub mod geometry;
pub mod layout;
pub mod max_width;
pub mod paint;
pub mod state;
pub mod text_renderer;
