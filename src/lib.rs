//! Verified core of a glyph renderer: the clip-and-remap quad builder, a model
//! of the single-channel glyph atlas, and the per-frame draw state.
pub mod atlas;
pub mod draw;
pub mod pipeline;
pub mod quad;
