//! A small static-site builder for fighting-game frame data: it turns
//! per-character JSON files into rendered HTML pages plus an index page,
//! and plans the mirroring of a static-asset tree into the output directory.

pub mod names;
pub mod paths;
pub mod entity;
pub mod error;
pub mod json;
pub mod loader;
pub mod render;
pub mod pipeline;
pub mod assets;
