//! Material color tooling: packed ARGB colors, hex notation, tonal palettes
//! and the color schemes read off them.

pub mod palettes;
pub mod scheme;
pub mod utils;
