//! Tonal palettes and the core palette built from them.
//!
//! A palette does not compute colors itself: it asks a renderer, a function
//! from a tone to a packed color that its maker supplies, and remembers what
//! it was told.

pub mod core_palette;
pub mod tonal_palette;

pub use core_palette::{
    core_palette_rules, ChromaRule, CorePalette, CorePaletteColors, CoreRules, HueRule, PaletteRule,
};
pub use tonal_palette::{create_key_color, KeyColor, Probe, TonalPalette};
