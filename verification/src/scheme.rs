//! Color schemes read off a core palette.

pub mod css;
pub mod scheme;

pub use scheme::Scheme;
