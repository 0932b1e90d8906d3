//! Color primitives that need no color science: packing, angles, hex notation.

pub mod color_utils;
pub mod math_utils;
pub mod string_utils;
