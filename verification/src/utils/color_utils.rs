//! Packed ARGB colors: 32 bits, one byte each for alpha, red, green and blue,
//! from the most to the least significant byte.

use vstd::prelude::*;

verus! {

/// The packed color with the given channels, each in `0..=255`.
pub open spec fn packed(alpha: int, red: int, green: int, blue: int) -> int {
    alpha * 0x100_0000 + red * 0x1_0000 + green * 0x100 + blue
}

/// The alpha channel of a packed color.
pub open spec fn alpha_of(argb: int) -> int {
    argb / 0x100_0000 % 0x100
}

/// The red channel of a packed color.
pub open spec fn red_of(argb: int) -> int {
    argb / 0x1_0000 % 0x100
}

/// The green channel of a packed color.
pub open spec fn green_of(argb: int) -> int {
    argb / 0x100 % 0x100
}

/// The blue channel of a packed color.
pub open spec fn blue_of(argb: int) -> int {
    argb % 0x100
}

/// The color with the channels of `argb` and full alpha.
pub open spec fn opaque(argb: int) -> int {
    packed(255, red_of(argb), green_of(argb), blue_of(argb))
}

/// RGBA component
#[derive(Clone, Copy, Debug, PartialEq, Eq, Structural)]
pub struct Rgba {
    pub r: u8,
    pub g: u8,
    pub b: u8,
    pub a: u8,
}

/// Packing channels and reading them back gives the channels.
pub proof fn lemma_channels_of_packed(alpha: u8, red: u8, green: u8, blue: u8)
    ensures
        0 <= packed(alpha as int, red as int, green as int, blue as int) <= u32::MAX,
        alpha_of(packed(alpha as int, red as int, green as int, blue as int)) == alpha,
        red_of(packed(alpha as int, red as int, green as int, blue as int)) == red,
        green_of(packed(alpha as int, red as int, green as int, blue as int)) == green,
        blue_of(packed(alpha as int, red as int, green as int, blue as int)) == blue,
{
    let a: u32 = alpha as u32;
    let r: u32 = red as u32;
    let g: u32 = green as u32;
    let b: u32 = blue as u32;
    let x: u32 = (a * 0x100_0000 + r * 0x1_0000 + g * 0x100 + b) as u32;
    assert(x == packed(alpha as int, red as int, green as int, blue as int));
    assert(x / 0x100_0000 % 0x100 == a && x / 0x1_0000 % 0x100 == r && x / 0x100 % 0x100 == g && x
        % 0x100 == b) by (bit_vector)
        requires
            a < 0x100,
            r < 0x100,
            g < 0x100,
            b < 0x100,
            x == a * 0x100_0000 + r * 0x1_0000 + g * 0x100 + b,
    ;
}

/// A packed color is the packing of its own channels.
pub proof fn lemma_packed_of_channels(argb: u32)
    ensures
        0 <= alpha_of(argb as int) < 0x100,
        0 <= red_of(argb as int) < 0x100,
        0 <= green_of(argb as int) < 0x100,
        0 <= blue_of(argb as int) < 0x100,
        packed(
            alpha_of(argb as int),
            red_of(argb as int),
            green_of(argb as int),
            blue_of(argb as int),
        ) == argb,
{
    assert((argb / 0x100_0000 % 0x100) * 0x100_0000 + (argb / 0x1_0000 % 0x100) * 0x1_0000 + (argb
        / 0x100 % 0x100) * 0x100 + argb % 0x100 == argb) by (bit_vector);
}

/// Converts a color from RGB components to ARGB format.
pub fn argb_from_rgb(red: u8, green: u8, blue: u8) -> (argb: u32)
    ensures
        argb == packed(255, red as int, green as int, blue as int),
{
    let r: u32 = red as u32;
    let g: u32 = green as u32;
    let b: u32 = blue as u32;
    assert((255u32 << 24 | (r & 255) << 16 | (g & 255) << 8 | b & 255) == 255 * 0x100_0000 + r
        * 0x1_0000 + g * 0x100 + b) by (bit_vector)
        requires
            r < 0x100,
            g < 0x100,
            b < 0x100,
    ;
    255u32 << 24 | (r & 255) << 16 | (g & 255) << 8 | b & 255
}

/// Returns the alpha component of a color in ARGB format.
pub fn alpha_from_argb(argb: u32) -> (alpha: u8)
    ensures
        alpha == alpha_of(argb as int),
{
    assert((argb >> 24 & 255) == argb / 0x100_0000 % 0x100) by (bit_vector);
    (argb >> 24 & 255) as u8
}

/// Returns the red component of a color in ARGB format.
pub fn red_from_argb(argb: u32) -> (red: u8)
    ensures
        red == red_of(argb as int),
{
    assert((argb >> 16 & 255) == argb / 0x1_0000 % 0x100) by (bit_vector);
    (argb >> 16 & 255) as u8
}

/// Returns the green component of a color in ARGB format.
pub fn green_from_argb(argb: u32) -> (green: u8)
    ensures
        green == green_of(argb as int),
{
    assert((argb >> 8 & 255) == argb / 0x100 % 0x100) by (bit_vector);
    (argb >> 8 & 255) as u8
}

/// Returns the blue component of a color in ARGB format.
pub fn blue_from_argb(argb: u32) -> (blue: u8)
    ensures
        blue == blue_of(argb as int),
{
    assert((argb & 255) == argb % 0x100) by (bit_vector);
    (argb & 255) as u8
}

/// Returns whether a color in ARGB format is opaque.
pub fn is_opaque(argb: u32) -> (yes: bool)
    ensures
        yes <==> alpha_of(argb as int) == 255,
{
    alpha_from_argb(argb) >= 255
}

/// Return RGBA from a given int32 color
///
/// - `argb`: ARGB representation of a int32 color.
/// - Returns: RGBA representation of a int32 color.
pub fn rgba_from_argb(argb: u32) -> (rgba: Rgba)
    ensures
        rgba.r == red_of(argb as int),
        rgba.g == green_of(argb as int),
        rgba.b == blue_of(argb as int),
        rgba.a == alpha_of(argb as int),
{
    let r = red_from_argb(argb);
    let g = green_from_argb(argb);
    let b = blue_from_argb(argb);
    let a = alpha_from_argb(argb);
    Rgba { r, g, b, a }
}

/// Return int32 color from a given RGBA component
///
/// - `rgba`: RGBA representation of a int32 color.
/// - Returns: ARGB representation of a int32 color.
pub fn argb_from_rgba(rgba: &Rgba) -> (argb: u32)
    ensures
        argb == packed(rgba.a as int, rgba.r as int, rgba.g as int, rgba.b as int),
{
    let a: u32 = rgba.a as u32;
    let r: u32 = rgba.r as u32;
    let g: u32 = rgba.g as u32;
    let b: u32 = rgba.b as u32;
    assert((a << 24 | r << 16 | g << 8 | b) == a * 0x100_0000 + r * 0x1_0000 + g * 0x100 + b)
        by (bit_vector)
        requires
            a < 0x100,
            r < 0x100,
            g < 0x100,
            b < 0x100,
    ;
    a << 24 | r << 16 | g << 8 | b
}

} // verus!
