//! Colors in the `0x00BBGGRR` format and their premultiplied pixels.
use vstd::prelude::*;

verus! {

/// The blue byte of a color in the `0x00BBGGRR` format.
pub open spec fn blue(color: u32) -> int {
    (color as int / 0x1_0000) % 0x100
}

/// The green byte of a color in the `0x00BBGGRR` format.
pub open spec fn green(color: u32) -> int {
    (color as int / 0x100) % 0x100
}

/// The red byte of a color in the `0x00BBGGRR` format.
pub open spec fn red(color: u32) -> int {
    color as int % 0x100
}

/// A color byte scaled by an alpha, where an alpha of 255 leaves it as it is.
pub open spec fn scaled(channel: int, alpha: u8) -> int {
    channel * alpha / 255
}

/// The pixel of a color at an alpha, as a 32-bit bitmap holds it: the alpha in
/// the highest byte, and below it the scaled red, green and blue, with blue in
/// the lowest byte.
pub open spec fn pixel_of(color: u32, alpha: u8) -> int {
    alpha * 0x100_0000 + scaled(red(color), alpha) * 0x1_0000 + scaled(green(color), alpha) * 0x100
        + scaled(blue(color), alpha)
}

/// A color byte scaled by an alpha.
fn scale(channel: u32, alpha: u32) -> (r: u32)
    requires
        channel <= 255,
        alpha <= 255,
    ensures
        r == channel * alpha / 255,
        r <= alpha,
        r <= 255,
{
    assert(0 <= channel * alpha <= 255 * alpha) by (nonlinear_arith)
        requires
            0 <= channel <= 255,
            0 <= alpha <= 255,
    ;
    channel * alpha / 255
}

/// The pixel with which a color is drawn at an alpha. The highest byte of the
/// color has no bearing on it.
pub fn pack_pixel(color_bgr: u32, alpha: u8) -> (packed: u32)
    ensures
        packed == pixel_of(color_bgr, alpha),
{
    let cb: u32 = (color_bgr >> 16) & 0xFF;
    let cg: u32 = (color_bgr >> 8) & 0xFF;
    let cr: u32 = color_bgr & 0xFF;
    assert((color_bgr >> 16) & 0xFF == (color_bgr / 0x1_0000) % 0x100) by (bit_vector);
    assert((color_bgr >> 8) & 0xFF == (color_bgr / 0x100) % 0x100) by (bit_vector);
    assert(color_bgr & 0xFF == color_bgr % 0x100) by (bit_vector);
    let a: u32 = alpha as u32;
    let b: u32 = scale(cb, a);
    let g: u32 = scale(cg, a);
    let r: u32 = scale(cr, a);
    assert((a << 24) | (r << 16) | (g << 8) | b == a * 0x100_0000 + r * 0x1_0000 + g * 0x100 + b)
        by (bit_vector)
        requires
            a <= 255,
            b <= 255,
            g <= 255,
            r <= 255,
    ;
    (a << 24) | (r << 16) | (g << 8) | b
}

/// A color is made of its three bytes, below a highest byte that has no bearing:
/// blue above green above red.
pub proof fn law_color_is_its_bytes(color: u32)
    ensures
        0 <= blue(color) < 0x100,
        0 <= green(color) < 0x100,
        0 <= red(color) < 0x100,
        exists|high: int|
            0 <= high < 0x100 && color == #[trigger] (high * 0x100_0000) + blue(color) * 0x1_0000
                + green(color) * 0x100 + red(color),
{
    let high = color as int / 0x100_0000;
    let upper = color as int / 0x1_0000;
    let middle = color as int / 0x100;
    assert(middle / 0x100 == upper);
    assert(upper / 0x100 == high);
    assert(color == high * 0x100_0000 + blue(color) * 0x1_0000 + green(color) * 0x100 + red(color));
}

/// A scaled byte is the byte times the alpha, divided by 255 and rounded down: it
/// is the largest number that is not above the quotient.
pub proof fn law_scaling_rounds_down(channel: int, alpha: u8)
    ensures
        255 * scaled(channel, alpha) <= channel * alpha,
        channel * alpha < 255 * scaled(channel, alpha) + 255,
{
}

/// The bytes of the pixel of a color whose bytes are `blue`, `green` and `red`: the
/// alpha, and then red, green and blue, each times the alpha, divided by 255 and
/// rounded down.
pub proof fn law_pixel_of_bytes(
    color: u32,
    alpha: u8,
    high: int,
    blue_byte: int,
    green_byte: int,
    red_byte: int,
)
    requires
        0 <= blue_byte <= 255,
        0 <= green_byte <= 255,
        0 <= red_byte <= 255,
        color == high * 0x100_0000 + blue_byte * 0x1_0000 + green_byte * 0x100 + red_byte,
    ensures
        ({
            let pixel = pixel_of(color, alpha);
            let r = (pixel / 0x1_0000) % 0x100;
            let g = (pixel / 0x100) % 0x100;
            let b = pixel % 0x100;
            &&& 0 <= pixel <= u32::MAX
            &&& pixel / 0x100_0000 == alpha
            &&& 255 * r <= red_byte * alpha < 255 * r + 255
            &&& 255 * g <= green_byte * alpha < 255 * g + 255
            &&& 255 * b <= blue_byte * alpha < 255 * b + 255
        }),
{
    let upper = high * 0x100 + blue_byte;
    let middle = upper * 0x100 + green_byte;
    assert(color as int / 0x100 == middle);
    assert(color as int / 0x1_0000 == upper);
    assert(red(color) == red_byte);
    assert(green(color) == green_byte);
    assert(blue(color) == blue_byte);
    law_pixel_is_premultiplied(color, alpha);
    law_scaling_rounds_down(red_byte, alpha);
    law_scaling_rounds_down(green_byte, alpha);
    law_scaling_rounds_down(blue_byte, alpha);
}

/// A pixel is premultiplied: its highest byte is the alpha, and no color byte
/// is above it.
pub proof fn law_pixel_is_premultiplied(color: u32, alpha: u8)
    ensures
        0 <= pixel_of(color, alpha) <= u32::MAX,
        pixel_of(color, alpha) / 0x100_0000 == alpha,
        0 <= scaled(blue(color), alpha) <= alpha,
        0 <= scaled(green(color), alpha) <= alpha,
        0 <= scaled(red(color), alpha) <= alpha,
        (pixel_of(color, alpha) / 0x1_0000) % 0x100 == scaled(red(color), alpha),
        (pixel_of(color, alpha) / 0x100) % 0x100 == scaled(green(color), alpha),
        pixel_of(color, alpha) % 0x100 == scaled(blue(color), alpha),
{
    lemma_scaled_bounds(blue(color), alpha);
    lemma_scaled_bounds(green(color), alpha);
    lemma_scaled_bounds(red(color), alpha);
    lemma_bytes(
        alpha as int,
        scaled(red(color), alpha),
        scaled(green(color), alpha),
        scaled(blue(color), alpha),
    );
}

proof fn lemma_bytes(a: int, r: int, g: int, b: int)
    requires
        0 <= a <= 255,
        0 <= r <= 255,
        0 <= g <= 255,
        0 <= b <= 255,
    ensures
        ({
            let n = a * 0x100_0000 + r * 0x1_0000 + g * 0x100 + b;
            &&& 0 <= n <= u32::MAX
            &&& n / 0x100_0000 == a
            &&& (n / 0x1_0000) % 0x100 == r
            &&& (n / 0x100) % 0x100 == g
            &&& n % 0x100 == b
        }),
{
    let n = a * 0x100_0000 + r * 0x1_0000 + g * 0x100 + b;
    assert(n / 0x1_0000 == a * 0x100 + r);
    assert(n / 0x100 == a * 0x1_0000 + r * 0x100 + g);
}

proof fn lemma_scaled_bounds(channel: int, alpha: u8)
    requires
        0 <= channel <= 255,
    ensures
        0 <= scaled(channel, alpha) <= alpha,
{
    assert(0 <= channel * alpha <= 255 * alpha) by (nonlinear_arith)
        requires
            0 <= channel <= 255,
            0 <= alpha,
    ;
}

/// At full alpha red, green and blue are those of the color, and at alpha 0 the
/// pixel is clear.
pub proof fn law_alpha_extremes(color: u32)
    ensures
        pixel_of(color, 255) == 0xFF00_0000 + red(color) * 0x1_0000 + green(color) * 0x100 + blue(
            color,
        ),
        pixel_of(color, 0) == 0,
{
}

/// Raising the alpha lowers no byte of the pixel.
pub proof fn law_pixel_is_monotone_in_alpha(color: u32, low: u8, high: u8)
    requires
        low <= high,
    ensures
        scaled(blue(color), low) <= scaled(blue(color), high),
        scaled(green(color), low) <= scaled(green(color), high),
        scaled(red(color), low) <= scaled(red(color), high),
{
    lemma_scaled_monotone(blue(color), low, high);
    lemma_scaled_monotone(green(color), low, high);
    lemma_scaled_monotone(red(color), low, high);
}

proof fn lemma_scaled_monotone(channel: int, low: u8, high: u8)
    requires
        0 <= channel,
        low <= high,
    ensures
        scaled(channel, low) <= scaled(channel, high),
{
    assert(channel * low <= channel * high) by (nonlinear_arith)
        requires
            0 <= channel,
            low <= high,
    ;
}

} // verus!
