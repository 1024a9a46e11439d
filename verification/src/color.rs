//! Fixed-point RGB color values with saturating arithmetic, hex conversion,
//! and the blend-mode operators used by the fragment shading stage.

use vstd::prelude::*;

verus! {

/// An RGB color with three independent 8-bit channels. Pure value semantics:
/// all arithmetic saturates into `[0, 255]`, no channel ever wraps.
#[derive(Clone, Copy, Debug, PartialEq, Eq, Structural)]
pub struct Color {
    r: u8,
    g: u8,
    b: u8,
}

/// Saturating channel addition: caps at 255, never wraps.
pub open spec fn sat_add(a: u8, b: u8) -> u8 {
    if a + b > 255 {
        255u8
    } else {
        (a + b) as u8
    }
}

/// Flooring channel subtraction: floors at 0, never wraps.
pub open spec fn sat_sub(a: u8, b: u8) -> u8 {
    if a >= b {
        (a - b) as u8
    } else {
        0u8
    }
}

/// Multiply blend on one channel: the product scaled back into `[0, 255]`.
pub open spec fn mul_channel(a: u8, b: u8) -> u8 {
    ((a * b) / 255) as u8
}

/// Screen blend on one channel: inverted multiply of the inverted inputs.
pub open spec fn screen_channel(a: u8, b: u8) -> u8 {
    (255 - ((255 - a) * (255 - b)) / 255) as u8
}

/// The 24-bit `0xRRGGBB` encoding of a color.
pub open spec fn spec_to_hex(r: u8, g: u8, b: u8) -> u32 {
    (r * 0x10000 + g * 0x100 + b) as u32
}

/// The red channel of a 24-bit hex value (upper bits beyond 24 are ignored).
pub open spec fn hex_r(hex: u32) -> u8 {
    (((hex / 0x10000) % 0x100) as u8)
}

/// The green channel of a 24-bit hex value.
pub open spec fn hex_g(hex: u32) -> u8 {
    (((hex / 0x100) % 0x100) as u8)
}

/// The blue channel of a 24-bit hex value.
pub open spec fn hex_b(hex: u32) -> u8 {
    ((hex % 0x100) as u8)
}

/// The product of two channel values fits in sixteen bits, and its scaled
/// quotient is again a channel value.
proof fn lemma_mul_channel_fits(a: int, b: int)
    requires
        0 <= a <= 255,
        0 <= b <= 255,
    ensures
        0 <= a * b <= 65025,
        0 <= (a * b) / 255 <= 255,
{
    assert(0 <= a * b <= 65025) by (nonlinear_arith)
        requires
            0 <= a <= 255,
            0 <= b <= 255,
    ;
}

/// Computes `mul_channel` in sixteen-bit arithmetic, free of overflow.
fn mul_channel_exec(a: u8, b: u8) -> (v: u8)
    ensures
        v == mul_channel(a, b),
{
    proof {
        lemma_mul_channel_fits(a as int, b as int);
    }
    ((a as u16) * (b as u16) / 255) as u8
}

impl Color {
    /// The red channel, for use in contracts.
    pub closed spec fn spec_r(self) -> u8 {
        self.r
    }

    /// The green channel, for use in contracts.
    pub closed spec fn spec_g(self) -> u8 {
        self.g
    }

    /// The blue channel, for use in contracts.
    pub closed spec fn spec_b(self) -> u8 {
        self.b
    }

    /// A color is black when all three channels are zero. Black is the
    /// blend-skip sentinel of the normal blend mode.
    pub open spec fn spec_is_black(self) -> bool {
        self.spec_r() == 0 && self.spec_g() == 0 && self.spec_b() == 0
    }

    pub fn new(r: u8, g: u8, b: u8) -> (c: Color)
        ensures
            c.spec_r() == r,
            c.spec_g() == g,
            c.spec_b() == b,
    {
        Color { r, g, b }
    }

    /// The default color: all channels zero.
    pub fn black() -> (c: Color)
        ensures
            c.spec_r() == 0,
            c.spec_g() == 0,
            c.spec_b() == 0,
    {
        Color { r: 0, g: 0, b: 0 }
    }

    /// The red channel.
    pub fn r(&self) -> (v: u8)
        ensures
            v == self.spec_r(),
    {
        self.r
    }

    /// The green channel.
    pub fn g(&self) -> (v: u8)
        ensures
            v == self.spec_g(),
    {
        self.g
    }

    /// The blue channel.
    pub fn b(&self) -> (v: u8)
        ensures
            v == self.spec_b(),
    {
        self.b
    }

    /// Builds a color from a `0xRRGGBB` hex value; bits above the low 24 are
    /// ignored.
    pub fn from_hex(hex: u32) -> (c: Color)
        ensures
            c.spec_r() == hex_r(hex),
            c.spec_g() == hex_g(hex),
            c.spec_b() == hex_b(hex),
    {
        let r = ((hex / 0x10000) % 0x100) as u8;
        let g = ((hex / 0x100) % 0x100) as u8;
        let b = (hex % 0x100) as u8;
        Color { r, g, b }
    }

    /// Returns the color as a `0xRRGGBB` hex value.
    pub fn to_hex(&self) -> (hex: u32)
        ensures
            hex == spec_to_hex(self.spec_r(), self.spec_g(), self.spec_b()),
            hex < 0x1000000,
    {
        let r = self.r as u32;
        let g = self.g as u32;
        let b = self.b as u32;
        r * 0x10000 + g * 0x100 + b
    }

    pub fn is_black(&self) -> (black: bool)
        ensures
            black == self.spec_is_black(),
    {
        self.r == 0 && self.g == 0 && self.b == 0
    }

    /// Normal blend: the blend color replaces the base, except that black is
    /// treated as "no override" and leaves the base color in place.
    pub fn blend_normal(&self, blend: &Color) -> (c: Color)
        ensures
            c == if blend.spec_is_black() {
                *self
            } else {
                *blend
            },
    {
        if blend.is_black() {
            *self
        } else {
            *blend
        }
    }

    /// Multiply blend: each channel is the scaled product of the inputs.
    pub fn blend_multiply(&self, blend: &Color) -> (c: Color)
        ensures
            c.spec_r() == mul_channel(self.spec_r(), blend.spec_r()),
            c.spec_g() == mul_channel(self.spec_g(), blend.spec_g()),
            c.spec_b() == mul_channel(self.spec_b(), blend.spec_b()),
    {
        Color::new(
            mul_channel_exec(self.r, blend.r),
            mul_channel_exec(self.g, blend.g),
            mul_channel_exec(self.b, blend.b),
        )
    }

    /// Additive blend: each channel saturates at 255, never wrapping.
    pub fn blend_add(&self, blend: &Color) -> (c: Color)
        ensures
            c.spec_r() == sat_add(self.spec_r(), blend.spec_r()),
            c.spec_g() == sat_add(self.spec_g(), blend.spec_g()),
            c.spec_b() == sat_add(self.spec_b(), blend.spec_b()),
    {
        let r = self.r as u16 + blend.r as u16;
        let g = self.g as u16 + blend.g as u16;
        let b = self.b as u16 + blend.b as u16;
        Color::new(
            (if r > 255 { 255u16 } else { r }) as u8,
            (if g > 255 { 255u16 } else { g }) as u8,
            (if b > 255 { 255u16 } else { b }) as u8,
        )
    }

    /// Subtractive blend: each channel floors at 0, never wrapping.
    pub fn blend_subtract(&self, blend: &Color) -> (c: Color)
        ensures
            c.spec_r() == sat_sub(self.spec_r(), blend.spec_r()),
            c.spec_g() == sat_sub(self.spec_g(), blend.spec_g()),
            c.spec_b() == sat_sub(self.spec_b(), blend.spec_b()),
    {
        let r = if self.r >= blend.r { self.r - blend.r } else { 0 };
        let g = if self.g >= blend.g { self.g - blend.g } else { 0 };
        let b = if self.b >= blend.b { self.b - blend.b } else { 0 };
        Color::new(r, g, b)
    }

    /// Screen blend: brightening blend, the complement of multiplying the
    /// complements.
    pub fn blend_screen(&self, blend: &Color) -> (c: Color)
        ensures
            c.spec_r() == screen_channel(self.spec_r(), blend.spec_r()),
            c.spec_g() == screen_channel(self.spec_g(), blend.spec_g()),
            c.spec_b() == screen_channel(self.spec_b(), blend.spec_b()),
    {
        proof {
            lemma_mul_channel_fits(255 - self.r, 255 - blend.r);
            lemma_mul_channel_fits(255 - self.g, 255 - blend.g);
            lemma_mul_channel_fits(255 - self.b, 255 - blend.b);
        }
        Color::new(
            255 - mul_channel_exec(255 - self.r, 255 - blend.r),
            255 - mul_channel_exec(255 - self.g, 255 - blend.g),
            255 - mul_channel_exec(255 - self.b, 255 - blend.b),
        )
    }
}

/// Law: decoding a color's hex encoding yields the color back, for every
/// color.
pub proof fn lemma_hex_round_trip(c: Color)
    ensures
        hex_r(spec_to_hex(c.spec_r(), c.spec_g(), c.spec_b())) == c.spec_r(),
        hex_g(spec_to_hex(c.spec_r(), c.spec_g(), c.spec_b())) == c.spec_g(),
        hex_b(spec_to_hex(c.spec_r(), c.spec_g(), c.spec_b())) == c.spec_b(),
{
    let r = c.spec_r() as int;
    let g = c.spec_g() as int;
    let b = c.spec_b() as int;
    let h = r * 0x10000 + g * 0x100 + b;
    assert(h / 0x10000 == r && (h / 0x100) % 0x100 == g && h % 0x100 == b) by (nonlinear_arith)
        requires
            0 <= r < 0x100,
            0 <= g < 0x100,
            0 <= b < 0x100,
            h == r * 0x10000 + g * 0x100 + b,
    ;
}

} // verus!
