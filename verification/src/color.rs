//! Opaque 24-bit colours and the darken transform.

use vstd::prelude::*;

verus! {

/// An opaque RGB colour with three 8-bit channels.
#[derive(Clone, Copy, Debug, PartialEq, Eq, Structural)]
pub struct Color {
    pub r: u8,
    pub g: u8,
    pub b: u8,
}

/// A scaling factor `numer / denom`, held exactly as a fraction.
#[derive(Clone, Copy, Debug, PartialEq, Eq, Structural)]
pub struct Factor {
    pub numer: u32,
    pub denom: u32,
}

impl Factor {
    /// The fraction is defined and lies in `0..=1`.
    pub open spec fn wf(self) -> bool {
        0 < self.denom && self.numer <= self.denom
    }

    /// `self <= other` as fractions (both denominators positive).
    pub open spec fn le(self, other: Factor) -> bool {
        self.numer as int * other.denom as int <= other.numer as int * self.denom as int
    }

    /// The fraction equals one.
    pub open spec fn is_one(self) -> bool {
        0 < self.denom && self.numer == self.denom
    }

    /// One channel scaled by the fraction, rounded toward zero.
    pub open spec fn scale(self, channel: u8) -> int {
        (channel as int * self.numer as int) / (self.denom as int)
    }

    /// The fraction `numer / denom`, where it is defined and at most one.
    pub fn new(numer: u32, denom: u32) -> (f: Option<Factor>)
        ensures
            f.is_some() <==> 0 < denom && numer <= denom,
            f.is_some() ==> f.unwrap() == (Factor { numer, denom }) && f.unwrap().wf(),
    {
        if 0 < denom && numer <= denom {
            Some(Factor { numer, denom })
        } else {
            None
        }
    }

    /// Nine tenths: the factor that derives a hover shade from a base colour.
    pub open spec fn spec_hover() -> Factor {
        Factor { numer: 9, denom: 10 }
    }

    /// Nine tenths: the factor that derives a hover shade from a base colour.
    #[verifier::when_used_as_spec(spec_hover)]
    pub fn hover() -> (f: Factor)
        ensures
            f == Factor::spec_hover(),
            f.wf(),
    {
        Factor { numer: 9, denom: 10 }
    }

    /// Scales one channel, rounding toward zero.
    fn scale_channel(self, channel: u8) -> (out: u8)
        requires
            self.wf(),
        ensures
            out as int == self.scale(channel),
            out <= channel,
    {
        proof {
            lemma_scale_bounds(channel as int, self.numer as int, self.denom as int);
            assert(channel as int * self.numer as int <= 255 * 0xFFFF_FFFF) by (nonlinear_arith)
                requires
                    0 <= channel as int <= 255,
                    0 <= self.numer as int <= 0xFFFF_FFFF,
            ;
        }
        let wide: u64 = (channel as u64) * (self.numer as u64);
        let q: u64 = wide / (self.denom as u64);
        q as u8
    }
}

impl Color {
    /// The colour of a hex literal `0xRRGGBB`; bits above the low 24 are ignored.
    pub open spec fn spec_from_hex(hex: u32) -> Color {
        Color {
            r: ((hex / 0x1_0000) % 0x100) as u8,
            g: ((hex / 0x100) % 0x100) as u8,
            b: (hex % 0x100) as u8,
        }
    }

    /// The colour as `0xRRGGBB`.
    pub open spec fn spec_to_hex(self) -> u32 {
        (self.r as int * 0x1_0000 + self.g as int * 0x100 + self.b as int) as u32
    }

    /// Each channel scaled by `factor`, rounded toward zero.
    pub open spec fn darkened(self, factor: Factor) -> Color {
        Color {
            r: factor.scale(self.r) as u8,
            g: factor.scale(self.g) as u8,
            b: factor.scale(self.b) as u8,
        }
    }

    /// Channel-wise `<=`.
    pub open spec fn le(self, other: Color) -> bool {
        self.r <= other.r && self.g <= other.g && self.b <= other.b
    }

    /// The colour of a hex literal `0xRRGGBB`; bits above the low 24 are ignored.
    #[verifier::when_used_as_spec(spec_from_hex)]
    pub fn from_hex(hex: u32) -> (c: Color)
        ensures
            c == Color::spec_from_hex(hex),
    {
        Color {
            r: ((hex / 0x1_0000) % 0x100) as u8,
            g: ((hex / 0x100) % 0x100) as u8,
            b: (hex % 0x100) as u8,
        }
    }

    /// The colour as `0xRRGGBB`.
    #[verifier::when_used_as_spec(spec_to_hex)]
    pub fn to_hex(self) -> (hex: u32)
        ensures
            hex == self.spec_to_hex(),
            hex <= 0xFF_FFFF,
            Color::spec_from_hex(hex) == self,
    {
        proof {
            lemma_hex_round_trip(self, 0);
        }
        (self.r as u32) * 0x1_0000 + (self.g as u32) * 0x100 + (self.b as u32)
    }

    /// Packs three channel values the way a `0xRRGGBB` word is assembled by
    /// shifting. Values within `0..=255` become the channels themselves.
    pub fn from_components(r: u32, g: u32, b: u32) -> (c: Color)
        ensures
            c == Color::spec_from_hex((r << 16) | (g << 8) | b),
            r <= 255 && g <= 255 && b <= 255 ==> c == (Color {
                r: r as u8,
                g: g as u8,
                b: b as u8,
            }),
    {
        let word: u32 = (r << 16) | (g << 8) | b;
        proof {
            lemma_packed_channels(r, g, b);
        }
        Color::from_hex(word)
    }

    /// Multiplies each channel by `factor` and rounds toward zero.
    pub fn darken_color(color: Color, factor: Factor) -> (out: Color)
        requires
            factor.wf(),
        ensures
            out == color.darkened(factor),
            out.le(color),
            factor.is_one() ==> out == color,
            factor.numer == 0 ==> out == (Color { r: 0, g: 0, b: 0 }),
    {
        proof {
            if factor.is_one() {
                lemma_darken_identity(color, factor);
            }
            lemma_scale_bounds(color.r as int, factor.numer as int, factor.denom as int);
            lemma_scale_bounds(color.g as int, factor.numer as int, factor.denom as int);
            lemma_scale_bounds(color.b as int, factor.numer as int, factor.denom as int);
        }
        Color {
            r: factor.scale_channel(color.r),
            g: factor.scale_channel(color.g),
            b: factor.scale_channel(color.b),
        }
    }
}

/// Drops the alpha byte of a `0xAARRGGBB` word.
pub fn strip_alpha(argb: u32) -> (rgb: u32)
    ensures
        rgb == argb % 0x100_0000,
        rgb <= 0xFF_FFFF,
        Color::spec_from_hex(rgb) == Color::spec_from_hex(argb),
{
    proof {
        lemma_low_bits(argb);
    }
    argb & 0x00FF_FFFF
}

proof fn lemma_low_bits(x: u32)
    by (bit_vector)
    ensures
        x & 0x00FF_FFFF == x % 0x100_0000,
        x % 0x100_0000 <= 0xFF_FFFF,
        ((x % 0x100_0000) / 0x1_0000) % 0x100 == (x / 0x1_0000) % 0x100,
        ((x % 0x100_0000) / 0x100) % 0x100 == (x / 0x100) % 0x100,
        (x % 0x100_0000) % 0x100 == x % 0x100,
{
}

proof fn lemma_summed_channels(r: u32, g: u32, b: u32)
    by (bit_vector)
    requires
        r <= 255,
        g <= 255,
        b <= 255,
    ensures
        ({
            let w = (r * 0x1_0000 + g * 0x100 + b) as u32;
            &&& w <= 0xFF_FFFF
            &&& (w / 0x1_0000) % 0x100 == r
            &&& (w / 0x100) % 0x100 == g
            &&& w % 0x100 == b
        }),
{
}

proof fn lemma_split_word(x: u32)
    by (bit_vector)
    ensures
        ((x / 0x1_0000) % 0x100) * 0x1_0000 + ((x / 0x100) % 0x100) * 0x100 + x % 0x100 == x
            % 0x100_0000,
{
}

proof fn lemma_packed_channels(r: u32, g: u32, b: u32)
    by (bit_vector)
    ensures
        r <= 255 && g <= 255 && b <= 255 ==> {
            let w = (r << 16) | (g << 8) | b;
            &&& (w / 0x1_0000) % 0x100 == r
            &&& (w / 0x100) % 0x100 == g
            &&& w % 0x100 == b
        },
{
}

/// `c * n / d` lies between zero and `c` when `0 <= n <= d` and `d > 0`,
/// is `c` when `n == d`, and is zero when `n == 0`.
proof fn lemma_scale_bounds(c: int, n: int, d: int)
    by (nonlinear_arith)
    requires
        0 <= c,
        0 <= n <= d,
        0 < d,
    ensures
        0 <= c * n,
        0 <= (c * n) / d <= c,
        n == d ==> (c * n) / d == c,
        n == 0 ==> (c * n) / d == 0,
{
}

/// Flooring keeps the order of two fractions of the same quantity.
proof fn lemma_scale_monotonic(c: int, n1: int, d1: int, n2: int, d2: int)
    requires
        0 <= c,
        0 <= n1,
        0 <= n2,
        0 < d1,
        0 < d2,
        n1 * d2 <= n2 * d1,
    ensures
        (c * n1) / d1 <= (c * n2) / d2,
{
    let q = (c * n1) / d1;
    assert(q * d1 <= c * n1 && 0 <= c * n1) by (nonlinear_arith)
        requires
            q == (c * n1) / d1,
            0 < d1,
            0 <= c,
            0 <= n1,
    ;
    assert(q * d2 * d1 <= c * n2 * d1) by (nonlinear_arith)
        requires
            q * d1 <= c * n1,
            n1 * d2 <= n2 * d1,
            0 <= c,
            0 < d2,
    ;
    assert(q * d2 <= c * n2) by (nonlinear_arith)
        requires
            q * d2 * d1 <= c * n2 * d1,
            0 < d1,
    ;
    assert(q <= (c * n2) / d2) by (nonlinear_arith)
        requires
            q * d2 <= c * n2,
            0 < d2,
    ;
}

/// Darkening by a smaller factor never gives a brighter channel: for factors
/// `f1 <= f2` in `0..=1`, `darken(c, f1) <= darken(c, f2)` in every channel.
pub proof fn lemma_darken_monotonic(c: Color, f1: Factor, f2: Factor)
    requires
        f1.wf(),
        f2.wf(),
        f1.le(f2),
    ensures
        c.darkened(f1).le(c.darkened(f2)),
{
    let (n1, d1, n2, d2) = (f1.numer as int, f1.denom as int, f2.numer as int, f2.denom as int);
    lemma_scale_monotonic(c.r as int, n1, d1, n2, d2);
    lemma_scale_monotonic(c.g as int, n1, d1, n2, d2);
    lemma_scale_monotonic(c.b as int, n1, d1, n2, d2);
    lemma_scale_bounds(c.r as int, n1, d1);
    lemma_scale_bounds(c.g as int, n1, d1);
    lemma_scale_bounds(c.b as int, n1, d1);
    lemma_scale_bounds(c.r as int, n2, d2);
    lemma_scale_bounds(c.g as int, n2, d2);
    lemma_scale_bounds(c.b as int, n2, d2);
}

/// Darkening by a factor of one leaves every colour unchanged.
pub proof fn lemma_darken_identity(c: Color, f: Factor)
    requires
        f.is_one(),
    ensures
        c.darkened(f) == c,
{
    lemma_scale_bounds(c.r as int, f.numer as int, f.denom as int);
    lemma_scale_bounds(c.g as int, f.numer as int, f.denom as int);
    lemma_scale_bounds(c.b as int, f.numer as int, f.denom as int);
}

/// A darkened colour is never brighter than its source in any channel.
pub proof fn lemma_darken_bounded(c: Color, f: Factor)
    requires
        f.wf(),
    ensures
        c.darkened(f).le(c),
{
    lemma_scale_bounds(c.r as int, f.numer as int, f.denom as int);
    lemma_scale_bounds(c.g as int, f.numer as int, f.denom as int);
    lemma_scale_bounds(c.b as int, f.numer as int, f.denom as int);
}

/// Hex words and colours convert back and forth without loss: the word of a
/// colour names that colour, and the colour of a word gives back its low 24 bits.
pub proof fn lemma_hex_round_trip(c: Color, hex: u32)
    ensures
        Color::spec_from_hex(c.spec_to_hex()) == c,
        Color::spec_from_hex(hex).spec_to_hex() == hex % 0x100_0000,
        c.spec_to_hex() <= 0xFF_FFFF,
{
    lemma_summed_channels(c.r as u32, c.g as u32, c.b as u32);
    lemma_split_word(hex);
}

} // verus!
