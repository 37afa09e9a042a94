//! Colours, their projection on the chroma plane, and the tests that the
//! calibration applies to them.
use vstd::prelude::*;

verus! {

/// An 8-bit-per-channel RGB colour; equality is equality of the channels.
#[derive(Clone, Copy, Debug, PartialEq, Eq, Structural)]
pub struct Color {
    pub r: u8,
    pub g: u8,
    pub b: u8,
}

impl Color {
    pub fn new(r: u8, g: u8, b: u8) -> (c: Color)
        ensures
            c == (Color { r, g, b }),
    {
        Color { r, g, b }
    }

    /// Pure black, the key of cameras that render a literal black background.
    pub fn black() -> (c: Color)
        ensures
            c == black(),
    {
        Color { r: 0, g: 0, b: 0 }
    }

    /// Pure white, the colour that the renderer reads as "key nothing".
    pub fn white() -> (c: Color)
        ensures
            c == white(),
    {
        Color { r: 255, g: 255, b: 255 }
    }
}

pub open spec fn black() -> Color {
    Color { r: 0, g: 0, b: 0 }
}

pub open spec fn white() -> Color {
    Color { r: 255, g: 255, b: 255 }
}

/// Luma, in thousandths: `0.299 R + 0.587 G + 0.114 B`.
pub open spec fn luma_milli(c: Color) -> int {
    299 * (c.r as int) + 587 * (c.g as int) + 114 * (c.b as int)
}

/// The Cb coordinate `(B - luma) * 0.565`, in millionths.
pub open spec fn cb_micro(c: Color) -> int {
    (1000 * (c.b as int) - luma_milli(c)) * 565
}

/// The Cr coordinate `(R - luma) * 0.713`, in millionths.
pub open spec fn cr_micro(c: Color) -> int {
    (1000 * (c.r as int) - luma_milli(c)) * 713
}

/// The squared Euclidean distance between two colours on the (Cb, Cr) plane,
/// in units of 10^-12. Brightness does not enter it.
pub open spec fn chroma_distance_sq(a: Color, b: Color) -> int {
    let dcb = cb_micro(a) - cb_micro(b);
    let dcr = cr_micro(a) - cr_micro(b);
    dcb * dcb + dcr * dcr
}

/// Two colours are the same background when their chroma distance is strictly
/// less than the tolerance, given in thousandths of a chroma unit.
pub open spec fn is_similar(a: Color, b: Color, tolerance_milli: u32) -> bool {
    let t = (tolerance_milli as int) * 1000;
    chroma_distance_sq(a, b) < t * t
}

/// The per-channel average of two colours, rounded down.
pub open spec fn mixed(a: Color, b: Color) -> Color {
    Color {
        r: ((a.r + b.r) / 2) as u8,
        g: ((a.g + b.g) / 2) as u8,
        b: ((a.b + b.b) / 2) as u8,
    }
}

/// The projection of a colour on the (Cb, Cr) plane, in millionths.
pub fn chroma(c: Color) -> (p: (i64, i64))
    ensures
        p.0 == cb_micro(c),
        p.1 == cr_micro(c),
{
    let luma: i64 = 299 * c.r as i64 + 587 * c.g as i64 + 114 * c.b as i64;
    ((1000 * c.b as i64 - luma) * 565, (1000 * c.r as i64 - luma) * 713)
}

/// Decides whether two colours are the same background under `tolerance_milli`.
pub fn similar(a: Color, b: Color, tolerance_milli: u32) -> (r: bool)
    ensures
        r == is_similar(a, b, tolerance_milli),
{
    let (cb_a, cr_a) = chroma(a);
    let (cb_b, cr_b) = chroma(b);
    let dcb: i64 = cb_a - cb_b;
    let dcr: i64 = cr_a - cr_b;
    assert(0 <= dcb * dcb <= 66_000_000_000_000_000) by (nonlinear_arith)
        requires
            -255_300_900 <= dcb <= 255_300_900,
    ;
    assert(0 <= dcr * dcr <= 66_000_000_000_000_000) by (nonlinear_arith)
        requires
            -254_904_630 <= dcr <= 254_904_630,
    ;
    let dist: u128 = (dcb * dcb + dcr * dcr) as u128;
    let t: u128 = tolerance_milli as u128 * 1000;
    assert(t * t <= 20_000_000_000_000_000_000_000_000) by (nonlinear_arith)
        requires
            t <= 4_294_967_295_000,
    ;
    dist < t * t
}

/// Folds a new sample into a running estimate.
pub fn mix(a: Color, b: Color) -> (m: Color)
    ensures
        m == mixed(a, b),
{
    Color {
        r: ((a.r as u16 + b.r as u16) / 2) as u8,
        g: ((a.g as u16 + b.g as u16) / 2) as u8,
        b: ((a.b as u16 + b.b as u16) / 2) as u8,
    }
}

/// Thresholds that a converged estimate must pass before it is keyed out:
/// they reject near-black, near-grey and warm convergences, which are more
/// likely skin or furniture than a chosen background.
#[derive(Clone, Copy, Debug, PartialEq, Eq, Structural)]
pub struct KeyFilter {
    /// HSV saturation must exceed this many hundredths.
    pub min_saturation_percent: u32,
    /// HSV value, on the 0..=255 scale, must exceed this.
    pub min_value: u8,
    /// The red channel must stay below this.
    pub max_red: u8,
}

impl KeyFilter {
    /// Saturation above 0.2, value above 80, red below 80.
    pub fn standard() -> (f: KeyFilter)
        ensures
            f == (KeyFilter { min_saturation_percent: 20, min_value: 80, max_red: 80 }),
    {
        KeyFilter { min_saturation_percent: 20, min_value: 80, max_red: 80 }
    }
}

/// The HSV value of a colour: its largest channel.
pub open spec fn hsv_value(c: Color) -> int {
    if c.r >= c.g && c.r >= c.b {
        c.r as int
    } else if c.g >= c.b {
        c.g as int
    } else {
        c.b as int
    }
}

/// The smallest channel of a colour.
pub open spec fn min_channel(c: Color) -> int {
    if c.r <= c.g && c.r <= c.b {
        c.r as int
    } else if c.g <= c.b {
        c.g as int
    } else {
        c.b as int
    }
}

/// The filter's verdict. The HSV saturation `(max - min) / max` exceeds
/// `p / 100` exactly when `100 (max - min) > p max`; the value test leaves
/// out `max == 0`, where the saturation is 0.
pub open spec fn is_plausible(c: Color, f: KeyFilter) -> bool {
    &&& hsv_value(c) > f.min_value
    &&& 100 * (hsv_value(c) - min_channel(c)) > (f.min_saturation_percent as int) * hsv_value(c)
    &&& c.r < f.max_red
}

/// Applies the plausibility filter to a converged estimate.
pub fn plausible(c: Color, f: KeyFilter) -> (r: bool)
    ensures
        r == is_plausible(c, f),
{
    let hi: u8 = if c.r >= c.g && c.r >= c.b {
        c.r
    } else if c.g >= c.b {
        c.g
    } else {
        c.b
    };
    let lo: u8 = if c.r <= c.g && c.r <= c.b {
        c.r
    } else if c.g <= c.b {
        c.g
    } else {
        c.b
    };
    let pct: u64 = f.min_saturation_percent as u64;
    let value: u64 = hi as u64;
    assert(pct * value <= 4_294_967_295 * 255) by (nonlinear_arith)
        requires
            pct <= 4_294_967_295,
            value <= 255,
    ;
    hi > f.min_value && 100 * (value - lo as u64) > pct * value && c.r < f.max_red
}

/// Any positive tolerance takes a colour for the same background as itself.
pub proof fn lemma_similar_to_itself(c: Color, tolerance_milli: u32)
    requires
        tolerance_milli > 0,
    ensures
        is_similar(c, c, tolerance_milli),
{
    let t = (tolerance_milli as int) * 1000;
    assert(t * t > 0) by (nonlinear_arith)
        requires
            t > 0,
    ;
}

/// Mixing a colour with itself gives it back.
pub proof fn lemma_mix_with_itself(c: Color)
    ensures
        mixed(c, c) == c,
{
}

} // verus!
