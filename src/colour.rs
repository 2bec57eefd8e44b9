use vstd::prelude::*;

verus! {

/// The channel value that stands for full intensity (1.0).
pub const CHANNEL_ONE: u16 = 0xFFFF;

/// Fixed-point product of two channels: `a * b` with both read as fractions
/// of `CHANNEL_ONE`, rounded down.
pub open spec fn channel_mul(a: int, b: int) -> int {
    a * b / 0xFFFF
}

/// Linear blend of two channels by `t` (a fraction of `CHANNEL_ONE`), rounded down.
pub open spec fn channel_lerp(a: int, b: int, t: int) -> int {
    (a * (0xFFFF - t) + b * t) / 0xFFFF
}

/// An 8-bit display value for a channel, rounded to nearest.
pub open spec fn channel_byte(c: int) -> int {
    (c + 128) / 257
}

/// An RGB colour with fixed-point channels in `0..=CHANNEL_ONE`.
#[derive(Clone, Copy, Debug, PartialEq, Eq, Structural)]
pub struct Rgb {
    pub r: u16,
    pub g: u16,
    pub b: u16,
}

proof fn lemma_channel_mul_bounds(a: int, b: int)
    requires
        0 <= a <= 0xFFFF,
        0 <= b <= 0xFFFF,
    ensures
        0 <= channel_mul(a, b) <= a,
        0 <= channel_mul(a, b) <= b,
{
    assert(0 <= a * b <= a * 0xFFFF) by (nonlinear_arith)
        requires 0 <= a <= 0xFFFF, 0 <= b <= 0xFFFF;
    assert(a * b <= 0xFFFF * b) by (nonlinear_arith)
        requires 0 <= a <= 0xFFFF, 0 <= b <= 0xFFFF;
    assert(a * 0xFFFF / 0xFFFF == a) by (nonlinear_arith);
    assert(0xFFFF * b / 0xFFFF == b) by (nonlinear_arith);
    assert(a * b / 0xFFFF <= a * 0xFFFF / 0xFFFF) by (nonlinear_arith)
        requires 0 <= a * b <= a * 0xFFFF;
    assert(a * b / 0xFFFF <= 0xFFFF * b / 0xFFFF) by (nonlinear_arith)
        requires 0 <= a * b <= 0xFFFF * b;
}

fn mul_channel(a: u16, b: u16) -> (r: u16)
    ensures
        r == channel_mul(a as int, b as int),
{
    proof {
        lemma_channel_mul_bounds(a as int, b as int);
    }
    let p: u32 = (a as u32) * (b as u32);
    (p / 0xFFFF) as u16
}

fn lerp_channel(a: u16, b: u16, t: u16) -> (r: u16)
    ensures
        r == channel_lerp(a as int, b as int, t as int),
{
    let s: u32 = (0xFFFF - t) as u32;
    proof {
        let (ai, bi, ti, si) = (a as int, b as int, t as int, s as int);
        assert(ai * si <= 0xFFFF * si) by (nonlinear_arith)
            requires 0 <= ai <= 0xFFFF, 0 <= si;
        assert(bi * ti <= 0xFFFF * ti) by (nonlinear_arith)
            requires 0 <= bi <= 0xFFFF, 0 <= ti;
        assert(0 <= ai * si) by (nonlinear_arith)
            requires 0 <= ai, 0 <= si;
        assert(0 <= bi * ti) by (nonlinear_arith)
            requires 0 <= bi, 0 <= ti;
        assert((ai * si + bi * ti) / 0xFFFF <= 0xFFFF * (si + ti) / 0xFFFF) by (nonlinear_arith)
            requires ai * si + bi * ti <= 0xFFFF * (si + ti), 0 <= ai * si + bi * ti;
        assert(0xFFFF * 0xFFFF / 0xFFFF == 0xFFFF) by (nonlinear_arith);
    }
    let x: u32 = (a as u32) * s;
    let y: u32 = (b as u32) * (t as u32);
    ((x + y) / 0xFFFF) as u16
}

impl Rgb {
    pub open spec fn spec_mul(self, o: Rgb) -> Rgb {
        Rgb {
            r: channel_mul(self.r as int, o.r as int) as u16,
            g: channel_mul(self.g as int, o.g as int) as u16,
            b: channel_mul(self.b as int, o.b as int) as u16,
        }
    }

    pub open spec fn spec_scale(self, f: int) -> Rgb {
        Rgb {
            r: channel_mul(self.r as int, f) as u16,
            g: channel_mul(self.g as int, f) as u16,
            b: channel_mul(self.b as int, f) as u16,
        }
    }

    pub open spec fn spec_lerp(self, o: Rgb, t: int) -> Rgb {
        Rgb {
            r: channel_lerp(self.r as int, o.r as int, t) as u16,
            g: channel_lerp(self.g as int, o.g as int, t) as u16,
            b: channel_lerp(self.b as int, o.b as int, t) as u16,
        }
    }

    pub fn black() -> (r: Rgb)
        ensures
            r == (Rgb { r: 0, g: 0, b: 0 }),
    {
        Rgb { r: 0, g: 0, b: 0 }
    }

    pub fn white() -> (r: Rgb)
        ensures
            r == (Rgb { r: CHANNEL_ONE, g: CHANNEL_ONE, b: CHANNEL_ONE }),
    {
        Rgb { r: CHANNEL_ONE, g: CHANNEL_ONE, b: CHANNEL_ONE }
    }

    /// Channel-wise product: attenuation of one colour by another.
    pub fn mul(self, o: Rgb) -> (r: Rgb)
        ensures
            r == self.spec_mul(o),
    {
        Rgb { r: mul_channel(self.r, o.r), g: mul_channel(self.g, o.g), b: mul_channel(self.b, o.b) }
    }

    /// Every channel multiplied by the fraction `f` of `CHANNEL_ONE`.
    pub fn scale(self, f: u16) -> (r: Rgb)
        ensures
            r == self.spec_scale(f as int),
    {
        Rgb { r: mul_channel(self.r, f), g: mul_channel(self.g, f), b: mul_channel(self.b, f) }
    }

    /// Linear interpolation from `self` (at `t == 0`) to `o` (at `t == CHANNEL_ONE`).
    pub fn lerp(self, o: Rgb, t: u16) -> (r: Rgb)
        ensures
            r == self.spec_lerp(o, t as int),
    {
        Rgb {
            r: lerp_channel(self.r, o.r, t),
            g: lerp_channel(self.g, o.g, t),
            b: lerp_channel(self.b, o.b, t),
        }
    }
}

} // verus!
