//! Colours with 8-bit channels and the linear blend between two of them.

use vstd::prelude::*;

verus! {

/// Number of steps into which the way from one colour to the next is divided.
pub const FRACTION_ONE: u32 = 65536;

/// A colour with 8-bit channels, in the byte range that the frame buffer holds.
#[derive(Clone, Copy, Debug, PartialEq, Eq, Structural)]
pub struct Rgb {
    pub red: u8,
    pub green: u8,
    pub blue: u8,
}

/// The channel value `fraction / 65536` of the way from `lo` to `hi`, rounded down.
pub open spec fn spec_mix_channel(lo: u8, hi: u8, fraction: u16) -> int {
    lo + ((hi - lo) * fraction) / 65536
}

/// The colour `fraction / 65536` of the way from `from` to `to`, channel by channel.
pub open spec fn spec_mix(from: Rgb, to: Rgb, fraction: u16) -> Rgb {
    Rgb {
        red: spec_mix_channel(from.red, to.red, fraction) as u8,
        green: spec_mix_channel(from.green, to.green, fraction) as u8,
        blue: spec_mix_channel(from.blue, to.blue, fraction) as u8,
    }
}

/// The four bytes that a colour occupies in the frame buffer: red, green, blue, full alpha.
pub open spec fn spec_rgba(color: Rgb) -> Seq<u8> {
    seq![color.red, color.green, color.blue, 0xffu8]
}

/// A blended channel lies between its two ends, and is the lower end at fraction zero.
pub proof fn lemma_mix_channel_bounds(lo: u8, hi: u8, fraction: u16)
    ensures
        lo <= hi ==> lo <= spec_mix_channel(lo, hi, fraction) <= hi,
        hi <= lo ==> hi <= spec_mix_channel(lo, hi, fraction) <= lo,
        0 <= spec_mix_channel(lo, hi, fraction) <= 255,
        spec_mix_channel(lo, hi, 0) == lo,
        spec_mix_channel(lo, lo, fraction) == lo,
{
    let d: int = hi - lo;
    let f: int = fraction as int;
    assert(lo <= hi ==> 0 <= (d * f) / 65536 <= d) by (nonlinear_arith)
        requires
            0 <= f < 65536,
            d == hi - lo,
    ;
    assert(hi <= lo ==> d <= (d * f) / 65536 <= 0) by (nonlinear_arith)
        requires
            0 <= f < 65536,
            d == hi - lo,
    ;
    assert((d * 0) / 65536 == 0) by (nonlinear_arith);
    assert((0 * f) / 65536 == 0) by (nonlinear_arith);
}

/// Blending is continuous towards the upper end: the distance that is left to
/// `hi` is at most the share of the whole distance that the fraction has not
/// yet covered, and one step of rounding.
pub proof fn lemma_mix_channel_approaches_upper(lo: u8, hi: u8, fraction: u16)
    ensures
        lo <= hi ==> 0 <= hi - spec_mix_channel(lo, hi, fraction) <= ((hi - lo) * (65536 - fraction)) / 65536 + 1,
        hi <= lo ==> 0 <= spec_mix_channel(lo, hi, fraction) - hi <= ((lo - hi) * (65536 - fraction)) / 65536 + 1,
{
    let d: int = hi - lo;
    let f: int = fraction as int;
    lemma_mix_channel_bounds(lo, hi, fraction);
    assert(d - (d * f) / 65536 <= (d * (65536 - f)) / 65536 + 1) by (nonlinear_arith)
        requires
            0 <= f < 65536,
    ;
    assert((d * f) / 65536 - d <= ((-d) * (65536 - f)) / 65536 + 1) by (nonlinear_arith)
        requires
            0 <= f < 65536,
    ;
}

/// Blends one channel: `lo` at fraction zero, one rounding step short of `hi`
/// at the largest fraction.
pub fn mix_channel(lo: u8, hi: u8, fraction: u16) -> (mixed: u8)
    ensures
        mixed as int == spec_mix_channel(lo, hi, fraction),
{
    let toward: u32 = fraction as u32;
    let away: u32 = FRACTION_ONE - toward;
    assert(lo as int * away as int <= 255 * 65536) by (nonlinear_arith)
        requires
            0 <= lo <= 255,
            0 <= away <= 65536,
    ;
    assert(hi as int * toward as int <= 255 * 65535) by (nonlinear_arith)
        requires
            0 <= hi <= 255,
            0 <= toward <= 65535,
    ;
    let weighted: u32 = (lo as u32) * away + (hi as u32) * toward;
    proof {
        let d: int = hi - lo;
        let f: int = fraction as int;
        assert(weighted as int == lo as int * 65536 + d * f) by (nonlinear_arith)
            requires
                weighted as int == lo as int * (65536 - f) + hi as int * f,
                d == hi - lo,
        ;
        assert((lo as int * 65536 + d * f) / 65536 == lo as int + (d * f) / 65536) by (nonlinear_arith);
        lemma_mix_channel_bounds(lo, hi, fraction);
    }
    (weighted / FRACTION_ONE) as u8
}

impl Rgb {
    /// The colour that stands for points which never escape: black.
    pub open spec fn spec_interior() -> Rgb {
        Rgb { red: 0, green: 0, blue: 0 }
    }

    /// The colour that stands for points which never escape: black.
    pub fn interior() -> (color: Rgb)
        ensures
            color == Rgb::spec_interior(),
    {
        Rgb { red: 0, green: 0, blue: 0 }
    }

    /// Blends `self` towards `other` by `fraction / 65536`, channel by channel.
    pub fn mix(&self, other: &Rgb, fraction: u16) -> (mixed: Rgb)
        ensures
            mixed == spec_mix(*self, *other, fraction),
    {
        Rgb {
            red: mix_channel(self.red, other.red, fraction),
            green: mix_channel(self.green, other.green, fraction),
            blue: mix_channel(self.blue, other.blue, fraction),
        }
    }
}

/// The frame-buffer bytes of a colour: its three channels and full alpha.
pub fn color_to_rgba(color: &Rgb) -> (bytes: [u8; 4])
    ensures
        bytes@ == spec_rgba(*color),
{
    let bytes: [u8; 4] = [color.red, color.green, color.blue, 0xff];
    assert(bytes@ =~= spec_rgba(*color));
    bytes
}

} // verus!
