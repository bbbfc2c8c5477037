//! The colour table and the colour of a smoothed iteration count.

use vstd::prelude::*;
use crate::color::Rgb;
use crate::color::spec_mix;
use crate::color::spec_mix_channel;
use crate::color::lemma_mix_channel_approaches_upper;
use crate::color::lemma_mix_channel_bounds;
use crate::error::RenderError;
use crate::sample::Sample;

verus! {

/// The table entry below a count whose whole part is `whole`: the whole part
/// itself, held back to `max_iterations - 1` so that the entry above exists.
pub open spec fn spec_lower_entry(whole: u32, max_iterations: u32) -> int {
    if whole < max_iterations {
        whole as int
    } else if max_iterations > 0 {
        max_iterations - 1
    } else {
        0
    }
}

/// The table entry above a count whose whole part is `whole`.
pub open spec fn spec_upper_entry(whole: u32, max_iterations: u32) -> int {
    if max_iterations > 0 {
        spec_lower_entry(whole, max_iterations) + 1
    } else {
        0
    }
}

/// The colour of a sample under a table of `max_iterations + 1` entries:
/// black for the interior, and for an escaped point the blend of the two
/// entries around its count, by the count's fraction.
pub open spec fn spec_color_at(table: Seq<Rgb>, sample: Sample) -> Rgb
    recommends
        0 < table.len() <= u32::MAX + 1,
{
    let max_iterations = (table.len() - 1) as u32;
    match sample {
        Sample::Interior => Rgb::spec_interior(),
        Sample::Escaped { whole, fraction } => spec_mix(
            table[spec_lower_entry(whole, max_iterations)],
            table[spec_upper_entry(whole, max_iterations)],
            fraction,
        ),
    }
}

/// The distance between two channel values.
pub open spec fn channel_distance(a: u8, b: u8) -> int {
    if a <= b {
        b - a
    } else {
        a - b
    }
}

/// Whether every channel of `a` is within `bound` of the same channel of `b`.
pub open spec fn within_distance(a: Rgb, b: Rgb, bound: int) -> bool {
    &&& channel_distance(a.red, b.red) <= bound
    &&& channel_distance(a.green, b.green) <= bound
    &&& channel_distance(a.blue, b.blue) <= bound
}

/// A count without a fraction has exactly the colour of its table entry.
pub proof fn lemma_color_at_whole_count(table: Seq<Rgb>, whole: u32)
    requires
        0 < table.len() <= u32::MAX + 1,
        whole < table.len() - 1,
    ensures
        spec_color_at(table, Sample::Escaped { whole, fraction: 0 }) == table[whole as int],
{
    let max_iterations = (table.len() - 1) as u32;
    let lo = table[whole as int];
    let hi = table[whole + 1];
    lemma_mix_channel_bounds(lo.red, hi.red, 0);
    lemma_mix_channel_bounds(lo.green, hi.green, 0);
    lemma_mix_channel_bounds(lo.blue, hi.blue, 0);
}

/// The colour of a count is continuous towards the next table entry: as the
/// fraction grows towards one, every channel comes within one step of
/// rounding of the entry above, `table[whole + 1]`. For the last whole count
/// below the cap that entry is the last of the table.
pub proof fn lemma_color_approaches_next_entry(table: Seq<Rgb>, whole: u32, fraction: u16)
    requires
        0 < table.len() <= u32::MAX + 1,
        whole < table.len() - 1,
    ensures
        within_distance(
            spec_color_at(table, Sample::Escaped { whole, fraction }),
            table[whole + 1],
            (255 * (65536 - fraction)) / 65536 + 1,
        ),
{
    let lo = table[whole as int];
    let hi = table[whole + 1];
    let f: int = fraction as int;
    lemma_channel_approaches(lo.red, hi.red, fraction);
    lemma_channel_approaches(lo.green, hi.green, fraction);
    lemma_channel_approaches(lo.blue, hi.blue, fraction);
}

proof fn lemma_channel_approaches(lo: u8, hi: u8, fraction: u16)
    ensures
        0 <= spec_mix_channel(lo, hi, fraction) <= 255,
        channel_distance(spec_mix_channel(lo, hi, fraction) as u8, hi) <= (255 * (65536 - fraction)) / 65536 + 1,
{
    lemma_mix_channel_bounds(lo, hi, fraction);
    lemma_mix_channel_approaches_upper(lo, hi, fraction);
    let f: int = fraction as int;
    let d: int = channel_distance(lo, hi);
    assert((d * (65536 - f)) / 65536 <= (255 * (65536 - f)) / 65536) by (nonlinear_arith)
        requires
            0 <= d <= 255,
            0 <= f < 65536,
    ;
}

/// The colour table: one entry for each whole count from zero to the cap.
pub struct Palette {
    colors: Vec<Rgb>,
}

impl View for Palette {
    type V = Seq<Rgb>;

    closed spec fn view(&self) -> Seq<Rgb> {
        self.colors@
    }
}

impl Palette {
    /// The invariant of a table: it is not empty, and its last index is a
    /// possible iteration cap.
    pub open spec fn wf(&self) -> bool {
        0 < self@.len() <= u32::MAX + 1
    }

    /// The iteration cap that the table serves: its last index.
    pub open spec fn spec_max_iterations(&self) -> u32 {
        (self@.len() - 1) as u32
    }

    /// Makes the table for the cap `max_iterations` out of its colours. A
    /// sequence that does not hold exactly `max_iterations + 1` colours is
    /// rejected.
    pub fn new(colors: Vec<Rgb>, max_iterations: u32) -> (made: Result<Palette, RenderError>)
        ensures
            made is Ok <==> colors@.len() == max_iterations + 1,
            made is Ok ==> made->Ok_0@ == colors@ && made->Ok_0.wf()
                && made->Ok_0.spec_max_iterations() == max_iterations,
            made is Err ==> made->Err_0 == RenderError::PaletteLength,
    {
        let wanted: u64 = max_iterations as u64 + 1;
        if colors.len() as u64 == wanted {
            Ok(Palette { colors })
        } else {
            Err(RenderError::PaletteLength)
        }
    }

    /// The iteration cap that the table serves.
    pub fn max_iterations(&self) -> (cap: u32)
        requires
            self.wf(),
        ensures
            cap == self.spec_max_iterations(),
    {
        (self.colors.len() - 1) as u32
    }

    /// Number of entries: one more than the cap.
    pub fn len(&self) -> (entries: usize)
        ensures
            entries == self@.len(),
            self.wf() ==> entries == self.spec_max_iterations() + 1,
    {
        self.colors.len()
    }

    /// The entry of the whole count `index`, or `None` past the cap.
    pub fn entry(&self, index: usize) -> (found: Option<Rgb>)
        ensures
            found == if index < self@.len() {
                Some(self@[index as int])
            } else {
                None
            },
    {
        if index < self.colors.len() {
            Some(self.colors[index])
        } else {
            None
        }
    }

    /// The colour of a sample: black for the interior, and for an escaped
    /// point the blend of the two entries around its count.
    pub fn color_at(&self, sample: Sample) -> (color: Rgb)
        requires
            self.wf(),
        ensures
            color == spec_color_at(self@, sample),
    {
        match sample {
            Sample::Interior => Rgb::interior(),
            Sample::Escaped { whole, fraction } => {
                let last: usize = self.colors.len() - 1;
                let lower: usize = if (whole as usize) < last {
                    whole as usize
                } else if last > 0 {
                    last - 1
                } else {
                    0
                };
                let upper: usize = if last > 0 {
                    lower + 1
                } else {
                    0
                };
                let below: Rgb = self.colors[lower];
                let above: Rgb = self.colors[upper];
                below.mix(&above, fraction)
            },
        }
    }
}

} // verus!
