//! The grid of smoothed iteration counts and the scan that fills it.

use vstd::prelude::*;
use crate::error::RenderError;
use crate::error::check_dimensions;
use crate::error::valid_dimensions;
use crate::sample::Sample;

verus! {

/// What a generator holds, as mathematics.
pub struct GeneratorView {
    pub width: nat,
    pub height: nat,
    pub max_iterations: u32,
    /// One sample per pixel, row by row from the top left.
    pub samples: Seq<Sample>,
    /// Column of the pixel that the scan visits next.
    pub scan_x: nat,
    /// Row of the pixel that the scan visits next.
    pub scan_y: nat,
    /// Whether the samples are stale and the scan has to evaluate them anew.
    pub recalculate: bool,
}

impl GeneratorView {
    /// The invariant of a generator: a grid that can be held, one sample per
    /// pixel, and a scan position inside the grid.
    pub open spec fn wf(self) -> bool {
        &&& self.width <= usize::MAX
        &&& self.height <= usize::MAX
        &&& valid_dimensions(self.width as usize, self.height as usize)
        &&& self.samples.len() == self.width * self.height
        &&& self.scan_x < self.width
        &&& self.scan_y < self.height
    }

    /// Place of the pixel `(x, y)` in the row-major order of the grid.
    pub open spec fn index_of(self, x: nat, y: nat) -> int {
        (y * self.width + x) as int
    }

    /// The sample of the pixel `(x, y)`.
    pub open spec fn sample_at(self, x: nat, y: nat) -> Sample {
        self.samples[self.index_of(x, y)]
    }

    /// A generator as it is made or resized: every sample zero, the scan at
    /// the top left, and the samples marked stale.
    pub open spec fn fresh(width: nat, height: nat, max_iterations: u32) -> GeneratorView {
        GeneratorView {
            width,
            height,
            max_iterations,
            samples: Seq::new(width * height, |i: int| Sample::spec_zero()),
            scan_x: 0,
            scan_y: 0,
            recalculate: true,
        }
    }

    /// The generator with its samples marked stale and its scan back at the top left.
    pub open spec fn invalidated(self) -> GeneratorView {
        GeneratorView { scan_x: 0, scan_y: 0, recalculate: true, ..self }
    }

    /// Whether the scan stands on the last pixel of the grid.
    pub open spec fn at_last_pixel(self) -> bool {
        self.scan_x + 1 == self.width && self.scan_y + 1 == self.height
    }

    /// The generator after one step of the scan that produced `produced`:
    /// a stale sample under the scan is replaced by it, the scan moves on by
    /// one pixel, and a scan that has passed the last pixel starts over with
    /// the samples no longer stale.
    pub open spec fn stepped(self, produced: Sample) -> GeneratorView {
        GeneratorView {
            samples: if self.recalculate {
                self.samples.update(self.index_of(self.scan_x, self.scan_y), produced)
            } else {
                self.samples
            },
            scan_x: if self.scan_x + 1 < self.width {
                self.scan_x + 1
            } else {
                0
            },
            scan_y: if self.scan_x + 1 < self.width {
                self.scan_y
            } else if self.scan_y + 1 < self.height {
                self.scan_y + 1
            } else {
                0
            },
            recalculate: self.recalculate && !self.at_last_pixel(),
            ..self
        }
    }
}

/// A pixel inside a grid has its place inside the grid's row-major order, and
/// no other pixel shares it.
pub proof fn lemma_index_of(width: nat, height: nat, x: nat, y: nat)
    requires
        x < width,
        y < height,
    ensures
        0 <= y * width + x < width * height,
        forall|x2: nat, y2: nat| x2 < width && #[trigger] (y2 * width + x2) == y * width + x ==> x2 == x && y2 == y,
{
    assert(y * width + x < width * height) by (nonlinear_arith)
        requires
            x < width,
            y < height,
    ;
    assert forall|x2: nat, y2: nat| x2 < width && #[trigger] (y2 * width + x2) == y * width + x implies x2 == x && y2 == y by {
        assert(y2 == y) by (nonlinear_arith)
            requires
                x < width,
                x2 < width,
                y2 * width + x2 == y * width + x,
        ;
    }
}

/// The grid of smoothed iteration counts of one view, and the position of the
/// scan that refills it.
pub struct MandelbrotGenerator {
    width: usize,
    height: usize,
    max_iterations: u32,
    iteration_counts: Vec<Sample>,
    current_x: usize,
    current_y: usize,
    recalculate: bool,
}

impl View for MandelbrotGenerator {
    type V = GeneratorView;

    closed spec fn view(&self) -> GeneratorView {
        GeneratorView {
            width: self.width as nat,
            height: self.height as nat,
            max_iterations: self.max_iterations,
            samples: self.iteration_counts@,
            scan_x: self.current_x as nat,
            scan_y: self.current_y as nat,
            recalculate: self.recalculate,
        }
    }
}

/// A vector of `count` zero samples.
fn zero_samples(count: usize) -> (samples: Vec<Sample>)
    ensures
        samples@ == Seq::new(count as nat, |i: int| Sample::spec_zero()),
{
    let mut samples: Vec<Sample> = Vec::new();
    let mut filled: usize = 0;
    while filled < count
        invariant
            filled <= count,
            samples@.len() == filled,
            forall|i: int| 0 <= i < filled ==> samples@[i] == Sample::spec_zero(),
        decreases count - filled,
    {
        samples.push(Sample::zero());
        filled += 1;
    }
    assert(samples@ =~= Seq::new(count as nat, |i: int| Sample::spec_zero()));
    samples
}

impl MandelbrotGenerator {
    /// The iteration cap that a host uses unless it has a reason for another.
    pub const DEFAULT_MAX_ITERATIONS: u32 = 1000;

    /// Makes the generator of a `width` by `height` grid under the cap
    /// `max_iterations`. Dimensions that cannot be held are rejected.
    pub fn new(width: usize, height: usize, max_iterations: u32) -> (made: Result<MandelbrotGenerator, RenderError>)
        ensures
            made is Ok <==> valid_dimensions(width, height),
            made is Ok ==> made->Ok_0@ == GeneratorView::fresh(width as nat, height as nat, max_iterations)
                && made->Ok_0@.wf(),
            made is Err ==> crate::error::spec_check_dimensions(width, height) == Err::<(), RenderError>(made->Err_0),
    {
        match check_dimensions(width, height) {
            Err(e) => Err(e),
            Ok(pixels) => Ok(
                MandelbrotGenerator {
                    width,
                    height,
                    max_iterations,
                    iteration_counts: zero_samples(pixels),
                    current_x: 0,
                    current_y: 0,
                    recalculate: true,
                },
            ),
        }
    }

    /// Gives the grid new dimensions. Every sample becomes zero, the scan
    /// starts over and the samples are marked stale. Dimensions that cannot
    /// be held are rejected, and the generator stays as it was.
    pub fn resize(&mut self, width: usize, height: usize) -> (outcome: Result<(), RenderError>)
        requires
            old(self)@.wf(),
        ensures
            final(self)@.wf(),
            outcome is Ok <==> valid_dimensions(width, height),
            outcome is Ok ==> final(self)@ == GeneratorView::fresh(width as nat, height as nat, old(self)@.max_iterations),
            outcome is Err ==> final(self)@ == old(self)@
                && crate::error::spec_check_dimensions(width, height) == Err::<(), RenderError>(outcome->Err_0),
    {
        match check_dimensions(width, height) {
            Err(e) => Err(e),
            Ok(pixels) => {
                self.iteration_counts = zero_samples(pixels);
                self.width = width;
                self.height = height;
                self.current_x = 0;
                self.current_y = 0;
                self.recalculate = true;
                Ok(())
            },
        }
    }

    /// Marks the samples stale, so that the next scan evaluates every pixel
    /// anew, and puts the scan back at the top left.
    pub fn recalculate(&mut self)
        requires
            old(self)@.wf(),
        ensures
            final(self)@ == old(self)@.invalidated(),
            final(self)@.wf(),
    {
        self.current_x = 0;
        self.current_y = 0;
        self.recalculate = true;
    }

    /// One step of the scan: gives the sample of the pixel under the scan,
    /// evaluating it first if the samples are stale, and moves on by one
    /// pixel. The step past the last pixel puts the scan back at the top left
    /// and ends the staleness.
    pub fn next<F: Fn(usize, usize) -> Sample>(&mut self, evaluate: &F) -> (produced: Sample)
        requires
            old(self)@.wf(),
            old(self)@.recalculate ==> call_requires(
                evaluate,
                (old(self)@.scan_x as usize, old(self)@.scan_y as usize),
            ),
        ensures
            final(self)@ == old(self)@.stepped(produced),
            final(self)@.wf(),
            old(self)@.recalculate ==> call_ensures(
                evaluate,
                (old(self)@.scan_x as usize, old(self)@.scan_y as usize),
                produced,
            ),
            !old(self)@.recalculate ==> produced == old(self)@.sample_at(old(self)@.scan_x, old(self)@.scan_y),
    {
        let x: usize = self.current_x;
        let y: usize = self.current_y;
        proof {
            lemma_index_of(self.width as nat, self.height as nat, x as nat, y as nat);
        }
        let index: usize = y * self.width + x;
        let produced: Sample = if self.recalculate {
            let evaluated: Sample = evaluate(x, y);
            self.iteration_counts.set(index, evaluated);
            evaluated
        } else {
            self.iteration_counts[index]
        };
        if x + 1 < self.width {
            self.current_x = x + 1;
        } else {
            self.current_x = 0;
            if y + 1 < self.height {
                self.current_y = y + 1;
            } else {
                self.current_y = 0;
                self.recalculate = false;
            }
        }
        produced
    }

    /// Brings stale samples up to date in one pass: every pixel is evaluated
    /// once, row by row from the top left, and the staleness ends. Samples
    /// that are not stale are left alone, and nothing is evaluated.
    pub fn recompute<F: Fn(usize, usize) -> Sample>(&mut self, evaluate: &F)
        requires
            old(self)@.wf(),
            old(self)@.recalculate ==> forall|x: usize, y: usize|
                x < old(self)@.width && y < old(self)@.height ==> call_requires(evaluate, (x, y)),
        ensures
            final(self)@.wf(),
            !old(self)@.recalculate ==> final(self)@ == old(self)@,
            old(self)@.recalculate ==> final(self)@ == (GeneratorView {
                samples: final(self)@.samples,
                recalculate: false,
                ..old(self)@.invalidated()
            }),
            old(self)@.recalculate ==> forall|x: usize, y: usize|
                x < old(self)@.width && y < old(self)@.height ==> call_ensures(
                    evaluate,
                    (x, y),
                    #[trigger] final(self)@.sample_at(x as nat, y as nat),
                ),
    {
        if !self.recalculate {
            return ;
        }
        self.recalculate();
        let pixels: usize = self.iteration_counts.len();
        assert(pixels > 0) by (nonlinear_arith)
            requires
                pixels == self@.width * self@.height,
                self@.width > 0,
                self@.height > 0,
        ;
        let mut done: usize = 0;
        while done < pixels
            invariant
                self@.wf(),
                pixels == self@.width * self@.height,
                done <= pixels,
                self@.width == old(self)@.width,
                self@.height == old(self)@.height,
                self@.max_iterations == old(self)@.max_iterations,
                done < pixels ==> self@.recalculate && self@.index_of(self@.scan_x, self@.scan_y) == done,
                done == pixels ==> !self@.recalculate && self@.scan_x == 0 && self@.scan_y == 0,
                forall|x: usize, y: usize|
                    x < self@.width && y < self@.height ==> call_requires(evaluate, (x, y)),
                forall|x: usize, y: usize|
                    x < self@.width && y < self@.height && self@.index_of(x as nat, y as nat) < done
                        ==> call_ensures(evaluate, (x, y), #[trigger] self@.sample_at(x as nat, y as nat)),
            decreases pixels - done,
        {
            let ghost before = self@;
            let produced: Sample = self.next(evaluate);
            proof {
                let w = before.width;
                let h = before.height;
                lemma_index_of(w, h, before.scan_x, before.scan_y);
                assert(self@.samples == before.samples.update(done as int, produced));
                if before.at_last_pixel() {
                    assert(done + 1 == pixels) by (nonlinear_arith)
                        requires
                            done == (h - 1) * w + (w - 1),
                            pixels == w * h,
                    ;
                } else {
                    assert(done + 1 < pixels) by (nonlinear_arith)
                        requires
                            done == before.scan_y * w + before.scan_x,
                            pixels == w * h,
                            before.scan_x < w,
                            before.scan_y < h,
                            !(before.scan_x + 1 == w && before.scan_y + 1 == h),
                    ;
                    assert(self@.index_of(self@.scan_x, self@.scan_y) == done + 1) by (nonlinear_arith)
                        requires
                            done == before.scan_y * w + before.scan_x,
                            self@.width == w,
                            self@.scan_x == (if before.scan_x + 1 < w { before.scan_x + 1 } else { 0 }),
                            self@.scan_y == (if before.scan_x + 1 < w { before.scan_y } else { before.scan_y + 1 }),
                            before.scan_x < w,
                            self@.index_of(self@.scan_x, self@.scan_y) == self@.scan_y * self@.width + self@.scan_x,
                    ;
                }
                assert forall|x: usize, y: usize|
                    x < self@.width && y < self@.height && self@.index_of(x as nat, y as nat) < done + 1
                    implies call_ensures(evaluate, (x, y), #[trigger] self@.sample_at(x as nat, y as nat)) by {
                    lemma_index_of(w, h, x as nat, y as nat);
                    if before.index_of(x as nat, y as nat) < done {
                        assert(self@.sample_at(x as nat, y as nat) == before.sample_at(x as nat, y as nat));
                    } else {
                        assert(y as nat * w + x as nat == before.scan_y * w + before.scan_x);
                        assert(x as nat == before.scan_x && y as nat == before.scan_y);
                    }
                }
            }
            done += 1;
        }
        proof {
            assert forall|x: usize, y: usize|
                x < old(self)@.width && y < old(self)@.height
                implies call_ensures(evaluate, (x, y), #[trigger] self@.sample_at(x as nat, y as nat)) by {
                lemma_index_of(self@.width, self@.height, x as nat, y as nat);
            }
        }
    }

    /// The samples, row by row from the top left.
    pub fn samples(&self) -> (samples: &Vec<Sample>)
        ensures
            samples@ == self@.samples,
    {
        &self.iteration_counts
    }

    /// Width of the grid in pixels.
    pub fn width(&self) -> (width: usize)
        ensures
            width == self@.width,
    {
        self.width
    }

    /// Height of the grid in pixels.
    pub fn height(&self) -> (height: usize)
        ensures
            height == self@.height,
    {
        self.height
    }

    /// The iteration cap.
    pub fn max_iterations(&self) -> (cap: u32)
        ensures
            cap == self@.max_iterations,
    {
        self.max_iterations
    }

    /// Whether the samples are stale.
    pub fn needs_recalculation(&self) -> (stale: bool)
        ensures
            stale == self@.recalculate,
    {
        self.recalculate
    }

    /// The sample of the pixel `(x, y)`, or `None` outside the grid.
    pub fn sample(&self, x: usize, y: usize) -> (found: Option<Sample>)
        requires
            self@.wf(),
        ensures
            found == if x < self@.width && y < self@.height {
                Some(self@.sample_at(x as nat, y as nat))
            } else {
                None
            },
    {
        if x < self.width && y < self.height {
            proof {
                lemma_index_of(self.width as nat, self.height as nat, x as nat, y as nat);
            }
            Some(self.iteration_counts[y * self.width + x])
        } else {
            None
        }
    }
}

} // verus!
