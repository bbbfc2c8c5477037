//! The frame: composing it from samples and colour table, and handing it out.

use vstd::prelude::*;
use crate::color::Rgb;
use crate::color::color_to_rgba;
use crate::color::spec_rgba;
use crate::dirty::DirtyState;
use crate::error::RenderError;
use crate::error::check_dimensions;
use crate::error::spec_check_dimensions;
use crate::error::valid_dimensions;
use crate::generator::GeneratorView;
use crate::generator::MandelbrotGenerator;
use crate::palette::Palette;
use crate::palette::spec_color_at;
use crate::sample::Sample;

verus! {

/// The RGBA frame of a grid of samples under a colour table: four bytes per
/// pixel, row by row from the top left.
pub open spec fn spec_frame(samples: Seq<Sample>, table: Seq<Rgb>) -> Seq<u8> {
    Seq::new(4 * samples.len(), |i: int| spec_rgba(spec_color_at(table, samples[i / 4]))[i % 4])
}

/// The frame before anything has been composed into it: every byte `0xff`.
pub open spec fn spec_blank_frame(width: nat, height: nat) -> Seq<u8> {
    Seq::new(4 * (width * height), |i: int| 0xffu8)
}

/// What a renderer holds, as mathematics.
pub struct RendererView {
    pub generator: GeneratorView,
    pub palette: Seq<Rgb>,
    /// Whether the frame is stale.
    pub redraw: bool,
    pub frame: Seq<u8>,
}

impl RendererView {
    /// The invariant of a renderer: the colour table serves the generator's
    /// cap, the frame has four bytes per pixel, and a frame that is not
    /// marked stale is the frame of the samples and the table.
    pub open spec fn wf(self) -> bool {
        &&& self.generator.wf()
        &&& self.palette.len() == self.generator.max_iterations + 1
        &&& self.frame.len() == 4 * self.generator.samples.len()
        &&& !self.redraw ==> self.frame == spec_frame(self.generator.samples, self.palette)
    }

    /// The state of the two staleness flags.
    pub open spec fn state(self) -> DirtyState {
        DirtyState::spec_from_flags(self.generator.recalculate, self.redraw)
    }

    /// The renderer after its view has changed: samples and frame are stale,
    /// and the scan is back at the top left.
    pub open spec fn spec_recalculated(self) -> RendererView {
        RendererView { generator: self.generator.invalidated(), redraw: true, ..self }
    }
}

/// What a draw does: `after` and `out` are a renderer and an output buffer
/// after a successful draw of the renderer `before` with the evaluator
/// `evaluate`.
///
/// Stale samples have each been replaced by what the evaluator gave for their
/// pixel; samples that were not stale are untouched. The frame is the frame
/// of the samples and the table, the output holds the same bytes, and nothing
/// is stale any more. From a clean state the renderer does not change at all.
pub open spec fn drawn<F: Fn(usize, usize) -> Sample>(
    before: RendererView,
    evaluate: F,
    after: RendererView,
    out: Seq<u8>,
) -> bool {
    &&& after.wf()
    &&& after.state() == DirtyState::Clean
    &&& after.palette == before.palette
    &&& after.frame == spec_frame(after.generator.samples, after.palette)
    &&& out == after.frame
    &&& before.generator.recalculate ==> {
        &&& after.generator == (GeneratorView {
            samples: after.generator.samples,
            recalculate: false,
            ..before.generator.invalidated()
        })
        &&& forall|x: usize, y: usize|
            x < before.generator.width && y < before.generator.height ==> call_ensures(
                evaluate,
                (x, y),
                #[trigger] after.generator.sample_at(x as nat, y as nat),
            )
    }
    &&& !before.generator.recalculate ==> after.generator == before.generator
    &&& before.state() == DirtyState::Clean ==> after == before
}

/// Two draws with no command between them give the same bytes, and the second
/// one changes nothing: it neither evaluates a sample nor composes the frame,
/// whatever evaluator it is given.
pub proof fn lemma_second_draw_repeats<F: Fn(usize, usize) -> Sample, G: Fn(usize, usize) -> Sample>(
    start: RendererView,
    first: F,
    between: RendererView,
    first_out: Seq<u8>,
    second: G,
    end: RendererView,
    second_out: Seq<u8>,
)
    requires
        start.wf(),
        drawn(start, first, between, first_out),
        drawn(between, second, end, second_out),
    ensures
        second_out == first_out,
        end == between,
        !between.state().draw_recomputes(),
        !between.state().draw_recomposes(),
{
}

/// The frame of a grid holds, for each pixel, the four bytes of its colour.
pub proof fn lemma_frame_pixel(samples: Seq<Sample>, table: Seq<Rgb>, pixel: int)
    requires
        0 <= pixel < samples.len(),
    ensures
        spec_frame(samples, table).len() == 4 * samples.len(),
        spec_frame(samples, table).subrange(4 * pixel, 4 * pixel + 4) == spec_rgba(
            spec_color_at(table, samples[pixel]),
        ),
{
    let frame = spec_frame(samples, table);
    let bytes = spec_rgba(spec_color_at(table, samples[pixel]));
    assert forall|k: int| 0 <= k < 4 implies frame.subrange(4 * pixel, 4 * pixel + 4)[k] == bytes[k] by {
        assert((4 * pixel + k) / 4 == pixel);
        assert((4 * pixel + k) % 4 == k);
    }
    assert(frame.subrange(4 * pixel, 4 * pixel + 4) =~= bytes);
}

/// The renderer of one view: its generator, its colour table and its frame.
pub struct MandelbrotRenderer {
    generator: MandelbrotGenerator,
    palette: Palette,
    redraw: bool,
    frame_buffer: Vec<u8>,
}

impl View for MandelbrotRenderer {
    type V = RendererView;

    closed spec fn view(&self) -> RendererView {
        RendererView {
            generator: self.generator@,
            palette: self.palette@,
            redraw: self.redraw,
            frame: self.frame_buffer@,
        }
    }
}

/// A buffer of `len` bytes, each `0xff`.
fn blank_bytes(len: usize) -> (bytes: Vec<u8>)
    ensures
        bytes@ == Seq::new(len as nat, |i: int| 0xffu8),
{
    let mut bytes: Vec<u8> = Vec::new();
    let mut filled: usize = 0;
    while filled < len
        invariant
            filled <= len,
            bytes@.len() == filled,
            forall|i: int| 0 <= i < filled ==> bytes@[i] == 0xffu8,
        decreases len - filled,
    {
        bytes.push(0xff);
        filled += 1;
    }
    assert(bytes@ =~= Seq::new(len as nat, |i: int| 0xffu8));
    bytes
}

impl MandelbrotRenderer {
    /// Makes the renderer of a `width` by `height` view from its generator
    /// and its colour table. The frame starts blank and stale.
    ///
    /// Rejected are a generator of other dimensions, and a table that does
    /// not serve the generator's cap.
    pub fn new(width: usize, height: usize, generator: MandelbrotGenerator, palette: Palette) -> (made: Result<
        MandelbrotRenderer,
        RenderError,
    >)
        requires
            generator@.wf(),
        ensures
            made is Ok <==> generator@.width == width && generator@.height == height && palette@.len()
                == generator@.max_iterations + 1,
            made is Ok ==> made->Ok_0@.wf() && made->Ok_0@ == (RendererView {
                generator: generator@,
                palette: palette@,
                redraw: true,
                frame: spec_blank_frame(width as nat, height as nat),
            }),
            made is Err ==> made->Err_0 == (if generator@.width == width && generator@.height == height {
                RenderError::PaletteLength
            } else {
                RenderError::DimensionMismatch
            }),
    {
        if generator.width() != width || generator.height() != height {
            return Err(RenderError::DimensionMismatch);
        }
        if palette.len() as u64 != generator.max_iterations() as u64 + 1 {
            return Err(RenderError::PaletteLength);
        }
        let pixels: usize = generator.samples().len();
        let frame_buffer: Vec<u8> = blank_bytes(4 * pixels);
        assert(frame_buffer@ =~= spec_blank_frame(width as nat, height as nat));
        Ok(MandelbrotRenderer { generator, palette, redraw: true, frame_buffer })
    }

    /// Composes the frame anew from the samples and the colour table, and
    /// ends its staleness.
    fn draw_to_frame_buffer(&mut self)
        requires
            old(self)@.wf(),
        ensures
            final(self)@ == (RendererView {
                redraw: false,
                frame: spec_frame(old(self)@.generator.samples, old(self)@.palette),
                ..old(self)@
            }),
            final(self)@.wf(),
    {
        let pixels: usize = self.generator.samples().len();
        let ghost samples = self.generator@.samples;
        let ghost table = self.palette@;
        let ghost target = spec_frame(samples, table);
        let mut pixel: usize = 0;
        while pixel < pixels
            invariant
                pixel <= pixels,
                pixels == samples.len(),
                4 * pixels <= usize::MAX,
                self.generator@ == old(self)@.generator,
                self.palette@ == old(self)@.palette,
                self.palette.wf(),
                samples == self.generator@.samples,
                table == self.palette@,
                target == spec_frame(samples, table),
                self.frame_buffer@.len() == 4 * pixels,
                forall|i: int| 0 <= i < 4 * pixel ==> self.frame_buffer@[i] == target[i],
            decreases pixels - pixel,
        {
            let sample: Sample = self.generator.samples()[pixel];
            let color: Rgb = self.palette.color_at(sample);
            let rgba: [u8; 4] = color_to_rgba(&color);
            let base: usize = 4 * pixel;
            proof {
                lemma_frame_pixel(samples, table, pixel as int);
                assert forall|k: int| 0 <= k < 4 implies target[base + k] == #[trigger] rgba@[k] by {
                    assert(target.subrange(4 * pixel, 4 * pixel + 4)[k] == target[base + k]);
                }
            }
            self.frame_buffer.set(base, rgba[0]);
            self.frame_buffer.set(base + 1, rgba[1]);
            self.frame_buffer.set(base + 2, rgba[2]);
            self.frame_buffer.set(base + 3, rgba[3]);
            pixel += 1;
        }
        self.redraw = false;
        assert(self.frame_buffer@ =~= target);
    }

    /// Fills `frame` with the current RGBA frame, after bringing up to date
    /// what is stale: first the samples, each by one call of `evaluate` on its
    /// pixel, then the frame. With nothing stale it only copies. Gives the
    /// state in which the draw found the renderer.
    ///
    /// A `frame` that does not hold exactly `width * height * 4` bytes is
    /// rejected, and nothing is evaluated, composed or copied.
    ///
    /// The renderer is borrowed exclusively until the draw has finished, so
    /// no other draw and no command can come in between.
    pub fn draw<F: Fn(usize, usize) -> Sample>(&mut self, frame: &mut [u8], evaluate: &F) -> (outcome: Result<
        DirtyState,
        RenderError,
    >)
        requires
            old(self)@.wf(),
            old(self)@.generator.recalculate ==> forall|x: usize, y: usize|
                x < old(self)@.generator.width && y < old(self)@.generator.height ==> call_requires(
                    evaluate,
                    (x, y),
                ),
        ensures
            outcome is Ok <==> old(frame)@.len() == old(self)@.frame.len(),
            outcome is Ok ==> outcome->Ok_0 == old(self)@.state() && drawn(
                old(self)@,
                *evaluate,
                final(self)@,
                final(frame)@,
            ),
            outcome is Err ==> outcome->Err_0 == RenderError::FrameLength && final(self)@ == old(self)@
                && final(frame)@ == old(frame)@,
    {
        if frame.len() != self.frame_buffer.len() {
            return Err(RenderError::FrameLength);
        }
        let found: DirtyState = self.state();
        if self.generator.needs_recalculation() {
            self.generator.recompute(evaluate);
            self.redraw = true;
        }
        if self.redraw {
            self.draw_to_frame_buffer();
        }
        let len: usize = self.frame_buffer.len();
        let mut copied: usize = 0;
        while copied < len
            invariant
                copied <= len,
                len == self.frame_buffer@.len(),
                frame@.len() == len,
                forall|i: int| 0 <= i < copied ==> frame@[i] == self.frame_buffer@[i],
            decreases len - copied,
        {
            frame[copied] = self.frame_buffer[copied];
            copied += 1;
        }
        assert(frame@ =~= self.frame_buffer@);
        Ok(found)
    }

    /// Marks samples and frame stale, as a change of the view requires, and
    /// puts the scan back at the top left.
    pub fn recalculate(&mut self)
        requires
            old(self)@.wf(),
        ensures
            final(self)@ == old(self)@.spec_recalculated(),
            final(self)@.wf(),
            final(self)@.state() == old(self)@.state().after_view_change(),
    {
        self.generator.recalculate();
        self.redraw = true;
    }

    /// Gives the view new dimensions: the samples become zero, the frame
    /// blank, and both are stale. Dimensions that cannot be held are
    /// rejected, and the renderer stays as it was.
    pub fn resize(&mut self, width: usize, height: usize) -> (outcome: Result<(), RenderError>)
        requires
            old(self)@.wf(),
        ensures
            final(self)@.wf(),
            outcome is Ok <==> valid_dimensions(width, height),
            outcome is Ok ==> final(self)@ == (RendererView {
                generator: GeneratorView::fresh(width as nat, height as nat, old(self)@.generator.max_iterations),
                frame: spec_blank_frame(width as nat, height as nat),
                redraw: true,
                ..old(self)@
            }) && final(self)@.state() == old(self)@.state().after_view_change(),
            outcome is Err ==> final(self)@ == old(self)@ && spec_check_dimensions(width, height) == Err::<
                (),
                RenderError,
            >(outcome->Err_0),
    {
        match self.generator.resize(width, height) {
            Err(e) => Err(e),
            Ok(()) => {
                let pixels: usize = self.generator.samples().len();
                self.frame_buffer = blank_bytes(4 * pixels);
                self.redraw = true;
                assert(self.frame_buffer@ =~= spec_blank_frame(width as nat, height as nat));
                Ok(())
            },
        }
    }

    /// Goes back to a blank view of `width` by `height` pixels under the
    /// colour table `palette`: dimensions and table are replaced together,
    /// and samples and frame are stale. Dimensions that cannot be held and a
    /// table that does not serve the cap are rejected, the dimensions first,
    /// and the renderer stays as it was.
    pub fn reset(&mut self, width: usize, height: usize, palette: Palette) -> (outcome: Result<(), RenderError>)
        requires
            old(self)@.wf(),
        ensures
            final(self)@.wf(),
            outcome is Ok <==> valid_dimensions(width, height) && palette@.len() == old(self)@.generator.max_iterations
                + 1,
            outcome is Ok ==> final(self)@ == (RendererView {
                generator: GeneratorView::fresh(width as nat, height as nat, old(self)@.generator.max_iterations),
                palette: palette@,
                redraw: true,
                frame: spec_blank_frame(width as nat, height as nat),
            }),
            outcome is Err ==> final(self)@ == old(self)@,
            outcome is Err ==> (if valid_dimensions(width, height) {
                outcome->Err_0 == RenderError::PaletteLength
            } else {
                spec_check_dimensions(width, height) == Err::<(), RenderError>(outcome->Err_0)
            }),
    {
        match check_dimensions(width, height) {
            Err(e) => {
                return Err(e);
            },
            Ok(_) => {},
        }
        if palette.len() as u64 != self.generator.max_iterations() as u64 + 1 {
            return Err(RenderError::PaletteLength);
        }
        match self.generator.resize(width, height) {
            Err(e) => Err(e),
            Ok(()) => {
                let pixels: usize = self.generator.samples().len();
                self.frame_buffer = blank_bytes(4 * pixels);
                self.palette = palette;
                self.redraw = true;
                assert(self.frame_buffer@ =~= spec_blank_frame(width as nat, height as nat));
                Ok(())
            },
        }
    }

    /// Puts another colour table in place and marks the frame stale; the
    /// samples are not touched. A table that does not serve the generator's
    /// cap is rejected, and the renderer stays as it was.
    pub fn set_palette(&mut self, palette: Palette) -> (outcome: Result<(), RenderError>)
        requires
            old(self)@.wf(),
        ensures
            final(self)@.wf(),
            outcome is Ok <==> palette@.len() == old(self)@.generator.max_iterations + 1,
            outcome is Ok ==> final(self)@ == (RendererView { palette: palette@, redraw: true, ..old(self)@ })
                && final(self)@.state() == old(self)@.state().after_palette_change(),
            outcome is Err ==> final(self)@ == old(self)@ && outcome->Err_0 == RenderError::PaletteLength,
    {
        if palette.len() as u64 != self.generator.max_iterations() as u64 + 1 {
            return Err(RenderError::PaletteLength);
        }
        self.palette = palette;
        self.redraw = true;
        Ok(())
    }

    /// The generator.
    pub fn generator(&self) -> (generator: &MandelbrotGenerator)
        ensures
            generator@ == self@.generator,
    {
        &self.generator
    }

    /// The colour table.
    pub fn palette(&self) -> (palette: &Palette)
        ensures
            palette@ == self@.palette,
    {
        &self.palette
    }

    /// The frame as it was last composed.
    pub fn frame_buffer(&self) -> (frame: &Vec<u8>)
        ensures
            frame@ == self@.frame,
    {
        &self.frame_buffer
    }

    /// The state of the two staleness flags.
    pub fn state(&self) -> (state: DirtyState)
        ensures
            state == self@.state(),
    {
        DirtyState::from_flags(self.generator.needs_recalculation(), self.redraw)
    }
}

} // verus!
