//! The reasons for which a command is turned down.

use vstd::prelude::*;

verus! {

/// Why a command was rejected. A rejected command leaves the state as it was.
#[derive(Clone, Copy, Debug, PartialEq, Eq, Structural)]
pub enum RenderError {
    /// The width or the height is zero.
    ZeroDimension,
    /// The frame of `width * height * 4` bytes cannot be addressed on this machine.
    FrameTooLarge,
    /// The generator handed over does not have the stated width and height.
    DimensionMismatch,
    /// The colour table does not hold one entry more than the iteration cap.
    PaletteLength,
    /// The output buffer does not hold exactly `width * height * 4` bytes.
    FrameLength,
}

/// Whether a grid of `width` by `height` pixels can be held: neither side is
/// zero, and its RGBA frame fits the address space.
pub open spec fn valid_dimensions(width: usize, height: usize) -> bool {
    &&& width > 0
    &&& height > 0
    &&& width * height * 4 <= usize::MAX
}

/// The verdict on a pair of dimensions: `Ok` exactly for those that can be held.
pub open spec fn spec_check_dimensions(width: usize, height: usize) -> Result<(), RenderError> {
    if width == 0 || height == 0 {
        Err(RenderError::ZeroDimension)
    } else if width * height * 4 > usize::MAX {
        Err(RenderError::FrameTooLarge)
    } else {
        Ok(())
    }
}

/// Checks a pair of dimensions, and gives the number of pixels of the grid.
pub fn check_dimensions(width: usize, height: usize) -> (checked: Result<usize, RenderError>)
    ensures
        checked is Ok <==> valid_dimensions(width, height),
        checked is Ok ==> checked->Ok_0 == width * height,
        checked is Err ==> spec_check_dimensions(width, height) == Err::<(), RenderError>(checked->Err_0),
{
    if width == 0 || height == 0 {
        return Err(RenderError::ZeroDimension);
    }
    match width.checked_mul(height) {
        None => {
            assert(width * height * 4 > usize::MAX) by (nonlinear_arith)
                requires
                    width * height > usize::MAX,
            ;
            Err(RenderError::FrameTooLarge)
        },
        Some(pixels) => match pixels.checked_mul(4) {
            None => Err(RenderError::FrameTooLarge),
            Some(_) => Ok(pixels),
        },
    }
}

} // verus!
