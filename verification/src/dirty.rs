//! Which of the derived data are stale.

use vstd::prelude::*;

verus! {

/// The state of the two staleness flags: whether the samples have to be
/// evaluated anew, and whether the frame has to be composed anew.
#[derive(Clone, Copy, Debug, PartialEq, Eq, Structural)]
pub enum DirtyState {
    /// Samples and frame are up to date.
    Clean,
    /// The samples are stale.
    NeedsRecalc,
    /// The frame is stale.
    NeedsRedraw,
    /// Samples and frame are stale.
    NeedsBoth,
}

impl DirtyState {
    /// The state of a pair of flags.
    pub open spec fn spec_from_flags(recalc_needed: bool, redraw_needed: bool) -> DirtyState {
        if recalc_needed {
            if redraw_needed {
                DirtyState::NeedsBoth
            } else {
                DirtyState::NeedsRecalc
            }
        } else {
            if redraw_needed {
                DirtyState::NeedsRedraw
            } else {
                DirtyState::Clean
            }
        }
    }

    /// Whether the samples are stale.
    pub open spec fn spec_recalc_needed(self) -> bool {
        self == DirtyState::NeedsRecalc || self == DirtyState::NeedsBoth
    }

    /// Whether the frame is stale.
    pub open spec fn spec_redraw_needed(self) -> bool {
        self == DirtyState::NeedsRedraw || self == DirtyState::NeedsBoth
    }

    /// Whether a draw in this state evaluates the samples: when they are stale.
    pub open spec fn draw_recomputes(self) -> bool {
        self.spec_recalc_needed()
    }

    /// Whether a draw in this state composes the frame: when the frame is
    /// stale, or the samples are, since fresh samples make the frame stale.
    pub open spec fn draw_recomposes(self) -> bool {
        self != DirtyState::Clean
    }

    /// The state after the view or the dimensions have changed: both stale.
    pub open spec fn after_view_change(self) -> DirtyState {
        DirtyState::NeedsBoth
    }

    /// The state after the colour table has changed: the frame is stale, and
    /// the samples are as stale as they were.
    pub open spec fn after_palette_change(self) -> DirtyState {
        DirtyState::spec_from_flags(self.spec_recalc_needed(), true)
    }

    /// The state after a draw: nothing is stale.
    pub open spec fn after_draw(self) -> DirtyState {
        DirtyState::Clean
    }

    /// The state of a pair of flags.
    pub fn from_flags(recalc_needed: bool, redraw_needed: bool) -> (state: DirtyState)
        ensures
            state == DirtyState::spec_from_flags(recalc_needed, redraw_needed),
            state.spec_recalc_needed() == recalc_needed,
            state.spec_redraw_needed() == redraw_needed,
    {
        if recalc_needed {
            if redraw_needed {
                DirtyState::NeedsBoth
            } else {
                DirtyState::NeedsRecalc
            }
        } else {
            if redraw_needed {
                DirtyState::NeedsRedraw
            } else {
                DirtyState::Clean
            }
        }
    }

    /// Whether the samples are stale.
    pub fn recalc_needed(&self) -> (needed: bool)
        ensures
            needed == self.spec_recalc_needed(),
    {
        match self {
            DirtyState::NeedsRecalc | DirtyState::NeedsBoth => true,
            DirtyState::Clean | DirtyState::NeedsRedraw => false,
        }
    }

    /// Whether the frame is stale.
    pub fn redraw_needed(&self) -> (needed: bool)
        ensures
            needed == self.spec_redraw_needed(),
    {
        match self {
            DirtyState::NeedsRedraw | DirtyState::NeedsBoth => true,
            DirtyState::Clean | DirtyState::NeedsRecalc => false,
        }
    }
}

/// However many changes of view and of colour table have piled up, one draw
/// settles them all: it evaluates the samples at most once and composes the
/// frame at most once, and the draw that follows it does neither.
pub proof fn lemma_one_draw_settles(state: DirtyState)
    ensures
        state.after_draw() == DirtyState::Clean,
        !state.after_draw().draw_recomputes(),
        !state.after_draw().draw_recomposes(),
        state.after_view_change().draw_recomputes(),
        state.after_view_change().draw_recomposes(),
        state.after_palette_change().draw_recomposes(),
        state.after_palette_change().draw_recomputes() == state.draw_recomputes(),
        state.draw_recomputes() ==> state.draw_recomposes(),
{
}

} // verus!
