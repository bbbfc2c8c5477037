//! From what the host saw of the user's input to the commands it has to run.

use vstd::prelude::*;

verus! {

/// The size of the window in pixels.
#[derive(Clone, Copy, Debug, PartialEq, Eq, Structural)]
pub struct WindowSize {
    pub width: u32,
    pub height: u32,
}

/// What the host saw of the user's input in one round of events.
#[derive(Clone, Copy, Debug, PartialEq, Eq, Structural)]
pub struct InputSnapshot {
    /// The escape key was pressed, or the window was asked to close.
    pub close_requested: bool,
    /// The primary mouse button was pressed.
    pub primary_pressed: bool,
    /// The secondary mouse button was pressed.
    pub secondary_pressed: bool,
    /// The position of the pointer is known.
    pub pointer_known: bool,
    /// The key for a new colour table was pressed.
    pub palette_pressed: bool,
    /// The key for the default view was pressed.
    pub reset_pressed: bool,
    /// The new size of the window, if it was resized.
    pub resized: Option<WindowSize>,
}

/// A command for the host to run.
#[derive(Clone, Copy, Debug, PartialEq, Eq, Structural)]
pub enum Command {
    /// Leave the event loop.
    Exit,
    /// Centre the view on the pointer and halve its extent.
    ZoomIn,
    /// Centre the view on the pointer and double its extent.
    ZoomOut,
    /// Put a random colour table in place.
    RandomizePalette,
    /// Go back to the default view and the default colour table.
    Reset,
    /// Adapt the view to a window of this size.
    Resize { width: u32, height: u32 },
    /// Ask for the frame to be drawn.
    RequestRedraw,
}

/// The zoom that a round of input asks for, if any: the primary button zooms
/// in and goes before the secondary, which zooms out. A press while the
/// position of the pointer is not known asks for nothing.
pub open spec fn spec_zoom_of(input: InputSnapshot) -> Seq<Command> {
    if !input.pointer_known {
        seq![]
    } else if input.primary_pressed {
        seq![Command::ZoomIn]
    } else if input.secondary_pressed {
        seq![Command::ZoomOut]
    } else {
        seq![]
    }
}

/// The commands of one round of input, in the order in which they are run.
///
/// A request to close gives `Exit` and nothing else. Otherwise come, each
/// only if asked for: the zoom, the new colour table, the reset, the resize;
/// and at the end always the request to redraw.
pub open spec fn spec_decode(input: InputSnapshot) -> Seq<Command> {
    if input.close_requested {
        seq![Command::Exit]
    } else {
        spec_zoom_of(input) + (if input.palette_pressed {
            seq![Command::RandomizePalette]
        } else {
            seq![]
        }) + (if input.reset_pressed {
            seq![Command::Reset]
        } else {
            seq![]
        }) + (match input.resized {
            Some(size) => seq![Command::Resize { width: size.width, height: size.height }],
            None => seq![],
        }) + seq![Command::RequestRedraw]
    }
}

/// Turns one round of input into the commands to run, in their order.
pub fn decode(input: &InputSnapshot) -> (commands: Vec<Command>)
    ensures
        commands@ == spec_decode(*input),
{
    let mut commands: Vec<Command> = Vec::new();
    if input.close_requested {
        commands.push(Command::Exit);
        assert(commands@ =~= spec_decode(*input));
        return commands;
    }
    if input.pointer_known {
        if input.primary_pressed {
            commands.push(Command::ZoomIn);
        } else if input.secondary_pressed {
            commands.push(Command::ZoomOut);
        }
    }
    assert(commands@ =~= spec_zoom_of(*input));
    if input.palette_pressed {
        commands.push(Command::RandomizePalette);
    }
    if input.reset_pressed {
        commands.push(Command::Reset);
    }
    match input.resized {
        Some(size) => {
            commands.push(Command::Resize { width: size.width, height: size.height });
        },
        None => {},
    }
    commands.push(Command::RequestRedraw);
    assert(commands@ =~= spec_decode(*input));
    commands
}

} // verus!
