//! Mouse interactions and the cursor shapes shown for them.
use vstd::prelude::*;

verus! {

/// What the pointer over a window currently means, as the UI runtime reports it.
#[derive(Clone, Copy, Debug, PartialEq, Eq, Structural)]
pub enum MouseInteraction {
    Plain,
    Idle,
    Pointer,
    Working,
    Grab,
    Text,
    ZoomIn,
    Grabbing,
    Crosshair,
    NotAllowed,
    ResizingVertically,
    ResizingHorizontally,
    Cell,
    Move,
    Copy,
    Help,
    ZoomOut,
    ResizingDiagonallyUp,
    ResizingDiagonallyDown,
}

/// The cursor-shape protocol code shown for an interaction.
pub open spec fn interaction_shape_code(i: MouseInteraction) -> u32 {
    match i {
        MouseInteraction::Plain => 1,
        MouseInteraction::Idle => 6,
        MouseInteraction::Pointer => 4,
        MouseInteraction::Working => 4,
        MouseInteraction::Grab => 16,
        MouseInteraction::Text => 9,
        MouseInteraction::ZoomIn => 33,
        MouseInteraction::Grabbing => 17,
        MouseInteraction::Crosshair => 8,
        MouseInteraction::NotAllowed => 15,
        MouseInteraction::ResizingVertically => 27,
        MouseInteraction::ResizingHorizontally => 26,
        MouseInteraction::Cell => 7,
        MouseInteraction::Move => 13,
        MouseInteraction::Copy => 12,
        MouseInteraction::Help => 3,
        MouseInteraction::ZoomOut => 34,
        MouseInteraction::ResizingDiagonallyUp => 29,
        MouseInteraction::ResizingDiagonallyDown => 29,
    }
}

/// The cursor-shape protocol code (1 to 36) that the compositor is asked to show
/// for an interaction.
pub fn mouse_interaction(interaction: MouseInteraction) -> (r: u32)
    ensures
        r == interaction_shape_code(interaction),
        1 <= r <= 36,
{
    match interaction {
        MouseInteraction::Plain => 1,
        MouseInteraction::Idle => 6,
        MouseInteraction::Pointer => 4,
        MouseInteraction::Working => 4,
        MouseInteraction::Grab => 16,
        MouseInteraction::Text => 9,
        MouseInteraction::ZoomIn => 33,
        MouseInteraction::Grabbing => 17,
        MouseInteraction::Crosshair => 8,
        MouseInteraction::NotAllowed => 15,
        MouseInteraction::ResizingVertically => 27,
        MouseInteraction::ResizingHorizontally => 26,
        MouseInteraction::Cell => 7,
        MouseInteraction::Move => 13,
        MouseInteraction::Copy => 12,
        MouseInteraction::Help => 3,
        MouseInteraction::ZoomOut => 34,
        MouseInteraction::ResizingDiagonallyUp => 29,
        MouseInteraction::ResizingDiagonallyDown => 29,
    }
}

} // verus!
