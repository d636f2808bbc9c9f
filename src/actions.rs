//! Layer-shell actions: what the application asks of its surfaces, and what the
//! engine hands to the compositor side.
use vstd::prelude::*;
use crate::cursor::MouseInteraction;
use crate::registry::{SurfaceId, WindowId};

verus! {

/// The edges a layer surface is anchored to, as the protocol's bit set
/// (top 1, bottom 2, left 4, right 8).
#[derive(Clone, Copy, Debug, PartialEq, Eq, Structural)]
pub struct Anchor(pub u32);

/// The stacking layer of a layer surface.
#[derive(Clone, Copy, Debug, PartialEq, Eq, Structural)]
pub enum Layer {
    Background,
    Bottom,
    Top,
    Overlay,
}

/// How a layer surface takes keyboard focus.
#[derive(Clone, Copy, Debug, PartialEq, Eq, Structural)]
pub enum KeyboardInteractivity {
    Refuse,
    Exclusive,
    OnDemand,
}

/// A size in logical pixels.
#[derive(Clone, Copy, Debug, PartialEq, Eq, Structural)]
pub struct Size {
    pub width: u32,
    pub height: u32,
}

/// The margins of a layer surface, in logical pixels.
#[derive(Clone, Copy, Debug, PartialEq, Eq, Structural)]
pub struct Margin {
    pub top: i32,
    pub right: i32,
    pub bottom: i32,
    pub left: i32,
}

/// The geometry and role of a new layer surface.
#[derive(Clone, Copy, Debug, PartialEq, Eq, Structural)]
pub struct NewLayerShellSettings {
    pub size: Option<Size>,
    pub exclusive_zone: Option<i32>,
    pub anchor: Anchor,
    pub layer: Layer,
    pub margin: Option<Margin>,
    pub keyboard_interactivity: KeyboardInteractivity,
    pub use_last_output: bool,
}

/// Which way a menu opens from the pointer.
#[derive(Clone, Copy, Debug, PartialEq, Eq, Structural)]
pub enum MenuDirection {
    Up,
    Down,
}

/// A menu to open at the pointer.
#[derive(Clone, Copy, Debug, PartialEq, Eq, Structural)]
pub struct NewMenuSettings {
    pub width: u32,
    pub height: u32,
    pub direction: MenuDirection,
}

/// A popup at a position of its parent surface, in whole logical pixels.
#[derive(Clone, Copy, Debug, PartialEq, Eq, Structural)]
pub struct NewPopupSettings {
    pub width: u32,
    pub height: u32,
    pub x: i32,
    pub y: i32,
}

/// A popup request as the compositor side makes it: with the parent surface.
#[derive(Clone, Copy, Debug, PartialEq, Eq, Structural)]
pub struct NewPopUpSettings {
    pub width: u32,
    pub height: u32,
    pub x: i32,
    pub y: i32,
    pub id: SurfaceId,
}

/// The layer-shell actions an application can ask for, with the tag of any window
/// it creates.
#[derive(Clone, Copy, Debug, PartialEq, Eq)]
pub enum LayershellCustomActionsWithInfo<INFO> {
    AnchorChange(Anchor),
    LayerChange(Layer),
    SizeChange { width: u32, height: u32 },
    VirtualKeyboardPressed { time: u32, key: u32 },
    NewLayerShell { settings: NewLayerShellSettings, info: INFO },
    NewPopUp { settings: NewPopupSettings, info: INFO },
    NewMenu { settings: NewMenuSettings, info: INFO },
    RemoveLayerShell(WindowId),
}

/// A layer-shell action aimed at a window of the UI runtime.
#[derive(Clone, Copy, Debug, PartialEq, Eq)]
pub struct LayershellCustomActionsWithIdAndInfo<INFO>(
    pub WindowId,
    pub LayershellCustomActionsWithInfo<INFO>,
);

/// A layer-shell action aimed at a compositor surface; the second field is the
/// surface to remove, for a removal.
#[derive(Clone, Copy, Debug, PartialEq, Eq)]
pub struct LayershellCustomActionsWithIdInner<INFO>(
    pub SurfaceId,
    pub Option<SurfaceId>,
    pub LayershellCustomActionsWithInfo<INFO>,
);

/// What one iteration of the engine hands to the compositor side.
#[derive(Clone, Debug, PartialEq, Eq)]
pub enum LayerShellActions<INFO> {
    Mouse(MouseInteraction),
    CustomActionsWithId(Vec<LayershellCustomActionsWithIdInner<INFO>>),
    RedrawAll,
    RedrawWindow(SurfaceId),
    NewMenu { settings: NewPopupSettings, info: INFO },
}

} // verus!
