//! The compositor's dispatch messages, the window events derived from them, and
//! the events that drive the reconciliation engine.
//!
//! Positions are surface-local and kept in the compositor protocol's own fixed-point
//! precision: 1/256 of a logical pixel. Fractional scales are kept as the protocol
//! sends them: in 120ths.
use vstd::prelude::*;
use crate::actions::NewMenuSettings;
use crate::registry::{SurfaceId, WindowId};

verus! {

/// A surface-local position; each coordinate counts 1/256 of a logical pixel.
#[derive(Clone, Copy, Debug, PartialEq, Eq, Structural)]
pub struct LogicalPoint {
    pub x: i32,
    pub y: i32,
}

/// A pointer button as the UI runtime names it.
#[derive(Clone, Copy, Debug, PartialEq, Eq, Structural)]
pub enum MouseButton {
    Left,
    Right,
}

/// Whether a pointer button went down or up, as the compositor reports it.
#[derive(Clone, Copy, Debug, PartialEq, Eq, Structural)]
pub enum ButtonState {
    Pressed,
    Released,
}

#[derive(Clone, Copy, Debug, PartialEq, Eq, Structural)]
pub enum IcedButtonState {
    Pressed(MouseButton),
    Released(MouseButton),
}

#[derive(Clone, Copy, Debug, PartialEq, Eq, Structural)]
pub enum IcedKeyState {
    Pressed,
    Released,
}

/// Where on the keyboard a key sits.
#[derive(Clone, Copy, Debug, PartialEq, Eq, Structural)]
pub enum KeyLocation {
    Standard,
    Left,
    Right,
    Numpad,
}

/// The keyboard modifiers that are held.
#[derive(Clone, Copy, Debug, PartialEq, Eq, Structural)]
pub struct Modifiers {
    pub shift: bool,
    pub control: bool,
    pub alt: bool,
    pub logo: bool,
}

/// One axis of a scroll as the compositor reports it.
#[derive(Clone, Copy, Debug, PartialEq, Eq, Structural)]
pub struct AxisScroll {
    /// The continuous amount, in 1/256 of a logical pixel.
    pub absolute: i32,
    /// The amount in discrete steps (lines); zero for continuous sources.
    pub discrete: i32,
    /// The scroll on this axis has stopped.
    pub stop: bool,
}

/// A key press or release. `K` carries the key's identity (its logical, unmodified
/// and physical forms); the engine passes it on untouched.
#[derive(Clone, Debug, PartialEq, Eq)]
pub struct KeyEvent<K> {
    pub state: IcedKeyState,
    pub location: KeyLocation,
    pub key: K,
    /// The text the key produces with all modifiers applied, if any.
    pub text: Option<String>,
}

/// A message of the compositor client's dispatch loop, for one surface.
#[derive(Clone, Debug, PartialEq, Eq)]
pub enum DispatchMessage<K> {
    MouseButton { state: ButtonState, serial: u32, button: u32, time: u32 },
    MouseLeave,
    MouseEnter { serial: u32, surface_x: i32, surface_y: i32 },
    MouseMotion { time: u32, surface_x: i32, surface_y: i32 },
    Axis { time: u32, horizontal: AxisScroll, vertical: AxisScroll },
    TouchDown { serial: u32, time: u32, id: i32, x: i32, y: i32 },
    TouchUp { serial: u32, time: u32, id: i32, x: i32, y: i32 },
    TouchMotion { time: u32, id: i32, x: i32, y: i32 },
    TouchCancel { id: i32, x: i32, y: i32 },
    Focused(SurfaceId),
    Unfocus,
    ModifiersChanged(Modifiers),
    KeyboardInput { event: KeyEvent<K>, is_synthetic: bool },
    /// The surface was configured (and perhaps just created) and must be redrawn.
    RequestRefresh { width: u32, height: u32, scale_120: u32, is_created: bool },
    PreferredScale { scale_u32: u32, scale_120: u32 },
}

/// An input or state change of one window, before translation for the UI runtime.
#[derive(Clone, Debug, PartialEq, Eq)]
pub enum WindowEvent<K> {
    ScaleFactorChanged { scale_u32: u32, scale_120: u32 },
    CursorEnter { x: i32, y: i32 },
    CursorMoved { x: i32, y: i32 },
    CursorLeft,
    MouseInput(IcedButtonState),
    KeyBoardInput { event: KeyEvent<K>, is_synthetic: bool },
    ModifiersChanged(Modifiers),
    /// A scroll in lines, already in the UI runtime's sign convention.
    Axis { x: i64, y: i64 },
    /// A scroll in 1/256 of a logical pixel, already in the UI runtime's sign convention.
    PixelDelta { x: i64, y: i64 },
    TouchDown { id: i32, x: i32, y: i32 },
    TouchUp { id: i32, x: i32, y: i32 },
    TouchMotion { id: i32, x: i32, y: i32 },
    TouchCancel { id: i32, x: i32, y: i32 },
    Focused,
    Unfocus,
}

/// An event that the compositor side hands to the reconciliation engine.
#[derive(Clone, Debug, PartialEq, Eq)]
pub enum IcedLayerEvent<Message, INFO, K> {
    /// A surface is ready to be drawn, with its current size.
    RequestRefreshWithWrapper {
        width: u32,
        height: u32,
        scale_120: u32,
        surface: SurfaceId,
        is_created: bool,
        info: Option<INFO>,
    },
    RequestRefresh { width: u32, height: u32, scale_120: u32 },
    Window(WindowEvent<K>),
    /// A low-priority tick that lets the engine process what has piled up.
    NormalUpdate,
    UserEvent(Message),
    WindowRemoved(WindowId),
    NewMenu { settings: NewMenuSettings, info: INFO },
}

/// An engine event with the surface it came from, if any.
#[derive(Clone, Debug, PartialEq, Eq)]
pub struct MultiWindowIcedLayerEvent<Message, INFO, K>(
    pub Option<SurfaceId>,
    pub IcedLayerEvent<Message, INFO, K>,
);

/// The pointer button that a compositor button code stands for.
pub open spec fn button_of(code: u32) -> MouseButton {
    if code == 273 {
        MouseButton::Right
    } else {
        MouseButton::Left
    }
}

/// The UI runtime's button for a compositor (evdev) button code: 273 is the
/// secondary button, every other code the primary one.
pub fn from_u32_to_icedmouse(code: u32) -> (r: MouseButton)
    ensures
        r == button_of(code),
{
    if code == 273 {
        MouseButton::Right
    } else {
        MouseButton::Left
    }
}

impl IcedKeyState {
    /// The key state for a wire value of the keyboard protocol (0 released,
    /// 1 pressed); no other value names a state.
    pub fn from_wire(value: u32) -> (r: Option<IcedKeyState>)
        ensures
            value == 0 ==> r == Some(IcedKeyState::Released),
            value == 1 ==> r == Some(IcedKeyState::Pressed),
            value > 1 ==> r is None,
    {
        if value == 0 {
            Some(IcedKeyState::Released)
        } else if value == 1 {
            Some(IcedKeyState::Pressed)
        } else {
            None
        }
    }
}

/// The scroll event for a pair of axis reports: both stopped is only a wake-up
/// tick; otherwise lines when either axis moved in steps, else the continuous
/// amounts; the sign is inverted in both cases.
pub open spec fn scroll_event_of<Message, INFO, K>(
    horizontal: AxisScroll,
    vertical: AxisScroll,
) -> IcedLayerEvent<Message, INFO, K> {
    if horizontal.stop && vertical.stop {
        IcedLayerEvent::NormalUpdate
    } else if horizontal.discrete != 0 || vertical.discrete != 0 {
        IcedLayerEvent::Window(
            WindowEvent::Axis { x: -(horizontal.discrete as int) as i64, y: -(vertical.discrete as int) as i64 },
        )
    } else {
        IcedLayerEvent::Window(
            WindowEvent::PixelDelta { x: -(horizontal.absolute as int) as i64, y: -(vertical.absolute as int) as i64 },
        )
    }
}

/// The engine event for a dispatch message on its own, without the surface it came
/// from: a redraw request then stays a bare request.
pub open spec fn layer_event_of<Message, INFO, K>(msg: DispatchMessage<K>) -> IcedLayerEvent<Message, INFO, K> {
    match msg {
        DispatchMessage::RequestRefresh { width, height, scale_120, .. } =>
            IcedLayerEvent::RequestRefresh { width, height, scale_120 },
        DispatchMessage::MouseEnter { surface_x, surface_y, .. } =>
            IcedLayerEvent::Window(WindowEvent::CursorEnter { x: surface_x, y: surface_y }),
        DispatchMessage::MouseMotion { surface_x, surface_y, .. } =>
            IcedLayerEvent::Window(WindowEvent::CursorMoved { x: surface_x, y: surface_y }),
        DispatchMessage::MouseLeave => IcedLayerEvent::Window(WindowEvent::CursorLeft),
        DispatchMessage::MouseButton { state, button, .. } => IcedLayerEvent::Window(
            WindowEvent::MouseInput(
                match state {
                    ButtonState::Pressed => IcedButtonState::Pressed(button_of(button)),
                    ButtonState::Released => IcedButtonState::Released(button_of(button)),
                },
            ),
        ),
        DispatchMessage::TouchUp { id, x, y, .. } => IcedLayerEvent::Window(WindowEvent::TouchUp { id, x, y }),
        DispatchMessage::TouchDown { id, x, y, .. } => IcedLayerEvent::Window(WindowEvent::TouchDown { id, x, y }),
        DispatchMessage::TouchMotion { id, x, y, .. } => IcedLayerEvent::Window(WindowEvent::TouchMotion { id, x, y }),
        DispatchMessage::TouchCancel { id, x, y } => IcedLayerEvent::Window(WindowEvent::TouchCancel { id, x, y }),
        DispatchMessage::PreferredScale { scale_u32, scale_120 } =>
            IcedLayerEvent::Window(WindowEvent::ScaleFactorChanged { scale_u32, scale_120 }),
        DispatchMessage::KeyboardInput { event, is_synthetic } =>
            IcedLayerEvent::Window(WindowEvent::KeyBoardInput { event, is_synthetic }),
        DispatchMessage::ModifiersChanged(m) => IcedLayerEvent::Window(WindowEvent::ModifiersChanged(m)),
        DispatchMessage::Focused(_) => IcedLayerEvent::Window(WindowEvent::Focused),
        DispatchMessage::Unfocus => IcedLayerEvent::Window(WindowEvent::Unfocus),
        DispatchMessage::Axis { horizontal, vertical, .. } => scroll_event_of(horizontal, vertical),
    }
}

impl<Message, INFO, K> IcedLayerEvent<Message, INFO, K> {
    /// The scroll event for a pair of axis reports.
    pub fn from_axis(horizontal: AxisScroll, vertical: AxisScroll) -> (r: Self)
        ensures
            r == scroll_event_of::<Message, INFO, K>(horizontal, vertical),
    {
        if horizontal.stop && vertical.stop {
            return IcedLayerEvent::NormalUpdate;
        }
        if horizontal.discrete != 0 || vertical.discrete != 0 {
            return IcedLayerEvent::Window(
                WindowEvent::Axis { x: -(horizontal.discrete as i64), y: -(vertical.discrete as i64) },
            );
        }
        IcedLayerEvent::Window(
            WindowEvent::PixelDelta { x: -(horizontal.absolute as i64), y: -(vertical.absolute as i64) },
        )
    }

    /// Translates a dispatch message of the compositor client into an engine event.
    pub fn from_dispatch(msg: DispatchMessage<K>) -> (r: Self)
        ensures
            r == layer_event_of::<Message, INFO, K>(msg),
    {
        match msg {
            DispatchMessage::RequestRefresh { width, height, scale_120, .. } =>
                IcedLayerEvent::RequestRefresh { width, height, scale_120 },
            DispatchMessage::MouseEnter { surface_x, surface_y, .. } =>
                IcedLayerEvent::Window(WindowEvent::CursorEnter { x: surface_x, y: surface_y }),
            DispatchMessage::MouseMotion { surface_x, surface_y, .. } =>
                IcedLayerEvent::Window(WindowEvent::CursorMoved { x: surface_x, y: surface_y }),
            DispatchMessage::MouseLeave => IcedLayerEvent::Window(WindowEvent::CursorLeft),
            DispatchMessage::MouseButton { state, button, .. } => {
                let btn = from_u32_to_icedmouse(button);
                match state {
                    ButtonState::Pressed => IcedLayerEvent::Window(
                        WindowEvent::MouseInput(IcedButtonState::Pressed(btn)),
                    ),
                    ButtonState::Released => IcedLayerEvent::Window(
                        WindowEvent::MouseInput(IcedButtonState::Released(btn)),
                    ),
                }
            },
            DispatchMessage::TouchUp { id, x, y, .. } =>
                IcedLayerEvent::Window(WindowEvent::TouchUp { id, x, y }),
            DispatchMessage::TouchDown { id, x, y, .. } =>
                IcedLayerEvent::Window(WindowEvent::TouchDown { id, x, y }),
            DispatchMessage::TouchMotion { id, x, y, .. } =>
                IcedLayerEvent::Window(WindowEvent::TouchMotion { id, x, y }),
            DispatchMessage::TouchCancel { id, x, y } =>
                IcedLayerEvent::Window(WindowEvent::TouchCancel { id, x, y }),
            DispatchMessage::PreferredScale { scale_u32, scale_120 } =>
                IcedLayerEvent::Window(WindowEvent::ScaleFactorChanged { scale_u32, scale_120 }),
            DispatchMessage::KeyboardInput { event, is_synthetic } =>
                IcedLayerEvent::Window(WindowEvent::KeyBoardInput { event, is_synthetic }),
            DispatchMessage::ModifiersChanged(m) =>
                IcedLayerEvent::Window(WindowEvent::ModifiersChanged(m)),
            DispatchMessage::Focused(_) => IcedLayerEvent::Window(WindowEvent::Focused),
            DispatchMessage::Unfocus => IcedLayerEvent::Window(WindowEvent::Unfocus),
            DispatchMessage::Axis { horizontal, vertical, .. } => Self::from_axis(horizontal, vertical),
        }
    }
}

/// The engine event for a dispatch message of a surface. A redraw request of a known
/// surface carries the surface and the window tag bound to it; every other message
/// is translated on its own.
pub open spec fn engine_event_of<Message, INFO, K>(
    surface: Option<SurfaceId>,
    msg: DispatchMessage<K>,
    binding: Option<INFO>,
) -> MultiWindowIcedLayerEvent<Message, INFO, K> {
    match (surface, msg) {
        (Some(s), DispatchMessage::RequestRefresh { width, height, scale_120, is_created }) =>
            MultiWindowIcedLayerEvent(
                surface,
                IcedLayerEvent::RequestRefreshWithWrapper {
                    width,
                    height,
                    scale_120,
                    surface: s,
                    is_created,
                    info: binding,
                },
            ),
        (_, m) => MultiWindowIcedLayerEvent(surface, layer_event_of(m)),
    }
}

impl<Message, INFO, K> MultiWindowIcedLayerEvent<Message, INFO, K> {
    /// The engine event for a dispatch message of a surface, with the window tag
    /// that the surface was created with.
    pub fn from_dispatch(surface: Option<SurfaceId>, msg: DispatchMessage<K>, binding: Option<INFO>) -> (r: Self)
        ensures
            r == engine_event_of::<Message, INFO, K>(surface, msg, binding),
    {
        match surface {
            Some(s) => match msg {
                DispatchMessage::RequestRefresh { width, height, scale_120, is_created } =>
                    MultiWindowIcedLayerEvent(
                        surface,
                        IcedLayerEvent::RequestRefreshWithWrapper {
                            width,
                            height,
                            scale_120,
                            surface: s,
                            is_created,
                            info: binding,
                        },
                    ),
                m => MultiWindowIcedLayerEvent(surface, IcedLayerEvent::from_dispatch(m)),
            },
            None => MultiWindowIcedLayerEvent(surface, IcedLayerEvent::from_dispatch(msg)),
        }
    }
}

} // verus!
