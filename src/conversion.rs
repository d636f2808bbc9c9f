//! Translation of window events into the UI runtime's semantic events.
use vstd::prelude::*;
use crate::event::{
    IcedButtonState, IcedKeyState, KeyEvent, KeyLocation, LogicalPoint, Modifiers, MouseButton,
    WindowEvent,
};

verus! {

/// How far a scroll went.
#[derive(Clone, Copy, Debug, PartialEq, Eq, Structural)]
pub enum ScrollDelta {
    /// In lines.
    Lines { x: i64, y: i64 },
    /// In 1/256 of a logical pixel.
    Pixels { x: i64, y: i64 },
}

/// An event in the UI runtime's vocabulary.
#[derive(Clone, Debug, PartialEq, Eq)]
pub enum SemanticEvent<K> {
    CursorEntered,
    CursorLeft,
    CursorMoved { position: LogicalPoint },
    ButtonPressed(MouseButton),
    ButtonReleased(MouseButton),
    WheelScrolled(ScrollDelta),
    FingerPressed { finger: u64, position: LogicalPoint },
    FingerLifted { finger: u64, position: LogicalPoint },
    FingerMoved { finger: u64, position: LogicalPoint },
    FingerLost { finger: u64, position: LogicalPoint },
    KeyPressed { key: K, location: KeyLocation, modifiers: Modifiers, text: Option<String> },
    KeyReleased { key: K, location: KeyLocation, modifiers: Modifiers },
    ModifiersChanged(Modifiers),
    Focused,
    Unfocused,
    /// A window was opened with this logical size.
    Opened { width: u32, height: u32 },
    RedrawRequested,
}

/// A code point of the private-use area U+E000..U+F8FF.
pub open spec fn private_use(c: char) -> bool {
    '\u{E000}' <= c <= '\u{F8FF}'
}

pub open spec fn has_private_use(s: Seq<char>) -> bool {
    exists|i: int| 0 <= i < s.len() && #[trigger] private_use(s[i])
}

/// Key text is kept only when none of its characters is a private-use placeholder.
pub open spec fn filtered_text(text: Option<String>) -> Option<String> {
    match text {
        Some(t) => if has_private_use(t@) {
            None
        } else {
            Some(t)
        },
        None => None,
    }
}

/// Whether a character lies in the private-use area U+E000..U+F8FF.
pub fn is_private_use(c: char) -> (r: bool)
    ensures
        r == private_use(c),
{
    '\u{E000}' <= c && c <= '\u{F8FF}'
}

/// Whether a string holds a private-use character.
pub fn contains_private_use(s: &str) -> (r: bool)
    ensures
        r == has_private_use(s@),
{
    broadcast use vstd::string::axiom_spec_iter;
    let mut found = false;
    for c in it: s.chars()
        invariant
            it.seq() == s@,
            found == exists|i: int| 0 <= i < it.index() && #[trigger] private_use(s@[i]),
    {
        if is_private_use(c) {
            found = true;
        }
    }
    found
}

/// Drops key text that holds a private-use character.
pub fn filter_text(text: Option<String>) -> (r: Option<String>)
    ensures
        r == filtered_text(text),
{
    match text {
        Some(t) => if contains_private_use(t.as_str()) {
            None
        } else {
            Some(t)
        },
        None => None,
    }
}

pub open spec fn finger_of(id: i32) -> u64 {
    id as u64
}

/// The semantic event for a window event under the modifiers that are held, if the
/// UI runtime has one for it.
pub open spec fn semantic_of<K>(event: WindowEvent<K>, modifiers: Modifiers) -> Option<SemanticEvent<K>> {
    match event {
        WindowEvent::CursorLeft => Some(SemanticEvent::CursorLeft),
        WindowEvent::CursorMoved { x, y } => Some(
            SemanticEvent::CursorMoved { position: LogicalPoint { x, y } },
        ),
        WindowEvent::CursorEnter { .. } => Some(SemanticEvent::CursorEntered),
        WindowEvent::MouseInput(IcedButtonState::Pressed(b)) => Some(SemanticEvent::ButtonPressed(b)),
        WindowEvent::MouseInput(IcedButtonState::Released(b)) => Some(SemanticEvent::ButtonReleased(b)),
        WindowEvent::Axis { x, y } => Some(SemanticEvent::WheelScrolled(ScrollDelta::Lines { x, y })),
        WindowEvent::PixelDelta { x, y } => Some(
            SemanticEvent::WheelScrolled(ScrollDelta::Pixels { x, y }),
        ),
        WindowEvent::KeyBoardInput { event, .. } => Some(
            match event.state {
                IcedKeyState::Pressed => SemanticEvent::KeyPressed {
                    key: event.key,
                    location: event.location,
                    modifiers,
                    text: filtered_text(event.text),
                },
                IcedKeyState::Released => SemanticEvent::KeyReleased {
                    key: event.key,
                    location: event.location,
                    modifiers,
                },
            },
        ),
        WindowEvent::TouchDown { id, x, y } => Some(
            SemanticEvent::FingerPressed { finger: finger_of(id), position: LogicalPoint { x, y } },
        ),
        WindowEvent::TouchUp { id, x, y } => Some(
            SemanticEvent::FingerLifted { finger: finger_of(id), position: LogicalPoint { x, y } },
        ),
        WindowEvent::TouchMotion { id, x, y } => Some(
            SemanticEvent::FingerMoved { finger: finger_of(id), position: LogicalPoint { x, y } },
        ),
        WindowEvent::TouchCancel { id, x, y } => Some(
            SemanticEvent::FingerLost { finger: finger_of(id), position: LogicalPoint { x, y } },
        ),
        WindowEvent::ModifiersChanged(m) => Some(SemanticEvent::ModifiersChanged(m)),
        WindowEvent::Unfocus => Some(SemanticEvent::Unfocused),
        WindowEvent::Focused => Some(SemanticEvent::Focused),
        WindowEvent::ScaleFactorChanged { .. } => None,
    }
}

fn finger(id: i32) -> (r: u64)
    ensures
        r == finger_of(id),
{
    id as u64
}

fn key_event<K>(event: KeyEvent<K>, modifiers: Modifiers) -> (r: SemanticEvent<K>)
    ensures
        Some(r) == semantic_of(WindowEvent::KeyBoardInput { event, is_synthetic: false }, modifiers),
{
    let KeyEvent { state, location, key, text } = event;
    match state {
        IcedKeyState::Pressed => SemanticEvent::KeyPressed {
            key,
            location,
            modifiers,
            text: filter_text(text),
        },
        IcedKeyState::Released => SemanticEvent::KeyReleased { key, location, modifiers },
    }
}

/// Translates a window event into the UI runtime's vocabulary; a scale change has
/// no counterpart there.
pub fn window_event<K>(event: WindowEvent<K>, modifiers: Modifiers) -> (r: Option<SemanticEvent<K>>)
    ensures
        r == semantic_of(event, modifiers),
{
    match event {
        WindowEvent::CursorLeft => Some(SemanticEvent::CursorLeft),
        WindowEvent::CursorMoved { x, y } => Some(
            SemanticEvent::CursorMoved { position: LogicalPoint { x, y } },
        ),
        WindowEvent::CursorEnter { .. } => Some(SemanticEvent::CursorEntered),
        WindowEvent::MouseInput(state) => Some(
            match state {
                IcedButtonState::Pressed(b) => SemanticEvent::ButtonPressed(b),
                IcedButtonState::Released(b) => SemanticEvent::ButtonReleased(b),
            },
        ),
        WindowEvent::Axis { x, y } => Some(SemanticEvent::WheelScrolled(ScrollDelta::Lines { x, y })),
        WindowEvent::PixelDelta { x, y } => Some(
            SemanticEvent::WheelScrolled(ScrollDelta::Pixels { x, y }),
        ),
        WindowEvent::KeyBoardInput { event, .. } => Some(key_event(event, modifiers)),
        WindowEvent::TouchDown { id, x, y } => Some(
            SemanticEvent::FingerPressed { finger: finger(id), position: LogicalPoint { x, y } },
        ),
        WindowEvent::TouchUp { id, x, y } => Some(
            SemanticEvent::FingerLifted { finger: finger(id), position: LogicalPoint { x, y } },
        ),
        WindowEvent::TouchMotion { id, x, y } => Some(
            SemanticEvent::FingerMoved { finger: finger(id), position: LogicalPoint { x, y } },
        ),
        WindowEvent::TouchCancel { id, x, y } => Some(
            SemanticEvent::FingerLost { finger: finger(id), position: LogicalPoint { x, y } },
        ),
        WindowEvent::ModifiersChanged(m) => Some(SemanticEvent::ModifiersChanged(m)),
        WindowEvent::Unfocus => Some(SemanticEvent::Unfocused),
        WindowEvent::Focused => Some(SemanticEvent::Focused),
        WindowEvent::ScaleFactorChanged { .. } => None,
    }
}

} // verus!
