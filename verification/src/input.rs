//! Window events turned into GUI input events.
//!
//! Keys and modifier keys arrive as the integer codes of the windowing
//! library (GLFW). The position of the cursor arrives in logical points.
//! Resizing and scrolling need no decision and are not handled here.

use vstd::prelude::*;
use crate::point::Point;

verus! {

/// A key that the GUI knows.
#[derive(Clone, Copy, Debug, PartialEq, Eq, Structural)]
pub enum Key {
    ArrowDown,
    ArrowLeft,
    ArrowRight,
    ArrowUp,
    Escape,
    Tab,
    Backspace,
    Enter,
    Space,
    Insert,
    Delete,
    Home,
    End,
    PageUp,
    PageDown,
    A,
    B,
    C,
    D,
    E,
    F,
    G,
    H,
    I,
    J,
    K,
    L,
    M,
    N,
    O,
    P,
    Q,
    R,
    S,
    T,
    U,
    V,
    W,
    X,
    Y,
    Z,
}

/// The state of the modifier keys.
#[derive(Clone, Copy, Debug, PartialEq, Eq, Structural)]
pub struct Modifiers {
    pub alt: bool,
    pub ctrl: bool,
    pub shift: bool,
    /// The command key of a Mac. The windowing library does not report it.
    pub mac_cmd: bool,
    /// The key for shortcuts: here the control key.
    pub command: bool,
}

/// A button of the pointer, as the GUI names it.
#[derive(Clone, Copy, Debug, PartialEq, Eq, Structural)]
pub enum PointerButton {
    Primary,
    Secondary,
    Middle,
}

/// A mouse button, as the windowing library numbers it. The first three are
/// the left, the right and the middle button.
#[derive(Clone, Copy, Debug, PartialEq, Eq, Structural)]
pub enum MouseButton {
    Button1,
    Button2,
    Button3,
    Button4,
    Button5,
    Button6,
    Button7,
    Button8,
}

/// What happened to a key or a button.
#[derive(Clone, Copy, Debug, PartialEq, Eq, Structural)]
pub enum Action {
    Release,
    Press,
    Repeat,
}

/// An event of the window.
#[derive(Clone, Copy, Debug, PartialEq, Eq, Structural)]
pub enum WindowEvent {
    /// A mouse button with the modifier bits of the moment.
    MouseButton(MouseButton, Action, i32),
    /// The cursor moved to this position, in logical points.
    CursorPos(Point),
    /// A key by its code, with the modifier bits of the moment.
    Key(i32, Action, i32),
    /// A character was typed.
    Char(char),
    /// Any other event.
    Other,
}

/// An input event for the GUI.
#[derive(Clone, Copy, Debug, PartialEq, Eq, Structural)]
pub enum Event {
    /// The pointer moved to this position.
    PointerMoved(Point),
    /// A pointer button went down or up at this position.
    PointerButton { pos: Point, button: PointerButton, pressed: bool, modifiers: Modifiers },
    /// A key went down or up.
    Key { key: Key, pressed: bool, modifiers: Modifiers },
    /// The user wants to cut the selection.
    Cut,
    /// The user wants to copy the selection.
    Copy,
    /// The user wants to paste: the text of the clipboard is to be typed.
    Paste,
    /// A character was typed.
    Text(char),
}

/// The cursor that the GUI asks for.
#[derive(Clone, Copy, Debug, PartialEq, Eq, Structural)]
pub enum CursorIcon {
    Default,
    /// No cursor is shown.
    Hidden,
    ContextMenu,
    Help,
    PointingHand,
    Progress,
    Wait,
    Cell,
    Crosshair,
    Text,
    VerticalText,
    Alias,
    Copy,
    Move,
    NoDrop,
    NotAllowed,
    Grab,
    Grabbing,
    AllScroll,
    ResizeHorizontal,
    ResizeNeSw,
    ResizeNwSe,
    ResizeVertical,
    ResizeEast,
    ResizeSouthEast,
    ResizeSouth,
    ResizeSouthWest,
    ResizeWest,
    ResizeNorthWest,
    ResizeNorth,
    ResizeNorthEast,
    ResizeColumn,
    ResizeRow,
    ZoomIn,
    ZoomOut,
}

/// A cursor shape that the windowing library has.
#[derive(Clone, Copy, Debug, PartialEq, Eq, Structural)]
pub enum StandardCursor {
    Arrow,
    IBeam,
    Crosshair,
    Hand,
    HResize,
    VResize,
}

/// The modifier bit of the shift key.
pub const MOD_SHIFT: i32 = 0x1;

/// The modifier bit of the control key.
pub const MOD_CONTROL: i32 = 0x2;

/// The modifier bit of the alt key.
pub const MOD_ALT: i32 = 0x4;

/// The code of the space bar.
pub const KEY_SPACE: i32 = 32;

/// The code of the key A; the other letters follow in alphabetical order.
pub const KEY_A: i32 = 65;

/// The code of the key Z.
pub const KEY_Z: i32 = 90;

/// The code of the escape key, the first of the editing and navigation
/// keys.
pub const KEY_ESCAPE: i32 = 256;

/// The code of the end key, the last of the editing and navigation keys.
pub const KEY_END: i32 = 269;

/// The letter keys in alphabetical order.
pub open spec fn letter_keys() -> Seq<Key> {
    seq![
        Key::A, Key::B, Key::C, Key::D, Key::E, Key::F, Key::G, Key::H, Key::I, Key::J, Key::K,
        Key::L, Key::M, Key::N, Key::O, Key::P, Key::Q, Key::R, Key::S, Key::T, Key::U, Key::V,
        Key::W, Key::X, Key::Y, Key::Z,
    ]
}

/// The editing and navigation keys in the order of their codes, from
/// [`KEY_ESCAPE`] to [`KEY_END`].
pub open spec fn control_keys() -> Seq<Key> {
    seq![
        Key::Escape, Key::Enter, Key::Tab, Key::Backspace, Key::Insert, Key::Delete,
        Key::ArrowRight, Key::ArrowLeft, Key::ArrowDown, Key::ArrowUp, Key::PageUp,
        Key::PageDown, Key::Home, Key::End,
    ]
}

/// The key with the code `code`, if the GUI knows it: the space bar, the
/// letters from [`KEY_A`] to [`KEY_Z`], whose codes are those of their
/// upper-case ASCII characters, and the editing and navigation keys from
/// [`KEY_ESCAPE`] to [`KEY_END`].
pub open spec fn key_of_code(code: int) -> Option<Key> {
    if code == KEY_SPACE {
        Some(Key::Space)
    } else if KEY_A <= code <= KEY_Z {
        Some(letter_keys()[code - KEY_A])
    } else if KEY_ESCAPE <= code <= KEY_END {
        Some(control_keys()[code - KEY_ESCAPE])
    } else {
        None
    }
}

/// The modifier keys that the bits `bits` report. The command key is the
/// control key.
pub open spec fn modifiers_of(bits: i32) -> Modifiers {
    Modifiers {
        alt: bits & MOD_ALT == MOD_ALT,
        ctrl: bits & MOD_CONTROL == MOD_CONTROL,
        shift: bits & MOD_SHIFT == MOD_SHIFT,
        mac_cmd: false,
        command: bits & MOD_CONTROL == MOD_CONTROL,
    }
}

/// The pointer button that a mouse button stands for, if it is one of the
/// first three.
pub open spec fn pointer_button_of(button: MouseButton) -> Option<PointerButton> {
    match button {
        MouseButton::Button1 => Some(PointerButton::Primary),
        MouseButton::Button2 => Some(PointerButton::Secondary),
        MouseButton::Button3 => Some(PointerButton::Middle),
        _ => None,
    }
}

/// The event can be handled: a mouse button that goes down or up is one of
/// the first three.
pub open spec fn handles(event: WindowEvent) -> bool {
    match event {
        WindowEvent::MouseButton(button, action, _) => action != Action::Repeat
            ==> pointer_button_of(button) is Some,
        _ => true,
    }
}

/// The event that a key going down produces: with the command key down, X,
/// C and V cut, copy and paste; any other key is reported as pressed.
pub open spec fn key_pressed(key: Key, modifiers: Modifiers) -> Event {
    if modifiers.command && key == Key::X {
        Event::Cut
    } else if modifiers.command && key == Key::C {
        Event::Copy
    } else if modifiers.command && key == Key::V {
        Event::Paste
    } else {
        Event::Key { key, pressed: true, modifiers }
    }
}

/// The modifier keys after `event`, given those before it: an event of a
/// key that the GUI knows brings the modifiers of the moment; any other
/// event leaves them.
pub open spec fn modifiers_after(event: WindowEvent, modifiers: Modifiers) -> Modifiers {
    match event {
        WindowEvent::Key(code, _, bits) => if key_of_code(code as int) is Some {
            modifiers_of(bits)
        } else {
            modifiers
        },
        _ => modifiers,
    }
}

/// The position of the pointer after `event`, given the one before it.
pub open spec fn pointer_after(event: WindowEvent, pointer_pos: Point) -> Point {
    match event {
        WindowEvent::CursorPos(pos) => pos,
        _ => pointer_pos,
    }
}

/// The input events that `event` produces, given the position of the
/// pointer and the modifier keys before it.
pub open spec fn events_of(event: WindowEvent, pointer_pos: Point, modifiers: Modifiers) -> Seq<
    Event,
> {
    match event {
        WindowEvent::MouseButton(button, action, _) => match pointer_button_of(button) {
            Some(button) if action != Action::Repeat => seq![
                Event::PointerButton {
                    pos: pointer_pos,
                    button,
                    pressed: action == Action::Press,
                    modifiers,
                },
            ],
            _ => Seq::empty(),
        },
        WindowEvent::CursorPos(pos) => seq![Event::PointerMoved(pos)],
        WindowEvent::Key(code, action, bits) => match key_of_code(code as int) {
            Some(key) => if action == Action::Release {
                seq![Event::Key { key, pressed: false, modifiers: modifiers_of(bits) }]
            } else {
                seq![key_pressed(key, modifiers_of(bits))]
            },
            None => Seq::empty(),
        },
        WindowEvent::Char(c) => seq![Event::Text(c)],
        WindowEvent::Other => Seq::empty(),
    }
}

/// The running state of the input: where the pointer is, the modifier keys
/// as the last key event reported them, and the input events gathered for
/// the next frame.
pub struct EguiInputState {
    pub pointer_pos: Point,
    pub modifiers: Modifiers,
    pub events: Vec<Event>,
}

impl EguiInputState {
    /// The pointer is at the origin, no modifier key is down and no event
    /// is waiting.
    pub fn new() -> (state: EguiInputState)
        ensures
            state.pointer_pos == (Point { x: 0, y: 0 }),
            state.modifiers == (Modifiers {
                alt: false,
                ctrl: false,
                shift: false,
                mac_cmd: false,
                command: false,
            }),
            state.events@ == Seq::<Event>::empty(),
    {
        EguiInputState {
            pointer_pos: Point { x: 0, y: 0 },
            modifiers: Modifiers {
                alt: false,
                ctrl: false,
                shift: false,
                mac_cmd: false,
                command: false,
            },
            events: Vec::new(),
        }
    }
}

/// Reads the modifier keys from their bits.
pub fn translate_modifiers(bits: i32) -> (modifiers: Modifiers)
    ensures
        modifiers == modifiers_of(bits),
{
    let ctrl = bits & MOD_CONTROL == MOD_CONTROL;
    Modifiers {
        alt: bits & MOD_ALT == MOD_ALT,
        ctrl,
        shift: bits & MOD_SHIFT == MOD_SHIFT,
        mac_cmd: false,
        command: ctrl,
    }
}

/// Translates a key code of the windowing library.
pub fn translate_virtual_key_code(key: i32) -> (translated: Option<Key>)
    ensures
        translated == key_of_code(key as int),
{
    Some(
        match key {
            263 => Key::ArrowLeft,
            265 => Key::ArrowUp,
            262 => Key::ArrowRight,
            264 => Key::ArrowDown,
            256 => Key::Escape,
            258 => Key::Tab,
            259 => Key::Backspace,
            32 => Key::Space,
            257 => Key::Enter,
            260 => Key::Insert,
            268 => Key::Home,
            261 => Key::Delete,
            269 => Key::End,
            267 => Key::PageDown,
            266 => Key::PageUp,
            65 => Key::A,
            66 => Key::B,
            67 => Key::C,
            68 => Key::D,
            69 => Key::E,
            70 => Key::F,
            71 => Key::G,
            72 => Key::H,
            73 => Key::I,
            74 => Key::J,
            75 => Key::K,
            76 => Key::L,
            77 => Key::M,
            78 => Key::N,
            79 => Key::O,
            80 => Key::P,
            81 => Key::Q,
            82 => Key::R,
            83 => Key::S,
            84 => Key::T,
            85 => Key::U,
            86 => Key::V,
            87 => Key::W,
            88 => Key::X,
            89 => Key::Y,
            90 => Key::Z,
            _ => {
                return None;
            },
        },
    )
}

/// The cursor shape of the windowing library that comes closest to the
/// cursor that the GUI asks for.
pub open spec fn cursor_of(cursor_icon: CursorIcon) -> StandardCursor {
    match cursor_icon {
        CursorIcon::PointingHand | CursorIcon::Grab | CursorIcon::Grabbing => StandardCursor::Hand,
        CursorIcon::ResizeHorizontal | CursorIcon::ResizeNeSw => StandardCursor::HResize,
        CursorIcon::ResizeVertical | CursorIcon::ResizeNwSe => StandardCursor::VResize,
        CursorIcon::Text => StandardCursor::IBeam,
        CursorIcon::Crosshair => StandardCursor::Crosshair,
        _ => StandardCursor::Arrow,
    }
}

/// Picks the cursor shape for the cursor that the GUI asks for.
pub fn translate_cursor(cursor_icon: CursorIcon) -> (cursor: StandardCursor)
    ensures
        cursor == cursor_of(cursor_icon),
{
    match cursor_icon {
        CursorIcon::Default => StandardCursor::Arrow,
        CursorIcon::PointingHand => StandardCursor::Hand,
        CursorIcon::ResizeHorizontal => StandardCursor::HResize,
        CursorIcon::ResizeVertical => StandardCursor::VResize,
        CursorIcon::ResizeNeSw => StandardCursor::HResize,
        CursorIcon::ResizeNwSe => StandardCursor::VResize,
        CursorIcon::Text => StandardCursor::IBeam,
        CursorIcon::Crosshair => StandardCursor::Crosshair,
        CursorIcon::NotAllowed | CursorIcon::NoDrop => StandardCursor::Arrow,
        CursorIcon::Wait => StandardCursor::Arrow,
        CursorIcon::Grab | CursorIcon::Grabbing => StandardCursor::Hand,
        _ => StandardCursor::Arrow,
    }
}

/// Tells whether [`handle_event`] can take the event.
pub fn can_handle(event: &WindowEvent) -> (ok: bool)
    ensures
        ok == handles(*event),
{
    match event {
        WindowEvent::MouseButton(button, action, _) => match action {
            Action::Repeat => true,
            _ => match button {
                MouseButton::Button1 | MouseButton::Button2 | MouseButton::Button3 => true,
                _ => false,
            },
        },
        _ => true,
    }
}

/// Turns a window event into the input events it stands for, appends them
/// to the waiting events, and keeps track of the modifier keys.
///
/// A pointer button is reported at the position that the last cursor move
/// left, with the modifiers of the last key event. A key is reported with
/// the modifiers that come with it, which then become the current ones.
pub fn handle_event(event: WindowEvent, state: &mut EguiInputState)
    requires
        handles(event),
    ensures
        final(state).pointer_pos == pointer_after(event, old(state).pointer_pos),
        final(state).modifiers == modifiers_after(event, old(state).modifiers),
        final(state).events@ == old(state).events@ + events_of(
            event,
            old(state).pointer_pos,
            old(state).modifiers,
        ),
{
    match event {
        WindowEvent::MouseButton(mouse_btn, Action::Press, _) => {
            let button = match mouse_btn {
                MouseButton::Button1 => PointerButton::Primary,
                MouseButton::Button2 => PointerButton::Secondary,
                _ => PointerButton::Middle,
            };
            state.events.push(
                Event::PointerButton {
                    pos: state.pointer_pos,
                    button,
                    pressed: true,
                    modifiers: state.modifiers,
                },
            );
        },
        WindowEvent::MouseButton(mouse_btn, Action::Release, _) => {
            let button = match mouse_btn {
                MouseButton::Button1 => PointerButton::Primary,
                MouseButton::Button2 => PointerButton::Secondary,
                _ => PointerButton::Middle,
            };
            state.events.push(
                Event::PointerButton {
                    pos: state.pointer_pos,
                    button,
                    pressed: false,
                    modifiers: state.modifiers,
                },
            );
        },
        WindowEvent::CursorPos(pos) => {
            state.pointer_pos = pos;
            state.events.push(Event::PointerMoved(pos));
        },
        WindowEvent::Key(keycode, Action::Release, keymod) => {
            if let Some(key) = translate_virtual_key_code(keycode) {
                state.modifiers = translate_modifiers(keymod);
                state.events.push(Event::Key { key, pressed: false, modifiers: state.modifiers });
            }
        },
        WindowEvent::Key(keycode, _, keymod) => {
            if let Some(key) = translate_virtual_key_code(keycode) {
                state.modifiers = translate_modifiers(keymod);
                if state.modifiers.command && key == Key::X {
                    state.events.push(Event::Cut);
                } else if state.modifiers.command && key == Key::C {
                    state.events.push(Event::Copy);
                } else if state.modifiers.command && key == Key::V {
                    state.events.push(Event::Paste);
                } else {
                    state.events.push(
                        Event::Key { key, pressed: true, modifiers: state.modifiers },
                    );
                }
            }
        },
        WindowEvent::Char(c) => {
            state.events.push(Event::Text(c));
        },
        _ => {},
    }
    assert(state.events@ =~= old(state).events@ + events_of(
        event,
        old(state).pointer_pos,
        old(state).modifiers,
    ));
}

} // verus!
