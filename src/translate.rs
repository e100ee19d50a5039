//! Pure mappings from the native windowing vocabulary to the UI engine's vocabulary.
use vstd::prelude::*;
use vstd::string::*;

verus! {

/// A mouse button as reported by the native windowing library.
#[derive(Clone, Copy, Debug, PartialEq, Eq, Structural)]
pub enum MouseButton {
    Left,
    Right,
    Middle,
    Back,
    Forward,
    Other(u8),
}

/// A pointer button as understood by the UI engine.
#[derive(Clone, Copy, Debug, PartialEq, Eq, Structural)]
pub enum PointerButton {
    Primary,
    Secondary,
    Middle,
}

pub open spec fn mouse_button_spec(button: MouseButton) -> Option<PointerButton> {
    match button {
        MouseButton::Left => Some(PointerButton::Primary),
        MouseButton::Right => Some(PointerButton::Secondary),
        MouseButton::Middle => Some(PointerButton::Middle),
        _ => None,
    }
}

/// Maps a native mouse button to the engine's button; buttons the engine has no
/// name for yield `None` and are to be dropped by the caller.
pub fn translate_mouse_button(button: MouseButton) -> (r: Option<PointerButton>)
    ensures
        r == mouse_button_spec(button),
{
    match button {
        MouseButton::Left => Some(PointerButton::Primary),
        MouseButton::Right => Some(PointerButton::Secondary),
        MouseButton::Middle => Some(PointerButton::Middle),
        _ => None,
    }
}


/// A logical key as reported by the native windowing library. Keys this layer has
/// no use for are reported as `Other`.
#[derive(Clone, Debug, PartialEq, Eq)]
pub enum Key {
    ArrowDown,
    ArrowLeft,
    ArrowRight,
    ArrowUp,
    Escape,
    Tab,
    Backspace,
    Enter,
    Insert,
    Delete,
    Home,
    End,
    PageUp,
    PageDown,
    /// The text a key produces; may hold several characters or none.
    Character(String),
    Other,
}

/// A key as understood by the UI engine.
#[derive(Clone, Copy, Debug, PartialEq, Eq, Structural)]
pub enum EngineKey {
    ArrowDown,
    ArrowLeft,
    ArrowRight,
    ArrowUp,
    Escape,
    Tab,
    Backspace,
    Enter,
    Insert,
    Delete,
    Home,
    End,
    PageUp,
    PageDown,
    Space,
    Num0,
    Num1,
    Num2,
    Num3,
    Num4,
    Num5,
    Num6,
    Num7,
    Num8,
    Num9,
    A,
    B,
    C,
    D,
    E,
    F,
    G,
    H,
    I,
    J,
    K,
    L,
    M,
    N,
    O,
    P,
    Q,
    R,
    S,
    T,
    U,
    V,
    W,
    X,
    Y,
    Z,
}

/// The engine key produced by a key that writes the single character `c`.
pub open spec fn char_key_spec(c: char) -> Option<EngineKey> {
    if c == ' ' {
        Some(EngineKey::Space)
    } else if c == '0' {
        Some(EngineKey::Num0)
    } else if c == '1' {
        Some(EngineKey::Num1)
    } else if c == '2' {
        Some(EngineKey::Num2)
    } else if c == '3' {
        Some(EngineKey::Num3)
    } else if c == '4' {
        Some(EngineKey::Num4)
    } else if c == '5' {
        Some(EngineKey::Num5)
    } else if c == '6' {
        Some(EngineKey::Num6)
    } else if c == '7' {
        Some(EngineKey::Num7)
    } else if c == '8' {
        Some(EngineKey::Num8)
    } else if c == '9' {
        Some(EngineKey::Num9)
    } else if c == 'a' {
        Some(EngineKey::A)
    } else if c == 'b' {
        Some(EngineKey::B)
    } else if c == 'c' {
        Some(EngineKey::C)
    } else if c == 'd' {
        Some(EngineKey::D)
    } else if c == 'e' {
        Some(EngineKey::E)
    } else if c == 'f' {
        Some(EngineKey::F)
    } else if c == 'g' {
        Some(EngineKey::G)
    } else if c == 'h' {
        Some(EngineKey::H)
    } else if c == 'i' {
        Some(EngineKey::I)
    } else if c == 'j' {
        Some(EngineKey::J)
    } else if c == 'k' {
        Some(EngineKey::K)
    } else if c == 'l' {
        Some(EngineKey::L)
    } else if c == 'm' {
        Some(EngineKey::M)
    } else if c == 'n' {
        Some(EngineKey::N)
    } else if c == 'o' {
        Some(EngineKey::O)
    } else if c == 'p' {
        Some(EngineKey::P)
    } else if c == 'q' {
        Some(EngineKey::Q)
    } else if c == 'r' {
        Some(EngineKey::R)
    } else if c == 's' {
        Some(EngineKey::S)
    } else if c == 't' {
        Some(EngineKey::T)
    } else if c == 'u' {
        Some(EngineKey::U)
    } else if c == 'v' {
        Some(EngineKey::V)
    } else if c == 'w' {
        Some(EngineKey::W)
    } else if c == 'x' {
        Some(EngineKey::X)
    } else if c == 'y' {
        Some(EngineKey::Y)
    } else if c == 'z' {
        Some(EngineKey::Z)
    } else {
        None
    }
}

pub open spec fn key_spec(key: &Key) -> Option<EngineKey> {
    match key {
        Key::ArrowDown => Some(EngineKey::ArrowDown),
        Key::ArrowLeft => Some(EngineKey::ArrowLeft),
        Key::ArrowRight => Some(EngineKey::ArrowRight),
        Key::ArrowUp => Some(EngineKey::ArrowUp),
        Key::Escape => Some(EngineKey::Escape),
        Key::Tab => Some(EngineKey::Tab),
        Key::Backspace => Some(EngineKey::Backspace),
        Key::Enter => Some(EngineKey::Enter),
        Key::Insert => Some(EngineKey::Insert),
        Key::Delete => Some(EngineKey::Delete),
        Key::Home => Some(EngineKey::Home),
        Key::End => Some(EngineKey::End),
        Key::PageUp => Some(EngineKey::PageUp),
        Key::PageDown => Some(EngineKey::PageDown),
        Key::Character(s) => if s@.len() == 1 {
            char_key_spec(s@[0])
        } else {
            None
        },
        Key::Other => None,
    }
}

/// The character whose key is documented to produce `e`, for the character keys.
pub open spec fn documented_char(e: EngineKey) -> Option<char> {
    match e {
        EngineKey::Space => Some(' '),
        EngineKey::Num0 => Some('0'),
        EngineKey::Num1 => Some('1'),
        EngineKey::Num2 => Some('2'),
        EngineKey::Num3 => Some('3'),
        EngineKey::Num4 => Some('4'),
        EngineKey::Num5 => Some('5'),
        EngineKey::Num6 => Some('6'),
        EngineKey::Num7 => Some('7'),
        EngineKey::Num8 => Some('8'),
        EngineKey::Num9 => Some('9'),
        EngineKey::A => Some('a'),
        EngineKey::B => Some('b'),
        EngineKey::C => Some('c'),
        EngineKey::D => Some('d'),
        EngineKey::E => Some('e'),
        EngineKey::F => Some('f'),
        EngineKey::G => Some('g'),
        EngineKey::H => Some('h'),
        EngineKey::I => Some('i'),
        EngineKey::J => Some('j'),
        EngineKey::K => Some('k'),
        EngineKey::L => Some('l'),
        EngineKey::M => Some('m'),
        EngineKey::N => Some('n'),
        EngineKey::O => Some('o'),
        EngineKey::P => Some('p'),
        EngineKey::Q => Some('q'),
        EngineKey::R => Some('r'),
        EngineKey::S => Some('s'),
        EngineKey::T => Some('t'),
        EngineKey::U => Some('u'),
        EngineKey::V => Some('v'),
        EngineKey::W => Some('w'),
        EngineKey::X => Some('x'),
        EngineKey::Y => Some('y'),
        EngineKey::Z => Some('z'),
        _ => None,
    }
}

/// The named native key documented to produce `e`, for the named keys.
pub open spec fn documented_named(e: EngineKey) -> Option<Key> {
    match e {
        EngineKey::ArrowDown => Some(Key::ArrowDown),
        EngineKey::ArrowLeft => Some(Key::ArrowLeft),
        EngineKey::ArrowRight => Some(Key::ArrowRight),
        EngineKey::ArrowUp => Some(Key::ArrowUp),
        EngineKey::Escape => Some(Key::Escape),
        EngineKey::Tab => Some(Key::Tab),
        EngineKey::Backspace => Some(Key::Backspace),
        EngineKey::Enter => Some(Key::Enter),
        EngineKey::Insert => Some(Key::Insert),
        EngineKey::Delete => Some(Key::Delete),
        EngineKey::Home => Some(Key::Home),
        EngineKey::End => Some(Key::End),
        EngineKey::PageUp => Some(Key::PageUp),
        EngineKey::PageDown => Some(Key::PageDown),
        _ => None,
    }
}

/// The native keys that have an engine counterpart: the named navigation and
/// editing keys, and the keys writing one lowercase ASCII letter, digit or space.
pub open spec fn is_supported_key(key: &Key) -> bool {
    match key {
        Key::Character(s) => s@.len() == 1 && (s@[0] == ' ' || ('0' <= s@[0] && s@[0] <= '9') || (
        'a' <= s@[0] && s@[0] <= 'z')),
        Key::Other => false,
        _ => true,
    }
}

fn translate_char(c: char) -> (r: Option<EngineKey>)
    ensures
        r == char_key_spec(c),
{
    match c {
        ' ' => Some(EngineKey::Space),
        '0' => Some(EngineKey::Num0),
        '1' => Some(EngineKey::Num1),
        '2' => Some(EngineKey::Num2),
        '3' => Some(EngineKey::Num3),
        '4' => Some(EngineKey::Num4),
        '5' => Some(EngineKey::Num5),
        '6' => Some(EngineKey::Num6),
        '7' => Some(EngineKey::Num7),
        '8' => Some(EngineKey::Num8),
        '9' => Some(EngineKey::Num9),
        'a' => Some(EngineKey::A),
        'b' => Some(EngineKey::B),
        'c' => Some(EngineKey::C),
        'd' => Some(EngineKey::D),
        'e' => Some(EngineKey::E),
        'f' => Some(EngineKey::F),
        'g' => Some(EngineKey::G),
        'h' => Some(EngineKey::H),
        'i' => Some(EngineKey::I),
        'j' => Some(EngineKey::J),
        'k' => Some(EngineKey::K),
        'l' => Some(EngineKey::L),
        'm' => Some(EngineKey::M),
        'n' => Some(EngineKey::N),
        'o' => Some(EngineKey::O),
        'p' => Some(EngineKey::P),
        'q' => Some(EngineKey::Q),
        'r' => Some(EngineKey::R),
        's' => Some(EngineKey::S),
        't' => Some(EngineKey::T),
        'u' => Some(EngineKey::U),
        'v' => Some(EngineKey::V),
        'w' => Some(EngineKey::W),
        'x' => Some(EngineKey::X),
        'y' => Some(EngineKey::Y),
        'z' => Some(EngineKey::Z),
        _ => None,
    }
}

/// Maps a native key to the engine's key: the named keys one for one, and a key
/// writing exactly one lowercase ASCII letter, digit or space to its letter, number
/// or space key. Every other key yields `None` and is dropped by the caller.
pub fn translate_virtual_key(key: &Key) -> (r: Option<EngineKey>)
    ensures
        r == key_spec(key),
{
    match key {
        Key::ArrowDown => Some(EngineKey::ArrowDown),
        Key::ArrowLeft => Some(EngineKey::ArrowLeft),
        Key::ArrowRight => Some(EngineKey::ArrowRight),
        Key::ArrowUp => Some(EngineKey::ArrowUp),
        Key::Escape => Some(EngineKey::Escape),
        Key::Tab => Some(EngineKey::Tab),
        Key::Backspace => Some(EngineKey::Backspace),
        Key::Enter => Some(EngineKey::Enter),
        Key::Insert => Some(EngineKey::Insert),
        Key::Delete => Some(EngineKey::Delete),
        Key::Home => Some(EngineKey::Home),
        Key::End => Some(EngineKey::End),
        Key::PageUp => Some(EngineKey::PageUp),
        Key::PageDown => Some(EngineKey::PageDown),
        Key::Character(s) => {
            let text = s.as_str();
            if text.unicode_len() == 1 {
                translate_char(text.get_char(0))
            } else {
                None
            }
        },
        Key::Other => None,
    }
}

/// Every engine key is reached from exactly one native key, the documented one,
/// and a native key is translated exactly when it is in the supported set.
pub proof fn lemma_key_round_trip(e: EngineKey, key: Key)
    ensures
        documented_named(e).is_some() != documented_char(e).is_some(),
        documented_named(e) matches Some(k) ==> key_spec(&k) == Some(e),
        documented_char(e) matches Some(c) ==> char_key_spec(c) == Some(e),
        key_spec(&key) == Some(e) ==> (key == documented_named(e)->0 || (key matches Key::Character(s)
            && s@ == seq![documented_char(e)->0])),
        key_spec(&key).is_some() <==> is_supported_key(&key),
{
    if let Key::Character(s) = key {
        if key_spec(&key) == Some(e) {
            assert(s@ =~= seq![documented_char(e)->0]);
        }
    }
}

/// A cursor shape requested by the UI engine.
#[derive(Clone, Copy, Debug, PartialEq, Eq, Structural)]
pub enum CursorIcon {
    Default,
    /// No cursor is shown.
    Hidden,
    ContextMenu,
    Help,
    PointingHand,
    Progress,
    Wait,
    Cell,
    Crosshair,
    Text,
    VerticalText,
    Alias,
    Copy,
    Move,
    NoDrop,
    NotAllowed,
    Grab,
    Grabbing,
    AllScroll,
    ResizeHorizontal,
    ResizeNeSw,
    ResizeNwSe,
    ResizeVertical,
    ResizeEast,
    ResizeSouthEast,
    ResizeSouth,
    ResizeSouthWest,
    ResizeWest,
    ResizeNorthWest,
    ResizeNorth,
    ResizeNorthEast,
    ResizeColumn,
    ResizeRow,
    ZoomIn,
    ZoomOut,
}

/// A cursor shape the native windowing library can show.
#[derive(Clone, Copy, Debug, PartialEq, Eq, Structural)]
pub enum NativeCursor {
    Default,
    Hidden,
    Hand,
    Help,
    PtrWorking,
    Working,
    Cell,
    Crosshair,
    Text,
    VerticalText,
    Alias,
    Copy,
    Move,
    NotAllowed,
    HandGrabbing,
    AllScroll,
    EwResize,
    NeswResize,
    NwseResize,
    NsResize,
    EResize,
    SeResize,
    SResize,
    SwResize,
    WResize,
    NwResize,
    NResize,
    NeResize,
    ColResize,
    RowResize,
    ZoomIn,
    ZoomOut,
}

/// The nearest native shape for each engine cursor. Several engine cursors share a
/// native shape where the native set has no exact counterpart.
pub open spec fn cursor_spec(cursor: CursorIcon) -> NativeCursor {
    match cursor {
        CursorIcon::Default => NativeCursor::Default,
        CursorIcon::Hidden => NativeCursor::Hidden,
        // no context-menu shape natively; the pointing hand is closest
        CursorIcon::ContextMenu => NativeCursor::Hand,
        CursorIcon::Help => NativeCursor::Help,
        CursorIcon::PointingHand => NativeCursor::Hand,
        CursorIcon::Progress => NativeCursor::PtrWorking,
        CursorIcon::Wait => NativeCursor::Working,
        CursorIcon::Cell => NativeCursor::Cell,
        CursorIcon::Crosshair => NativeCursor::Crosshair,
        CursorIcon::Text => NativeCursor::Text,
        CursorIcon::VerticalText => NativeCursor::VerticalText,
        CursorIcon::Alias => NativeCursor::Alias,
        CursorIcon::Copy => NativeCursor::Copy,
        CursorIcon::Move => NativeCursor::Move,
        // no separate no-drop shape natively
        CursorIcon::NoDrop => NativeCursor::NotAllowed,
        CursorIcon::NotAllowed => NativeCursor::NotAllowed,
        // no open-hand shape natively; the pointing hand is closest
        CursorIcon::Grab => NativeCursor::Hand,
        CursorIcon::Grabbing => NativeCursor::HandGrabbing,
        CursorIcon::AllScroll => NativeCursor::AllScroll,
        CursorIcon::ResizeHorizontal => NativeCursor::EwResize,
        CursorIcon::ResizeNeSw => NativeCursor::NeswResize,
        CursorIcon::ResizeNwSe => NativeCursor::NwseResize,
        CursorIcon::ResizeVertical => NativeCursor::NsResize,
        CursorIcon::ResizeEast => NativeCursor::EResize,
        CursorIcon::ResizeSouthEast => NativeCursor::SeResize,
        CursorIcon::ResizeSouth => NativeCursor::SResize,
        CursorIcon::ResizeSouthWest => NativeCursor::SwResize,
        CursorIcon::ResizeWest => NativeCursor::WResize,
        CursorIcon::ResizeNorthWest => NativeCursor::NwResize,
        CursorIcon::ResizeNorth => NativeCursor::NResize,
        CursorIcon::ResizeNorthEast => NativeCursor::NeResize,
        CursorIcon::ResizeColumn => NativeCursor::ColResize,
        CursorIcon::ResizeRow => NativeCursor::RowResize,
        CursorIcon::ZoomIn => NativeCursor::ZoomIn,
        CursorIcon::ZoomOut => NativeCursor::ZoomOut,
    }
}

/// Maps an engine cursor to the nearest native cursor shape.
pub fn translate_cursor_icon(cursor: CursorIcon) -> (r: NativeCursor)
    ensures
        r == cursor_spec(cursor),
{
    match cursor {
        CursorIcon::Default => NativeCursor::Default,
        CursorIcon::Hidden => NativeCursor::Hidden,
        // no context-menu shape natively; the pointing hand is closest
        CursorIcon::ContextMenu => NativeCursor::Hand,
        CursorIcon::Help => NativeCursor::Help,
        CursorIcon::PointingHand => NativeCursor::Hand,
        CursorIcon::Progress => NativeCursor::PtrWorking,
        CursorIcon::Wait => NativeCursor::Working,
        CursorIcon::Cell => NativeCursor::Cell,
        CursorIcon::Crosshair => NativeCursor::Crosshair,
        CursorIcon::Text => NativeCursor::Text,
        CursorIcon::VerticalText => NativeCursor::VerticalText,
        CursorIcon::Alias => NativeCursor::Alias,
        CursorIcon::Copy => NativeCursor::Copy,
        CursorIcon::Move => NativeCursor::Move,
        // no separate no-drop shape natively
        CursorIcon::NoDrop => NativeCursor::NotAllowed,
        CursorIcon::NotAllowed => NativeCursor::NotAllowed,
        // no open-hand shape natively; the pointing hand is closest
        CursorIcon::Grab => NativeCursor::Hand,
        CursorIcon::Grabbing => NativeCursor::HandGrabbing,
        CursorIcon::AllScroll => NativeCursor::AllScroll,
        CursorIcon::ResizeHorizontal => NativeCursor::EwResize,
        CursorIcon::ResizeNeSw => NativeCursor::NeswResize,
        CursorIcon::ResizeNwSe => NativeCursor::NwseResize,
        CursorIcon::ResizeVertical => NativeCursor::NsResize,
        CursorIcon::ResizeEast => NativeCursor::EResize,
        CursorIcon::ResizeSouthEast => NativeCursor::SeResize,
        CursorIcon::ResizeSouth => NativeCursor::SResize,
        CursorIcon::ResizeSouthWest => NativeCursor::SwResize,
        CursorIcon::ResizeWest => NativeCursor::WResize,
        CursorIcon::ResizeNorthWest => NativeCursor::NwResize,
        CursorIcon::ResizeNorth => NativeCursor::NResize,
        CursorIcon::ResizeNorthEast => NativeCursor::NeResize,
        CursorIcon::ResizeColumn => NativeCursor::ColResize,
        CursorIcon::ResizeRow => NativeCursor::RowResize,
        CursorIcon::ZoomIn => NativeCursor::ZoomIn,
        CursorIcon::ZoomOut => NativeCursor::ZoomOut,
    }
}

} // verus!
