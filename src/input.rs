//! Native input events, the engine's events, and the pure rules that connect them:
//! modifier tracking, wheel conversion and clipboard shortcuts.
use vstd::prelude::*;
use crate::translate::{EngineKey, Key, MouseButton, PointerButton};
use crate::units::{PhysicalSize, Scale, POINTS_PER_SCROLL_LINE};

verus! {

/// The platform family whose modifier and shortcut conventions apply, chosen once
/// at startup.
#[derive(Clone, Copy, Debug, PartialEq, Eq, Structural)]
pub enum Platform {
    MacOs,
    Windows,
    Other,
}

/// The modifier keys as the UI engine tracks them. `command` is the primary
/// shortcut modifier: Control, or Command on macOS.
#[derive(Clone, Copy, Debug, PartialEq, Eq, Structural)]
pub struct Modifiers {
    pub alt: bool,
    pub ctrl: bool,
    pub shift: bool,
    pub mac_cmd: bool,
    pub command: bool,
}

impl Modifiers {
    /// No modifier held.
    pub fn none() -> (r: Modifiers)
        ensures
            !r.alt && !r.ctrl && !r.shift && !r.mac_cmd && !r.command,
    {
        Modifiers { alt: false, ctrl: false, shift: false, mac_cmd: false, command: false }
    }
}

/// The modifier snapshot that the native library attaches to each mouse event.
#[derive(Clone, Copy, Debug, PartialEq, Eq, Structural)]
pub struct NativeModifiers {
    pub alt: bool,
    pub control: bool,
    pub shift: bool,
    pub meta: bool,
}

/// A physical key position; only those this layer reacts to are told apart.
#[derive(Clone, Copy, Debug, PartialEq, Eq, Structural)]
pub enum Code {
    ShiftLeft,
    ShiftRight,
    ControlLeft,
    ControlRight,
    AltLeft,
    AltRight,
    MetaLeft,
    MetaRight,
    KeyC,
    KeyV,
    KeyX,
    Insert,
    Delete,
    Other,
}

/// A position in thousandths of a logical point.
#[derive(Clone, Copy, Debug, PartialEq, Eq, Structural)]
pub struct Point {
    pub x: i64,
    pub y: i64,
}

/// A displacement or extent in thousandths of a logical point.
#[derive(Clone, Copy, Debug, PartialEq, Eq, Structural)]
pub struct Vec2 {
    pub x: i64,
    pub y: i64,
}

/// A wheel movement as the native library reports it, in thousandths of a line
/// or of a physical pixel.
#[derive(Clone, Copy, Debug, PartialEq, Eq, Structural)]
pub enum ScrollDelta {
    Lines { x: i32, y: i32 },
    Pixels { x: i32, y: i32 },
}

#[derive(Clone, Copy, Debug, PartialEq, Eq, Structural)]
pub enum MouseEvent {
    CursorMoved { position: Point, modifiers: NativeModifiers },
    ButtonPressed { button: MouseButton, modifiers: NativeModifiers },
    ButtonReleased { button: MouseButton, modifiers: NativeModifiers },
    WheelScrolled { delta: ScrollDelta, modifiers: NativeModifiers },
    CursorEntered,
    CursorLeft,
}

#[derive(Clone, Debug, PartialEq, Eq)]
pub struct KeyboardEvent {
    pub key: Key,
    pub code: Code,
    pub pressed: bool,
    pub repeat: bool,
}

#[derive(Clone, Copy, Debug, PartialEq, Eq, Structural)]
pub enum WindowEvent {
    /// The window now has `physical` pixels; `system_scale` is the system's
    /// current pixels-per-point.
    Resized { physical: PhysicalSize, system_scale: Scale },
    Focused,
    Unfocused,
    WillClose,
}

impl WindowEvent {
    pub open spec fn wf(&self) -> bool {
        self matches WindowEvent::Resized { system_scale, .. } ==> system_scale.wf()
    }
}

/// An event delivered by the native windowing library.
#[derive(Clone, Debug, PartialEq, Eq)]
pub enum NativeEvent {
    Mouse(MouseEvent),
    Keyboard(KeyboardEvent),
    Window(WindowEvent),
}

/// An input event in the UI engine's vocabulary.
#[derive(Clone, Debug, PartialEq, Eq)]
pub enum Event {
    PointerMoved(Point),
    PointerButton { pos: Point, button: PointerButton, pressed: bool, modifiers: Modifiers },
    /// Scroll by this many thousandths of a point.
    Scroll(Vec2),
    /// Zoom by the factor `exp(delta_y / 200_000)`, from a wheel movement of
    /// `delta_y` thousandths of a point.
    Zoom { delta_y: i64 },
    PointerGone,
    Key { key: EngineKey, pressed: bool, repeat: bool, modifiers: Modifiers },
    Cut,
    Copy,
    Text(String),
    WindowFocused(bool),
}

/// The modifiers after a mouse event: its own snapshot decides alt, shift and
/// the primary modifier.
pub open spec fn snapshot_modifiers_spec(current: Modifiers, snapshot: NativeModifiers) -> Modifiers {
    Modifiers { alt: snapshot.alt, shift: snapshot.shift, command: snapshot.control, ..current }
}

pub fn snapshot_modifiers(current: Modifiers, snapshot: NativeModifiers) -> (r: Modifiers)
    ensures
        r == snapshot_modifiers_spec(current, snapshot),
{
    Modifiers { alt: snapshot.alt, shift: snapshot.shift, command: snapshot.control, ..current }
}

/// The modifiers after a key goes down (`pressed`) or up at `code`.
pub open spec fn key_modifiers_spec(current: Modifiers, code: Code, pressed: bool, platform: Platform) -> Modifiers {
    match code {
        Code::ShiftLeft | Code::ShiftRight => Modifiers { shift: pressed, ..current },
        Code::ControlLeft | Code::ControlRight => if platform == Platform::MacOs {
            Modifiers { ctrl: pressed, ..current }
        } else {
            Modifiers { ctrl: pressed, command: pressed, ..current }
        },
        Code::AltLeft | Code::AltRight => Modifiers { alt: pressed, ..current },
        Code::MetaLeft | Code::MetaRight => if platform == Platform::MacOs {
            Modifiers { mac_cmd: pressed, command: pressed, ..current }
        } else {
            current
        },
        _ => current,
    }
}

pub fn key_modifiers(current: Modifiers, code: Code, pressed: bool, platform: Platform) -> (r: Modifiers)
    ensures
        r == key_modifiers_spec(current, code, pressed, platform),
{
    match code {
        Code::ShiftLeft | Code::ShiftRight => Modifiers { shift: pressed, ..current },
        Code::ControlLeft | Code::ControlRight => {
            if platform == Platform::MacOs {
                Modifiers { ctrl: pressed, ..current }
            } else {
                Modifiers { ctrl: pressed, command: pressed, ..current }
            }
        },
        Code::AltLeft | Code::AltRight => Modifiers { alt: pressed, ..current },
        Code::MetaLeft | Code::MetaRight => {
            if platform == Platform::MacOs {
                Modifiers { mac_cmd: pressed, command: pressed, ..current }
            } else {
                current
            }
        },
        _ => current,
    }
}

pub open spec fn is_cut_spec(m: Modifiers, code: Code, platform: Platform) -> bool {
    (m.command && code == Code::KeyX) || (platform == Platform::Windows && m.shift && code
        == Code::Delete)
}

pub open spec fn is_copy_spec(m: Modifiers, code: Code, platform: Platform) -> bool {
    (m.command && code == Code::KeyC) || (platform == Platform::Windows && m.ctrl && code
        == Code::Insert)
}

pub open spec fn is_paste_spec(m: Modifiers, code: Code, platform: Platform) -> bool {
    (m.command && code == Code::KeyV) || (platform == Platform::Windows && m.shift && code
        == Code::Insert)
}

/// Primary modifier with X, or on Windows Shift with Delete.
pub fn is_cut_command(m: Modifiers, code: Code, platform: Platform) -> (r: bool)
    ensures
        r == is_cut_spec(m, code, platform),
{
    (m.command && code == Code::KeyX) || (platform == Platform::Windows && m.shift && code
        == Code::Delete)
}

/// Primary modifier with C, or on Windows Control with Insert.
pub fn is_copy_command(m: Modifiers, code: Code, platform: Platform) -> (r: bool)
    ensures
        r == is_copy_spec(m, code, platform),
{
    (m.command && code == Code::KeyC) || (platform == Platform::Windows && m.ctrl && code
        == Code::Insert)
}

/// Primary modifier with V, or on Windows Shift with Insert.
pub fn is_paste_command(m: Modifiers, code: Code, platform: Platform) -> (r: bool)
    ensures
        r == is_paste_spec(m, code, platform),
{
    (m.command && code == Code::KeyV) || (platform == Platform::Windows && m.shift && code
        == Code::Insert)
}

/// `v` thousandths of a pixel in thousandths of a point at `scale`, truncated
/// toward zero.
pub open spec fn pixels_to_points_spec(v: int, scale: Scale) -> int {
    if v >= 0 {
        v * scale.den / (scale.num as int)
    } else {
        -((-v) * scale.den / (scale.num as int))
    }
}

fn pixels_to_points(v: i32, scale: Scale) -> (r: i64)
    requires
        scale.wf(),
    ensures
        r == pixels_to_points_spec(v as int, scale),
        -0x8000_0000_0000 < r < 0x8000_0000_0000,
{
    let m: u64 = if v >= 0 {
        v as u64
    } else {
        (-(v as i64)) as u64
    };
    proof {
        assert(m * scale.den < 0x8000_0000_0000) by (nonlinear_arith)
            requires
                m <= 0x8000_0000,
                scale.den <= 0xffff,
        ;
        assert(m * scale.den / (scale.num as int) <= m * scale.den) by (nonlinear_arith)
            requires
                scale.num >= 1,
                m * scale.den >= 0,
        ;
    }
    let q: u64 = (m * scale.den as u64) / scale.num as u64;
    if v >= 0 {
        q as i64
    } else {
        -(q as i64)
    }
}

/// A wheel movement in thousandths of a point: lines at a fixed number of points
/// per line, pixels at the current scale. On macOS the horizontal part is
/// negated, countering the native library's sign.
pub open spec fn scroll_points_spec(delta: ScrollDelta, scale: Scale, platform: Platform) -> Vec2 {
    let v = match delta {
        ScrollDelta::Lines { x, y } => Vec2 {
            x: (x * POINTS_PER_SCROLL_LINE) as i64,
            y: (y * POINTS_PER_SCROLL_LINE) as i64,
        },
        ScrollDelta::Pixels { x, y } => Vec2 {
            x: pixels_to_points_spec(x as int, scale) as i64,
            y: pixels_to_points_spec(y as int, scale) as i64,
        },
    };
    if platform == Platform::MacOs {
        Vec2 { x: -v.x as i64, ..v }
    } else {
        v
    }
}

pub open spec fn scroll_bounded(v: Vec2) -> bool {
    -0x8000_0000_0000 < v.x < 0x8000_0000_0000 && -0x8000_0000_0000 < v.y < 0x8000_0000_0000
}

pub fn scroll_points(delta: ScrollDelta, scale: Scale, platform: Platform) -> (r: Vec2)
    requires
        scale.wf(),
    ensures
        r == scroll_points_spec(delta, scale, platform),
        scroll_bounded(r),
{
    let v = match delta {
        ScrollDelta::Lines { x, y } => Vec2 {
            x: x as i64 * POINTS_PER_SCROLL_LINE,
            y: y as i64 * POINTS_PER_SCROLL_LINE,
        },
        ScrollDelta::Pixels { x, y } => Vec2 {
            x: pixels_to_points(x, scale),
            y: pixels_to_points(y, scale),
        },
    };
    if platform == Platform::MacOs {
        Vec2 { x: -v.x, ..v }
    } else {
        v
    }
}

/// The engine event for a wheel movement of `v` under modifiers `m`: a zoom with
/// the primary modifier or Control held, else a horizontal scroll with Shift
/// held, else a plain scroll.
pub open spec fn wheel_event_spec(v: Vec2, m: Modifiers) -> Event {
    if m.ctrl || m.command {
        Event::Zoom { delta_y: v.y }
    } else if m.shift {
        Event::Scroll(Vec2 { x: (v.x + v.y) as i64, y: 0 })
    } else {
        Event::Scroll(v)
    }
}

pub fn wheel_event(v: Vec2, m: Modifiers) -> (r: Event)
    requires
        scroll_bounded(v),
    ensures
        r == wheel_event_spec(v, m),
{
    if m.ctrl || m.command {
        Event::Zoom { delta_y: v.y }
    } else if m.shift {
        Event::Scroll(Vec2 { x: v.x + v.y, y: 0 })
    } else {
        Event::Scroll(v)
    }
}

} // verus!
