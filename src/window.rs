//! The window adapter: per-window state, input accumulation between ticks, and the
//! per-tick decisions on rendering, resizing, clipboard, cursor and closing.
use vstd::prelude::*;
use crate::input::{
    is_copy_command, is_copy_spec, is_cut_command, is_cut_spec, is_paste_command, is_paste_spec,
    key_modifiers, key_modifiers_spec, scroll_points, scroll_points_spec, snapshot_modifiers,
    snapshot_modifiers_spec, wheel_event, wheel_event_spec, Event, KeyboardEvent, Modifiers,
    MouseEvent, NativeEvent, Platform, Point, Vec2, WindowEvent,
};
use crate::translate::{
    cursor_spec, key_spec, mouse_button_spec, translate_cursor_icon, translate_mouse_button,
    translate_virtual_key, CursorIcon, Key, MouseButton, NativeCursor,
};
use crate::units::{
    logical_from_physical, physical_from_logical, round_div, sizes_agree, LogicalSize,
    PhysicalSize, Scale, MILLI,
};

verus! {

/// An 8-bit sRGB color with alpha.
#[derive(Clone, Copy, Debug, PartialEq, Eq, Structural)]
pub struct Color {
    pub r: u8,
    pub g: u8,
    pub b: u8,
    pub a: u8,
}

impl Color {
    /// Opaque black.
    pub fn black() -> (c: Color)
        ensures
            c == (Color { r: 0, g: 0, b: 0, a: 255 }),
    {
        Color { r: 0, g: 0, b: 0, a: 255 }
    }
}

/// The capability handed to the user's callbacks for one tick: it can set the
/// background color and ask for the window to close, and nothing else.
pub struct Queue {
    bg_color: Color,
    close_requested: bool,
}

impl Queue {
    pub closed spec fn requested_bg_color(&self) -> Color {
        self.bg_color
    }

    pub closed spec fn requested_close(&self) -> bool {
        self.close_requested
    }

    /// A queue that keeps `bg_color` and asks for nothing.
    pub fn new(bg_color: Color) -> (q: Queue)
        ensures
            q.requested_bg_color() == bg_color,
            !q.requested_close(),
    {
        Queue { bg_color, close_requested: false }
    }

    /// Set the background color.
    pub fn bg_color(&mut self, bg_color: Color)
        ensures
            final(self).requested_bg_color() == bg_color,
            final(self).requested_close() == old(self).requested_close(),
    {
        self.bg_color = bg_color;
    }

    /// Close the window.
    pub fn close_window(&mut self)
        ensures
            final(self).requested_bg_color() == old(self).requested_bg_color(),
            final(self).requested_close(),
    {
        self.close_requested = true;
    }
}

/// How pixels-per-point is chosen: from the system on every resize, or fixed.
#[derive(Clone, Copy, Debug, PartialEq, Eq, Structural)]
pub enum ScalePolicy {
    SystemScaleFactor,
    Fixed(Scale),
}

impl ScalePolicy {
    pub open spec fn wf(&self) -> bool {
        self matches ScalePolicy::Fixed(s) ==> s.wf()
    }
}

/// What a window is opened with: its scale policy, its size in logical points and
/// its title.
#[derive(Clone, Debug, PartialEq, Eq)]
pub struct OpenSettings {
    pub scale_policy: ScalePolicy,
    pub logical_width: u32,
    pub logical_height: u32,
    pub title: String,
}

/// The scale a window starts with, before any resize reports the system's.
pub open spec fn initial_scale_spec(policy: ScalePolicy) -> Scale {
    match policy {
        ScalePolicy::Fixed(s) => s,
        ScalePolicy::SystemScaleFactor => Scale { num: 1, den: 1 },
    }
}

/// The scale in force after a resize that reports `system_scale`.
pub open spec fn resized_scale_spec(policy: ScalePolicy, system_scale: Scale) -> Scale {
    match policy {
        ScalePolicy::Fixed(s) => s,
        ScalePolicy::SystemScaleFactor => system_scale,
    }
}

/// The window's size and pixels-per-point.
#[derive(Clone, Copy, Debug, PartialEq, Eq, Structural)]
pub struct Geometry {
    pub pixels_per_point: Scale,
    pub physical: PhysicalSize,
    pub logical: LogicalSize,
}

impl Geometry {
    /// The physical size is the logical size at the current scale, rounded.
    pub open spec fn wf(&self) -> bool {
        self.pixels_per_point.wf() && sizes_agree(self.physical, self.logical, self.pixels_per_point)
    }
}

/// Input state carried from one native event to the next.
#[derive(Clone, Copy, Debug, PartialEq, Eq, Structural)]
pub struct InputState {
    /// Where the pointer is; `None` while it is outside the window.
    pub pointer_pos: Option<Point>,
    pub modifiers: Modifiers,
    pub focused: bool,
}

/// State of the per-tick scheduler.
#[derive(Clone, Copy, Debug, PartialEq, Eq, Structural)]
pub struct Schedule {
    /// When `Some(t)`, a render is due once the time reaches `t`; when `None`,
    /// the last tick rendered and nothing is due.
    pub repaint_after: Option<u64>,
    /// Set once a close has been issued; no render follows.
    pub closing: bool,
    /// The cursor last applied to the native window.
    pub cursor: NativeCursor,
    pub bg_color: Color,
}

/// The state of one embedded UI window. Times are nanoseconds on the caller's
/// monotonic clock.
pub struct EguiWindow {
    pub platform: Platform,
    pub scale_policy: ScalePolicy,
    pub title: String,
    pub start_time: u64,
    pub max_texture_side: usize,
    pub geometry: Geometry,
    pub input: InputState,
    /// Engine events gathered since the last tick, in arrival order.
    pub events: Vec<Event>,
    pub schedule: Schedule,
}

/// The input handed to the UI engine at the start of a tick.
pub struct RawInput {
    /// Nanoseconds since the window opened.
    pub time: u64,
    pub events: Vec<Event>,
    pub screen_size: LogicalSize,
    pub pixels_per_point: Scale,
    pub focused: bool,
    pub max_texture_side: usize,
}

/// A command the UI engine issues for its viewport.
#[derive(Clone, Copy, Debug, PartialEq, Eq, Structural)]
pub enum ViewportCommand {
    Close,
    /// Resize to this many thousandths of a logical point.
    InnerSize { width: i64, height: i64 },
    Other,
}

/// The engine's output for the tracked viewport.
pub struct ViewportOutput {
    pub commands: Vec<ViewportCommand>,
    /// Nanoseconds until the engine next needs a render; zero asks for one now.
    pub repaint_delay: u64,
}

/// What the UI engine produced at the end of a tick, besides its shapes and
/// texture changes, which go to the renderer untouched.
pub struct FrameOutput {
    /// `None` where the engine reported nothing for the tracked viewport.
    pub viewport: Option<ViewportOutput>,
    pub copied_text: String,
    pub cursor_icon: CursorIcon,
}

/// What the caller does to the native window and clipboard after a tick.
pub struct FrameActions {
    pub close: bool,
    /// Sizes to resize the window to, in order, in thousandths of a point.
    pub resizes: Vec<Vec2>,
    pub render: bool,
    /// Text to place on the clipboard.
    pub copy_text: Option<String>,
    /// A cursor to apply, where it differs from the one shown.
    pub set_cursor: Option<NativeCursor>,
}

impl EguiWindow {
    pub open spec fn wf(&self) -> bool {
        self.scale_policy.wf() && self.geometry.wf()
    }

    /// `self` and `other` agree on what is fixed when the window opens.
    pub open spec fn same_settings(&self, other: &EguiWindow) -> bool {
        &&& self.platform == other.platform
        &&& self.scale_policy == other.scale_policy
        &&& self.title == other.title
        &&& self.start_time == other.start_time
        &&& self.max_texture_side == other.max_texture_side
    }
}

// Mouse events.

/// The input state after a mouse event.
pub open spec fn mouse_input_spec(input: InputState, ev: MouseEvent) -> InputState {
    match ev {
        MouseEvent::CursorMoved { position, modifiers } => InputState {
            pointer_pos: Some(position),
            modifiers: snapshot_modifiers_spec(input.modifiers, modifiers),
            ..input
        },
        MouseEvent::ButtonPressed { modifiers, .. } => InputState {
            modifiers: snapshot_modifiers_spec(input.modifiers, modifiers),
            ..input
        },
        MouseEvent::ButtonReleased { modifiers, .. } => InputState {
            modifiers: snapshot_modifiers_spec(input.modifiers, modifiers),
            ..input
        },
        MouseEvent::WheelScrolled { modifiers, .. } => InputState {
            modifiers: snapshot_modifiers_spec(input.modifiers, modifiers),
            ..input
        },
        MouseEvent::CursorEntered => input,
        MouseEvent::CursorLeft => InputState { pointer_pos: None, ..input },
    }
}

/// The button event for `button`, where the pointer position is known and the
/// engine has the button; nothing otherwise.
pub open spec fn button_events_spec(input: InputState, button: MouseButton, pressed: bool) -> Seq<Event> {
    match (input.pointer_pos, mouse_button_spec(button)) {
        (Some(pos), Some(b)) => seq![
            Event::PointerButton { pos, button: b, pressed, modifiers: input.modifiers },
        ],
        _ => seq![],
    }
}

/// The engine events a mouse event produces.
pub open spec fn mouse_events_spec(input: InputState, scale: Scale, platform: Platform, ev: MouseEvent) -> Seq<Event> {
    let next = mouse_input_spec(input, ev);
    match ev {
        MouseEvent::CursorMoved { position, .. } => seq![Event::PointerMoved(position)],
        MouseEvent::ButtonPressed { button, .. } => button_events_spec(next, button, true),
        MouseEvent::ButtonReleased { button, .. } => button_events_spec(next, button, false),
        MouseEvent::WheelScrolled { delta, .. } => seq![
            wheel_event_spec(scroll_points_spec(delta, scale, platform), next.modifiers),
        ],
        MouseEvent::CursorEntered => seq![],
        MouseEvent::CursorLeft => seq![Event::PointerGone],
    }
}

pub open spec fn mouse_applied(old: &EguiWindow, new: &EguiWindow, ev: MouseEvent) -> bool {
    &&& new.same_settings(old)
    &&& new.geometry == old.geometry
    &&& new.schedule == old.schedule
    &&& new.input == mouse_input_spec(old.input, ev)
    &&& new.events@ == old.events@ + mouse_events_spec(
        old.input,
        old.geometry.pixels_per_point,
        old.platform,
        ev,
    )
}

// Keyboard events.

/// Whether a character typed under `m` is text input: no modifier but Shift held.
pub open spec fn writes_text(m: Modifiers) -> bool {
    !m.ctrl && !m.command && !m.alt && !m.mac_cmd
}

/// The engine events a key event produces, given the modifiers after it: the key
/// itself where the engine has it, then on a press the clipboard intent, or the
/// typed text.
pub open spec fn keyboard_events_spec(m: Modifiers, ev: KeyboardEvent, platform: Platform) -> Seq<Event> {
    let key_part = match key_spec(&ev.key) {
        Some(k) => seq![Event::Key { key: k, pressed: ev.pressed, repeat: ev.repeat, modifiers: m }],
        None => seq![],
    };
    let press_part = if !ev.pressed {
        seq![]
    } else if is_cut_spec(m, ev.code, platform) {
        seq![Event::Cut]
    } else if is_copy_spec(m, ev.code, platform) {
        seq![Event::Copy]
    } else if is_paste_spec(m, ev.code, platform) {
        seq![]
    } else {
        match ev.key {
            Key::Character(s) => if writes_text(m) {
                seq![Event::Text(s)]
            } else {
                seq![]
            },
            _ => seq![],
        }
    };
    key_part + press_part
}

/// Whether a key event, under the modifiers after it, is the paste shortcut.
pub open spec fn paste_requested_spec(m: Modifiers, ev: KeyboardEvent, platform: Platform) -> bool {
    ev.pressed && !is_cut_spec(m, ev.code, platform) && !is_copy_spec(m, ev.code, platform)
        && is_paste_spec(m, ev.code, platform)
}

pub open spec fn keyboard_applied(old: &EguiWindow, new: &EguiWindow, ev: KeyboardEvent, paste: bool) -> bool {
    let m = key_modifiers_spec(old.input.modifiers, ev.code, ev.pressed, old.platform);
    &&& new.same_settings(old)
    &&& new.geometry == old.geometry
    &&& new.schedule == old.schedule
    &&& new.input == InputState { modifiers: m, ..old.input }
    &&& new.events@ == old.events@ + keyboard_events_spec(m, ev, old.platform)
    &&& paste == paste_requested_spec(m, ev, old.platform)
}

// Window events.

/// The geometry after a window event.
pub open spec fn window_geometry_spec(old: Geometry, policy: ScalePolicy, ev: WindowEvent) -> Geometry {
    match ev {
        WindowEvent::Resized { physical, system_scale } => {
            let s = resized_scale_spec(policy, system_scale);
            Geometry {
                pixels_per_point: s,
                physical,
                logical: LogicalSize {
                    width_num: (physical.width * s.den) as u64,
                    height_num: (physical.height * s.den) as u64,
                    den: s.num as u64,
                },
            }
        },
        _ => old,
    }
}

pub open spec fn window_applied(old: &EguiWindow, new: &EguiWindow, ev: WindowEvent, now: u64) -> bool {
    &&& new.same_settings(old)
    &&& new.geometry == window_geometry_spec(old.geometry, old.scale_policy, ev)
    &&& match ev {
        WindowEvent::Resized { .. } => {
            &&& new.input == old.input
            &&& new.events@ == old.events@
            &&& new.schedule == (Schedule { repaint_after: Some(now), ..old.schedule })
        },
        WindowEvent::Focused => {
            &&& new.input == (InputState { focused: true, ..old.input })
            &&& new.events@ == old.events@.push(Event::WindowFocused(true))
            &&& new.schedule == old.schedule
        },
        WindowEvent::Unfocused => {
            &&& new.input == (InputState { focused: false, ..old.input })
            &&& new.events@ == old.events@.push(Event::WindowFocused(false))
            &&& new.schedule == old.schedule
        },
        WindowEvent::WillClose => {
            &&& new.input == old.input
            &&& new.events@ == old.events@
            &&& new.schedule == old.schedule
        },
    }
}

impl EguiWindow {
    /// The state of a window opened with `settings` at time `now`: the scale from
    /// the policy (one pixel per point until the system reports its own), the
    /// physical size rounded from the logical one, no pointer, no modifiers,
    /// focused, a render due at once. `None` where the physical size does not fit
    /// in `u32` pixels.
    pub fn new(settings: OpenSettings, platform: Platform, max_texture_side: usize, now: u64) -> (r: Option<EguiWindow>)
        requires
            settings.scale_policy.wf(),
        ensures
            r is None <==> ({
                let s = initial_scale_spec(settings.scale_policy);
                round_div(settings.logical_width * s.num, s.den as int) > u32::MAX || round_div(
                    settings.logical_height * s.num,
                    s.den as int,
                ) > u32::MAX
            }),
            r matches Some(w) ==> {
                &&& w.wf()
                &&& w.platform == platform
                &&& w.scale_policy == settings.scale_policy
                &&& w.title == settings.title
                &&& w.start_time == now
                &&& w.max_texture_side == max_texture_side
                &&& w.geometry.pixels_per_point == initial_scale_spec(settings.scale_policy)
                &&& w.geometry.logical == (LogicalSize {
                    width_num: settings.logical_width as u64,
                    height_num: settings.logical_height as u64,
                    den: 1,
                })
                &&& w.input == (InputState {
                    pointer_pos: None,
                    modifiers: Modifiers {
                        alt: false,
                        ctrl: false,
                        shift: false,
                        mac_cmd: false,
                        command: false,
                    },
                    focused: true,
                })
                &&& w.events@.len() == 0
                &&& w.schedule == (Schedule {
                    repaint_after: Some(now),
                    closing: false,
                    cursor: NativeCursor::Default,
                    bg_color: Color { r: 0, g: 0, b: 0, a: 255 },
                })
            },
    {
        let scale = match settings.scale_policy {
            ScalePolicy::Fixed(s) => s,
            ScalePolicy::SystemScaleFactor => Scale::identity(),
        };
        let sizes = physical_from_logical(settings.logical_width, settings.logical_height, scale);
        match sizes {
            None => None,
            Some((physical, logical)) => Some(
                EguiWindow {
                    platform,
                    scale_policy: settings.scale_policy,
                    title: settings.title,
                    start_time: now,
                    max_texture_side,
                    geometry: Geometry { pixels_per_point: scale, physical, logical },
                    input: InputState { pointer_pos: None, modifiers: Modifiers::none(), focused: true },
                    events: Vec::new(),
                    schedule: Schedule {
                        repaint_after: Some(now),
                        closing: false,
                        cursor: NativeCursor::Default,
                        bg_color: Color::black(),
                    },
                },
            ),
        }
    }

    fn update_modifiers(&mut self, snapshot: crate::input::NativeModifiers)
        ensures
            final(self).input == (InputState {
                modifiers: snapshot_modifiers_spec(old(self).input.modifiers, snapshot),
                ..old(self).input
            }),
            final(self).events == old(self).events,
            final(self).same_settings(old(self)),
            final(self).geometry == old(self).geometry,
            final(self).schedule == old(self).schedule,
    {
        self.input.modifiers = snapshot_modifiers(self.input.modifiers, snapshot);
    }

    fn push_button(&mut self, button: MouseButton, pressed: bool)
        ensures
            final(self).events@ == old(self).events@ + button_events_spec(old(self).input, button, pressed),
            final(self).input == old(self).input,
            final(self).same_settings(old(self)),
            final(self).geometry == old(self).geometry,
            final(self).schedule == old(self).schedule,
    {
        if let Some(pos) = self.input.pointer_pos {
            if let Some(b) = translate_mouse_button(button) {
                self.events.push(
                    Event::PointerButton { pos, button: b, pressed, modifiers: self.input.modifiers },
                );
            }
        }
        proof {
            assert(final(self).events@ =~= old(self).events@ + button_events_spec(old(self).input, button, pressed));
        }
    }

    /// Applies a mouse event: the event's own modifier snapshot first, then the
    /// pointer position, then the engine event it stands for.
    pub fn on_mouse_event(&mut self, ev: MouseEvent)
        requires
            old(self).wf(),
        ensures
            final(self).wf(),
            mouse_applied(old(self), final(self), ev),
    {
        match ev {
            MouseEvent::CursorMoved { position, modifiers } => {
                self.update_modifiers(modifiers);
                self.input.pointer_pos = Some(position);
                self.events.push(Event::PointerMoved(position));
            },
            MouseEvent::ButtonPressed { button, modifiers } => {
                self.update_modifiers(modifiers);
                self.push_button(button, true);
            },
            MouseEvent::ButtonReleased { button, modifiers } => {
                self.update_modifiers(modifiers);
                self.push_button(button, false);
            },
            MouseEvent::WheelScrolled { delta, modifiers } => {
                self.update_modifiers(modifiers);
                let v = scroll_points(delta, self.geometry.pixels_per_point, self.platform);
                let e = wheel_event(v, self.input.modifiers);
                self.events.push(e);
            },
            MouseEvent::CursorEntered => {},
            MouseEvent::CursorLeft => {
                self.input.pointer_pos = None;
                self.events.push(Event::PointerGone);
            },
        }
        proof {
            assert(final(self).events@ =~= old(self).events@ + mouse_events_spec(
                old(self).input,
                old(self).geometry.pixels_per_point,
                old(self).platform,
                ev,
            ));
        }
    }

    /// Applies a key event: modifier keys update the tracked modifiers, a key the
    /// engine has becomes a key event, and a press is checked in turn for the cut,
    /// copy and paste shortcuts, else yields the typed text where no modifier but
    /// Shift is held. Returns whether the press was the paste shortcut: the caller
    /// then reads the clipboard and hands its contents to `push_pasted_text`.
    pub fn on_keyboard_event(&mut self, ev: KeyboardEvent) -> (paste: bool)
        requires
            old(self).wf(),
        ensures
            final(self).wf(),
            keyboard_applied(old(self), final(self), ev, paste),
    {
        let ghost ev0 = ev;
        let m = key_modifiers(self.input.modifiers, ev.code, ev.pressed, self.platform);
        self.input.modifiers = m;
        if let Some(k) = translate_virtual_key(&ev.key) {
            self.events.push(Event::Key { key: k, pressed: ev.pressed, repeat: ev.repeat, modifiers: m });
        }
        let ghost mid = self.events@;
        let mut paste = false;
        if ev.pressed {
            if is_cut_command(m, ev.code, self.platform) {
                self.events.push(Event::Cut);
            } else if is_copy_command(m, ev.code, self.platform) {
                self.events.push(Event::Copy);
            } else if is_paste_command(m, ev.code, self.platform) {
                paste = true;
            } else if !m.ctrl && !m.command && !m.alt && !m.mac_cmd {
                if let Key::Character(written) = ev.key {
                    self.events.push(Event::Text(written));
                }
            }
        }
        proof {
            assert(final(self).events@ =~= old(self).events@ + keyboard_events_spec(m, ev0, old(self).platform));
        }
        paste
    }

    /// Queues the clipboard contents read for a paste shortcut as typed text.
    pub fn push_pasted_text(&mut self, contents: String)
        requires
            old(self).wf(),
        ensures
            final(self).wf(),
            final(self).events@ == old(self).events@.push(Event::Text(contents)),
            final(self).input == old(self).input,
            final(self).same_settings(old(self)),
            final(self).geometry == old(self).geometry,
            final(self).schedule == old(self).schedule,
    {
        self.events.push(Event::Text(contents));
    }

    /// Applies a window event at time `now`. A resize takes the scale from the
    /// policy, keeps the physical size reported and derives the logical size from
    /// it, and makes a render due at the next tick whatever was scheduled; focus
    /// changes are recorded and passed on.
    pub fn on_window_event(&mut self, ev: WindowEvent, now: u64)
        requires
            old(self).wf(),
            ev.wf(),
        ensures
            final(self).wf(),
            window_applied(old(self), final(self), ev, now),
    {
        match ev {
            WindowEvent::Resized { physical, system_scale } => {
                let s = match self.scale_policy {
                    ScalePolicy::Fixed(s) => s,
                    ScalePolicy::SystemScaleFactor => system_scale,
                };
                let logical = logical_from_physical(physical, s);
                self.geometry = Geometry { pixels_per_point: s, physical, logical };
                self.schedule.repaint_after = Some(now);
            },
            WindowEvent::Focused => {
                self.input.focused = true;
                self.events.push(Event::WindowFocused(true));
            },
            WindowEvent::Unfocused => {
                self.input.focused = false;
                self.events.push(Event::WindowFocused(false));
            },
            WindowEvent::WillClose => {},
        }
    }

    /// Applies one native event at time `now`; returns whether it was the paste
    /// shortcut (see `on_keyboard_event`).
    pub fn on_event(&mut self, ev: NativeEvent, now: u64) -> (paste: bool)
        requires
            old(self).wf(),
            ev matches NativeEvent::Window(w) ==> w.wf(),
        ensures
            final(self).wf(),
            match ev {
                NativeEvent::Mouse(m) => mouse_applied(old(self), final(self), m) && !paste,
                NativeEvent::Keyboard(k) => keyboard_applied(old(self), final(self), k, paste),
                NativeEvent::Window(w) => window_applied(old(self), final(self), w, now) && !paste,
            },
    {
        match ev {
            NativeEvent::Mouse(m) => {
                self.on_mouse_event(m);
                false
            },
            NativeEvent::Keyboard(k) => self.on_keyboard_event(k),
            NativeEvent::Window(w) => {
                self.on_window_event(w, now);
                false
            },
        }
    }
}

// Ticks.

/// Whether a render is due: the engine asks for one now, or the scheduled time
/// has come.
pub open spec fn repaint_due(repaint_after: Option<u64>, now: u64, delay: u64) -> bool {
    delay == 0 || (repaint_after matches Some(t) && now >= t)
}

/// The scheduled render time after a tick: none after a render, else `delay`
/// from now, or unchanged where that time is past the clock's range.
pub open spec fn next_repaint_after(repaint_after: Option<u64>, now: u64, delay: u64) -> Option<u64> {
    if repaint_due(repaint_after, now, delay) {
        None
    } else if now + delay <= u64::MAX {
        Some((now + delay) as u64)
    } else {
        repaint_after
    }
}

pub open spec fn has_close_command(cmds: Seq<ViewportCommand>) -> bool {
    exists|i: int| 0 <= i < cmds.len() && cmds[i] is Close
}

/// Whether the engine's output closes the window: it has no output for the
/// viewport, or a close command.
pub open spec fn engine_requests_close(viewport: Option<ViewportOutput>) -> bool {
    match viewport {
        None => true,
        Some(v) => has_close_command(v.commands@),
    }
}

/// Whether a tick closes the window: the user asked through the queue, or the
/// engine did.
pub open spec fn close_requested_spec(queue: Queue, viewport: Option<ViewportOutput>) -> bool {
    queue.requested_close() || engine_requests_close(viewport)
}

/// The sizes the window is resized to for the engine's size commands, in order,
/// each side at least one point.
pub open spec fn resize_requests(cmds: Seq<ViewportCommand>) -> Seq<Vec2>
    decreases cmds.len(),
{
    if cmds.len() == 0 {
        seq![]
    } else {
        let before = resize_requests(cmds.drop_last());
        match cmds.last() {
            ViewportCommand::InnerSize { width, height } => before.push(
                Vec2 {
                    x: if width < MILLI {
                        MILLI
                    } else {
                        width
                    },
                    y: if height < MILLI {
                        MILLI
                    } else {
                        height
                    },
                },
            ),
            _ => before,
        }
    }
}

/// Nanoseconds from `start` to `now`, zero where the clock reads earlier.
pub open spec fn elapsed_spec(start: u64, now: u64) -> u64 {
    if now >= start {
        (now - start) as u64
    } else {
        0
    }
}

fn resize_commands(cmds: &Vec<ViewportCommand>) -> (r: (Vec<Vec2>, bool))
    ensures
        r.0@ == resize_requests(cmds@),
        r.1 == has_close_command(cmds@),
{
    let mut sizes: Vec<Vec2> = Vec::new();
    let mut close = false;
    let mut i: usize = 0;
    while i < cmds.len()
        invariant
            i <= cmds@.len(),
            sizes@ == resize_requests(cmds@.subrange(0, i as int)),
            close == has_close_command(cmds@.subrange(0, i as int)),
        decreases cmds@.len() - i,
    {
        let ghost prefix = cmds@.subrange(0, i as int);
        let ghost next = cmds@.subrange(0, i as int + 1);
        assert(next.drop_last() =~= prefix);
        match cmds[i] {
            ViewportCommand::Close => {
                close = true;
            },
            ViewportCommand::InnerSize { width, height } => {
                let w = if width < MILLI {
                    MILLI
                } else {
                    width
                };
                let h = if height < MILLI {
                    MILLI
                } else {
                    height
                };
                sizes.push(Vec2 { x: w, y: h });
            },
            ViewportCommand::Other => {},
        }
        proof {
            if has_close_command(next) && !has_close_command(prefix) {
                let j = choose|j: int| 0 <= j < next.len() && next[j] is Close;
                assert(j == i);
            }
            if has_close_command(prefix) {
                let j = choose|j: int| 0 <= j < prefix.len() && prefix[j] is Close;
                assert(next[j] is Close);
            }
            if cmds@[i as int] is Close {
                assert(next[i as int] is Close);
            }
        }
        i = i + 1;
    }
    assert(cmds@.subrange(0, cmds@.len() as int) =~= cmds@);
    (sizes, close)
}

/// What a tick does where the window is not closing: render if due, the resizes
/// asked for, the copied text, and the cursor where it changed.
pub open spec fn frame_applied(old: &EguiWindow, new: &EguiWindow, queue: Queue, output: FrameOutput, now: u64, r: &FrameActions) -> bool {
    let closing = old.schedule.closing || close_requested_spec(queue, output.viewport);
    let v = output.viewport->0;
    let cursor = cursor_spec(output.cursor_icon);
    &&& new.same_settings(old)
    &&& new.geometry == old.geometry
    &&& new.input == old.input
    &&& new.events@ == old.events@
    &&& new.schedule.bg_color == queue.requested_bg_color()
    &&& new.schedule.closing == closing
    &&& r.close == (!old.schedule.closing && close_requested_spec(queue, output.viewport))
    &&& closing ==> {
        &&& !r.render
        &&& r.resizes@.len() == 0
        &&& r.copy_text is None
        &&& r.set_cursor is None
        &&& new.schedule.repaint_after == old.schedule.repaint_after
        &&& new.schedule.cursor == old.schedule.cursor
    }
    &&& !closing ==> {
        &&& r.render == repaint_due(old.schedule.repaint_after, now, v.repaint_delay)
        &&& new.schedule.repaint_after == next_repaint_after(
            old.schedule.repaint_after,
            now,
            v.repaint_delay,
        )
        &&& r.resizes@ == resize_requests(v.commands@)
        &&& r.copy_text == (if output.copied_text@.len() > 0 {
            Some(output.copied_text)
        } else {
            None
        })
        &&& new.schedule.cursor == cursor
        &&& r.set_cursor == (if cursor != old.schedule.cursor {
            Some(cursor)
        } else {
            None
        })
    }
}

impl EguiWindow {
    /// Starts a tick at time `now`: hands over the events gathered since the last
    /// tick, leaving none behind, together with the time since the window opened
    /// and the current size, scale and focus; and returns the queue for the
    /// user's update, holding the current background color. Once the window is
    /// closing no tick starts: `None`, with nothing changed.
    pub fn begin_frame(&mut self, now: u64) -> (r: Option<(RawInput, Queue)>)
        requires
            old(self).wf(),
        ensures
            final(self).wf(),
            r is None <==> old(self).schedule.closing,
            r is None ==> final(self).events@ == old(self).events@,
            r matches Some((input, queue)) ==> {
                &&& input.events@ == old(self).events@
                &&& final(self).events@.len() == 0
                &&& input.time == elapsed_spec(old(self).start_time, now)
                &&& input.screen_size == old(self).geometry.logical
                &&& input.pixels_per_point == old(self).geometry.pixels_per_point
                &&& input.focused == old(self).input.focused
                &&& input.max_texture_side == old(self).max_texture_side
                &&& queue.requested_bg_color() == old(self).schedule.bg_color
                &&& !queue.requested_close()
            },
            final(self).same_settings(old(self)),
            final(self).geometry == old(self).geometry,
            final(self).input == old(self).input,
            final(self).schedule == old(self).schedule,
    {
        if self.schedule.closing {
            return None;
        }
        let mut events: Vec<Event> = Vec::new();
        std::mem::swap(&mut events, &mut self.events);
        let time = if now >= self.start_time {
            now - self.start_time
        } else {
            0
        };
        let input = RawInput {
            time,
            events,
            screen_size: self.geometry.logical,
            pixels_per_point: self.geometry.pixels_per_point,
            focused: self.input.focused,
            max_texture_side: self.max_texture_side,
        };
        Some((input, Queue::new(self.schedule.bg_color)))
    }

    /// Ends a tick at time `now` with the queue the user's update returned and the
    /// engine's output. The window closes, once, where the user or the engine asks;
    /// from then on nothing is rendered. Otherwise a render happens where one is due
    /// (always for a zero delay) and the next one is scheduled where not.
    pub fn finish_frame(&mut self, queue: Queue, output: FrameOutput, now: u64) -> (r: FrameActions)
        requires
            old(self).wf(),
        ensures
            final(self).wf(),
            frame_applied(old(self), final(self), queue, output, now, &r),
    {
        let FrameOutput { viewport, copied_text, cursor_icon } = output;
        self.schedule.bg_color = queue.bg_color;
        let (resizes, close_command) = match &viewport {
            Some(v) => resize_commands(&v.commands),
            None => (Vec::new(), true),
        };
        let closing = self.schedule.closing || queue.close_requested || close_command;
        if closing {
            let close = !self.schedule.closing;
            self.schedule.closing = true;
            return FrameActions {
                close,
                resizes: Vec::new(),
                render: false,
                copy_text: None,
                set_cursor: None,
            };
        }
        let delay = match &viewport {
            Some(v) => v.repaint_delay,
            None => 0,
        };
        let render = delay == 0 || match self.schedule.repaint_after {
            Some(t) => now >= t,
            None => false,
        };
        if render {
            self.schedule.repaint_after = None;
        } else if delay <= u64::MAX - now {
            self.schedule.repaint_after = Some(now + delay);
        }
        let copy_text = if !copied_text.as_str().is_empty() {
            Some(copied_text)
        } else {
            None
        };
        let cursor = translate_cursor_icon(cursor_icon);
        let set_cursor = if cursor != self.schedule.cursor {
            Some(cursor)
        } else {
            None
        };
        self.schedule.cursor = cursor;
        FrameActions { close: false, resizes, render, copy_text, set_cursor }
    }
}

// Laws.

/// A zero repaint delay renders at the tick whatever time was stored before and
/// leaves nothing scheduled, so every tick of a run with zero delays renders.
pub proof fn lemma_zero_delay_renders(
    old: EguiWindow,
    new: EguiWindow,
    queue: Queue,
    output: FrameOutput,
    now: u64,
    r: FrameActions,
)
    requires
        frame_applied(&old, &new, queue, output, now, &r),
        !old.schedule.closing,
        !close_requested_spec(queue, output.viewport),
        output.viewport->0.repaint_delay == 0,
    ensures
        r.render,
        new.schedule.repaint_after is None,
{
}

/// A button press or release while the pointer position is unknown yields no
/// engine event.
pub proof fn lemma_button_without_pointer_dropped(
    input: InputState,
    scale: Scale,
    platform: Platform,
    button: MouseButton,
    modifiers: crate::input::NativeModifiers,
)
    requires
        input.pointer_pos is None,
    ensures
        mouse_events_spec(input, scale, platform, MouseEvent::ButtonPressed { button, modifiers }).len() == 0,
        mouse_events_spec(input, scale, platform, MouseEvent::ButtonReleased { button, modifiers }).len() == 0,
{
}

/// A wheel movement with Control held yields exactly one event: a zoom by the
/// factor `exp(dy / 200)`, where `dy` is the vertical movement in points.
pub proof fn lemma_ctrl_wheel_zooms(
    input: InputState,
    scale: Scale,
    platform: Platform,
    delta: crate::input::ScrollDelta,
    modifiers: crate::input::NativeModifiers,
)
    requires
        modifiers.control || input.modifiers.ctrl,
    ensures
        mouse_events_spec(input, scale, platform, MouseEvent::WheelScrolled { delta, modifiers }) == seq![
            Event::Zoom { delta_y: scroll_points_spec(delta, scale, platform).y },
        ],
{
}

pub open spec fn has_no_text(events: Seq<Event>) -> bool {
    forall|i: int| 0 <= i < events.len() ==> !(#[trigger] events[i] is Text)
}

/// With the primary modifier held, a press of V yields no text of its own and asks
/// for a paste, after which the clipboard contents are the one text event; a
/// press of C yields a copy intent and no text.
pub proof fn lemma_clipboard_shortcuts(
    modifiers: Modifiers,
    key: Key,
    repeat: bool,
    platform: Platform,
    contents: String,
)
    requires
        modifiers.command,
    ensures
        ({
            let ev = KeyboardEvent { key, code: crate::input::Code::KeyV, pressed: true, repeat };
            let m = key_modifiers_spec(modifiers, ev.code, true, platform);
            let queued = keyboard_events_spec(m, ev, platform).push(Event::Text(contents));
            &&& paste_requested_spec(m, ev, platform)
            &&& has_no_text(keyboard_events_spec(m, ev, platform))
            &&& forall|i: int|
                0 <= i < queued.len() && #[trigger] queued[i] is Text ==> i == queued.len() - 1
                    && queued[i] == Event::Text(contents)
        }),
        ({
            let ev = KeyboardEvent { key, code: crate::input::Code::KeyC, pressed: true, repeat };
            let m = key_modifiers_spec(modifiers, ev.code, true, platform);
            let events = keyboard_events_spec(m, ev, platform);
            &&& !paste_requested_spec(m, ev, platform)
            &&& has_no_text(events)
            &&& events.last() == Event::Copy
        }),
{
    let ev = KeyboardEvent { key, code: crate::input::Code::KeyV, pressed: true, repeat };
    let m = key_modifiers_spec(modifiers, ev.code, true, platform);
    let events = keyboard_events_spec(m, ev, platform);
    assert(has_no_text(events));
    let queued = events.push(Event::Text(contents));
    assert forall|i: int| 0 <= i < queued.len() && #[trigger] queued[i] is Text implies i == queued.len()
        - 1 && queued[i] == Event::Text(contents) by {
        if i < events.len() {
            assert(queued[i] == events[i]);
        }
    }
    let evc = KeyboardEvent { key, code: crate::input::Code::KeyC, pressed: true, repeat };
    let mc = key_modifiers_spec(modifiers, evc.code, true, platform);
    assert(has_no_text(keyboard_events_spec(mc, evc, platform)));
}

/// The geometry after a run of window events.
pub open spec fn geometry_after(g: Geometry, policy: ScalePolicy, events: Seq<WindowEvent>) -> Geometry
    decreases events.len(),
{
    if events.len() == 0 {
        g
    } else {
        window_geometry_spec(geometry_after(g, policy, events.drop_last()), policy, events.last())
    }
}

/// After every run of resizes and other window events, the physical size is the
/// logical size at the current scale, rounded to whole pixels.
pub proof fn lemma_resizes_keep_sizes(g: Geometry, policy: ScalePolicy, events: Seq<WindowEvent>)
    requires
        g.wf(),
        policy.wf(),
        forall|i: int| 0 <= i < events.len() ==> (#[trigger] events[i]).wf(),
    ensures
        geometry_after(g, policy, events).wf(),
    decreases events.len(),
{
    if events.len() > 0 {
        let before = events.drop_last();
        assert forall|i: int| 0 <= i < before.len() implies (#[trigger] before[i]).wf() by {
            assert(before[i] == events[i]);
        }
        lemma_resizes_keep_sizes(g, policy, before);
        if let WindowEvent::Resized { physical, system_scale } = events.last() {
            assert(events[events.len() - 1].wf());
            crate::units::lemma_size_round_trip(physical, resized_scale_spec(policy, system_scale));
        }
    }
}

/// Closing is never undone by a tick.
proof fn lemma_closing_stays(
    states: Seq<EguiWindow>,
    queues: Seq<Queue>,
    outputs: Seq<FrameOutput>,
    times: Seq<u64>,
    actions: Seq<FrameActions>,
    i: int,
    j: int,
)
    requires
        states.len() == actions.len() + 1,
        queues.len() == actions.len() && outputs.len() == actions.len() && times.len() == actions.len(),
        forall|k: int|
            0 <= k < actions.len() ==> frame_applied(
                &#[trigger] states[k],
                &states[k + 1],
                queues[k],
                outputs[k],
                times[k],
                &actions[k],
            ),
        0 <= i <= j < states.len(),
        states[i].schedule.closing,
    ensures
        states[j].schedule.closing,
    decreases j - i,
{
    if i < j {
        lemma_closing_stays(states, queues, outputs, times, actions, i, j - 1);
        assert(frame_applied(&states[j - 1], &states[j], queues[j - 1], outputs[j - 1], times[j - 1], &actions[j - 1]));
    }
}

/// A window that was open and is closing issued the close at some tick before.
proof fn lemma_closing_was_issued(
    states: Seq<EguiWindow>,
    queues: Seq<Queue>,
    outputs: Seq<FrameOutput>,
    times: Seq<u64>,
    actions: Seq<FrameActions>,
    m: int,
)
    requires
        states.len() == actions.len() + 1,
        queues.len() == actions.len() && outputs.len() == actions.len() && times.len() == actions.len(),
        forall|k: int|
            0 <= k < actions.len() ==> frame_applied(
                &#[trigger] states[k],
                &states[k + 1],
                queues[k],
                outputs[k],
                times[k],
                &actions[k],
            ),
        0 <= m < states.len(),
        !states[0].schedule.closing,
        states[m].schedule.closing,
    ensures
        exists|k: int| 0 <= k < m && (#[trigger] actions[k]).close,
    decreases m,
{
    assert(m > 0);
    assert(frame_applied(&states[m - 1], &states[m], queues[m - 1], outputs[m - 1], times[m - 1], &actions[m - 1]));
    if states[m - 1].schedule.closing {
        lemma_closing_was_issued(states, queues, outputs, times, actions, m - 1);
        let k = choose|k: int| 0 <= k < m - 1 && (#[trigger] actions[k]).close;
        assert(actions[k].close);
    } else {
        assert(actions[m - 1].close);
    }
}

/// Over any run of ticks the close is issued at most once, and it is issued where
/// the window was open and some tick asked for it, through the user's queue or
/// through the engine's output alike.
pub proof fn lemma_close_issued_once(
    states: Seq<EguiWindow>,
    queues: Seq<Queue>,
    outputs: Seq<FrameOutput>,
    times: Seq<u64>,
    actions: Seq<FrameActions>,
)
    requires
        states.len() == actions.len() + 1,
        queues.len() == actions.len() && outputs.len() == actions.len() && times.len() == actions.len(),
        forall|k: int|
            0 <= k < actions.len() ==> frame_applied(
                &#[trigger] states[k],
                &states[k + 1],
                queues[k],
                outputs[k],
                times[k],
                &actions[k],
            ),
    ensures
        forall|i: int, j: int|
            0 <= i < actions.len() && 0 <= j < actions.len() && (#[trigger] actions[i]).close && (
            #[trigger] actions[j]).close ==> i == j,
        !states[0].schedule.closing && (exists|i: int|
            0 <= i < actions.len() && close_requested_spec(
                #[trigger] queues[i],
                outputs[i].viewport,
            )) ==> exists|i: int| 0 <= i < actions.len() && (#[trigger] actions[i]).close,
{
    assert forall|i: int, j: int|
        0 <= i < actions.len() && 0 <= j < actions.len() && (#[trigger] actions[i]).close && (
        #[trigger] actions[j]).close implies i == j by {
        assert(frame_applied(&states[i], &states[i + 1], queues[i], outputs[i], times[i], &actions[i]));
        assert(frame_applied(&states[j], &states[j + 1], queues[j], outputs[j], times[j], &actions[j]));
        if i < j {
            lemma_closing_stays(states, queues, outputs, times, actions, i + 1, j);
        } else if j < i {
            lemma_closing_stays(states, queues, outputs, times, actions, j + 1, i);
        }
    }
    if !states[0].schedule.closing && (exists|i: int|
        0 <= i < actions.len() && close_requested_spec(#[trigger] queues[i], outputs[i].viewport)) {
        let i = choose|i: int|
            0 <= i < actions.len() && close_requested_spec(#[trigger] queues[i], outputs[i].viewport);
        assert(frame_applied(&states[i], &states[i + 1], queues[i], outputs[i], times[i], &actions[i]));
        assert(states[i + 1].schedule.closing);
        lemma_closing_was_issued(states, queues, outputs, times, actions, i + 1);
    }
}

} // verus!
