use egui_baseview::input::{
    Code, Event, KeyboardEvent, Modifiers, MouseEvent, NativeEvent, NativeModifiers, Platform, Point,
    ScrollDelta, Vec2, WindowEvent,
};
use egui_baseview::translate::{CursorIcon, EngineKey, Key, MouseButton, NativeCursor, PointerButton};
use egui_baseview::units::{LogicalSize, PhysicalSize, Scale, MILLI};
use egui_baseview::window::{
    Color, EguiWindow, FrameOutput, OpenSettings, Queue, ScalePolicy, ViewportCommand, ViewportOutput,
};

const START: u64 = 1_000;

fn open(policy: ScalePolicy, platform: Platform) -> EguiWindow {
    let settings = OpenSettings {
        scale_policy: policy,
        logical_width: 800,
        logical_height: 600,
        title: "demo".to_string(),
    };
    EguiWindow::new(settings, platform, 2048, START).expect("window fits")
}

fn window() -> EguiWindow {
    open(ScalePolicy::SystemScaleFactor, Platform::Other)
}

fn no_mods() -> NativeModifiers {
    NativeModifiers { alt: false, control: false, shift: false, meta: false }
}

fn output(delay: u64, commands: Vec<ViewportCommand>) -> FrameOutput {
    FrameOutput {
        viewport: Some(ViewportOutput { commands, repaint_delay: delay }),
        copied_text: String::new(),
        cursor_icon: CursorIcon::Default,
    }
}

fn key_down(key: Key, code: Code) -> KeyboardEvent {
    KeyboardEvent { key, code, pressed: true, repeat: false }
}

fn text_events(w: &EguiWindow) -> Vec<String> {
    w.events
        .iter()
        .filter_map(|e| match e {
            Event::Text(s) => Some(s.clone()),
            _ => None,
        })
        .collect()
}

#[test]
fn new_window_starts_with_a_render_due() {
    let w = window();
    assert_eq!(w.geometry.physical, PhysicalSize { width: 800, height: 600 });
    assert_eq!(w.geometry.pixels_per_point, Scale { num: 1, den: 1 });
    assert_eq!(w.input.pointer_pos, None);
    assert_eq!(w.input.modifiers, Modifiers::none());
    assert!(w.input.focused);
    assert!(w.events.is_empty());
    assert_eq!(w.schedule.repaint_after, Some(START));
    assert_eq!(w.schedule.bg_color, Color::black());
    assert!(!w.schedule.closing);
}

#[test]
fn fixed_scale_sets_initial_physical_size() {
    let w = open(ScalePolicy::Fixed(Scale { num: 2, den: 1 }), Platform::Other);
    assert_eq!(w.geometry.physical, PhysicalSize { width: 1600, height: 1200 });
}

#[test]
fn too_large_window_is_refused() {
    let settings = OpenSettings {
        scale_policy: ScalePolicy::Fixed(Scale { num: 3, den: 1 }),
        logical_width: u32::MAX,
        logical_height: 1,
        title: String::new(),
    };
    assert!(EguiWindow::new(settings, Platform::Other, 1, 0).is_none());
}

#[test]
fn press_before_pointer_move_is_dropped() {
    let mut w = window();
    w.on_mouse_event(MouseEvent::ButtonPressed { button: MouseButton::Left, modifiers: no_mods() });
    assert_eq!(w.events.len(), 0);
}

#[test]
fn press_after_move_carries_event_modifiers() {
    let mut w = window();
    let pos = Point { x: 10 * MILLI, y: 20 * MILLI };
    w.on_mouse_event(MouseEvent::CursorMoved { position: pos, modifiers: no_mods() });
    let snapshot = NativeModifiers { alt: true, control: true, shift: false, meta: false };
    w.on_mouse_event(MouseEvent::ButtonPressed { button: MouseButton::Right, modifiers: snapshot });
    w.on_mouse_event(MouseEvent::ButtonReleased { button: MouseButton::Back, modifiers: snapshot });
    let mut expected_mods = Modifiers::none();
    expected_mods.alt = true;
    expected_mods.command = true;
    assert_eq!(
        w.events,
        vec![
            Event::PointerMoved(pos),
            Event::PointerButton { pos, button: PointerButton::Secondary, pressed: true, modifiers: expected_mods },
        ]
    );
}

#[test]
fn pointer_leaving_forgets_position() {
    let mut w = window();
    w.on_mouse_event(MouseEvent::CursorMoved { position: Point { x: 1, y: 2 }, modifiers: no_mods() });
    w.on_mouse_event(MouseEvent::CursorLeft);
    assert_eq!(w.input.pointer_pos, None);
    w.on_mouse_event(MouseEvent::ButtonPressed { button: MouseButton::Left, modifiers: no_mods() });
    assert_eq!(w.events, vec![Event::PointerMoved(Point { x: 1, y: 2 }), Event::PointerGone]);
}

#[test]
fn ctrl_scroll_zooms_by_exp_of_delta_over_200() {
    let mut w = window();
    let ctrl = NativeModifiers { alt: false, control: true, shift: false, meta: false };
    // 200 points of vertical movement, as pixels at one pixel per point.
    w.on_mouse_event(MouseEvent::WheelScrolled {
        delta: ScrollDelta::Pixels { x: 0, y: 200_000 },
        modifiers: ctrl,
    });
    assert_eq!(w.events, vec![Event::Zoom { delta_y: 200_000 }]);
    if let Event::Zoom { delta_y } = w.events[0] {
        let factor = (delta_y as f64 / (200.0 * MILLI as f64)).exp();
        assert!((factor - 2.718).abs() < 0.001);
    }
}

#[test]
fn shift_scroll_is_horizontal() {
    let mut w = window();
    let shift = NativeModifiers { alt: false, control: false, shift: true, meta: false };
    w.on_mouse_event(MouseEvent::WheelScrolled { delta: ScrollDelta::Lines { x: 0, y: 1000 }, modifiers: shift });
    assert_eq!(w.events, vec![Event::Scroll(Vec2 { x: 50_000, y: 0 })]);
}

#[test]
fn typing_a_letter_gives_key_and_text() {
    let mut w = window();
    let paste = w.on_keyboard_event(key_down(Key::Character("a".to_string()), Code::Other));
    assert!(!paste);
    assert_eq!(
        w.events,
        vec![
            Event::Key { key: EngineKey::A, pressed: true, repeat: false, modifiers: Modifiers::none() },
            Event::Text("a".to_string()),
        ]
    );
}

#[test]
fn key_release_gives_no_text() {
    let mut w = window();
    let ev = KeyboardEvent { key: Key::Character("a".to_string()), code: Code::Other, pressed: false, repeat: false };
    w.on_keyboard_event(ev);
    assert_eq!(text_events(&w).len(), 0);
    assert_eq!(w.events.len(), 1);
}

#[test]
fn alt_suppresses_text() {
    let mut w = window();
    w.on_keyboard_event(key_down(Key::Other, Code::AltLeft));
    w.on_keyboard_event(key_down(Key::Character("a".to_string()), Code::Other));
    assert!(text_events(&w).is_empty());
}

#[test]
fn shift_keeps_text() {
    let mut w = window();
    w.on_keyboard_event(key_down(Key::Other, Code::ShiftLeft));
    w.on_keyboard_event(key_down(Key::Character("A".to_string()), Code::Other));
    assert_eq!(text_events(&w), vec!["A".to_string()]);
}

#[test]
fn paste_shortcut_yields_one_text_event() {
    let mut w = window();
    assert!(!w.on_keyboard_event(key_down(Key::Other, Code::ControlLeft)));
    let paste = w.on_keyboard_event(key_down(Key::Character("v".to_string()), Code::KeyV));
    assert!(paste);
    w.push_pasted_text("clipboard contents".to_string());
    assert_eq!(text_events(&w), vec!["clipboard contents".to_string()]);
}

#[test]
fn copy_and_cut_shortcuts_give_intents_not_text() {
    let mut w = window();
    w.on_keyboard_event(key_down(Key::Other, Code::ControlRight));
    assert!(!w.on_keyboard_event(key_down(Key::Character("c".to_string()), Code::KeyC)));
    assert!(!w.on_keyboard_event(key_down(Key::Character("x".to_string()), Code::KeyX)));
    assert!(text_events(&w).is_empty());
    assert!(w.events.contains(&Event::Copy));
    assert!(w.events.contains(&Event::Cut));
}

#[test]
fn macos_meta_is_primary_modifier() {
    let mut w = open(ScalePolicy::SystemScaleFactor, Platform::MacOs);
    w.on_keyboard_event(key_down(Key::Other, Code::MetaLeft));
    assert!(w.input.modifiers.mac_cmd && w.input.modifiers.command);
    assert!(w.on_keyboard_event(key_down(Key::Character("v".to_string()), Code::KeyV)));
}

#[test]
fn resize_follows_system_scale_and_schedules_render() {
    let mut w = window();
    let physical = PhysicalSize { width: 1000, height: 500 };
    w.on_window_event(WindowEvent::Resized { physical, system_scale: Scale { num: 2, den: 1 } }, 5_000);
    assert_eq!(w.geometry.pixels_per_point, Scale { num: 2, den: 1 });
    assert_eq!(w.geometry.physical, physical);
    assert_eq!(w.geometry.logical, LogicalSize { width_num: 1000, height_num: 500, den: 2 });
    assert_eq!(w.schedule.repaint_after, Some(5_000));
}

#[test]
fn resize_under_fixed_scale_ignores_system_scale() {
    let mut w = open(ScalePolicy::Fixed(Scale { num: 5, den: 4 }), Platform::Other);
    let physical = PhysicalSize { width: 1001, height: 3 };
    w.on_window_event(WindowEvent::Resized { physical, system_scale: Scale { num: 3, den: 1 } }, 0);
    assert_eq!(w.geometry.pixels_per_point, Scale { num: 5, den: 4 });
    assert_eq!(w.geometry.logical, LogicalSize { width_num: 4004, height_num: 12, den: 5 });
}

#[test]
fn focus_changes_are_forwarded() {
    let mut w = window();
    w.on_event(NativeEvent::Window(WindowEvent::Unfocused), 0);
    assert!(!w.input.focused);
    w.on_event(NativeEvent::Window(WindowEvent::Focused), 0);
    w.on_event(NativeEvent::Window(WindowEvent::WillClose), 0);
    assert_eq!(w.events, vec![Event::WindowFocused(false), Event::WindowFocused(true)]);
}

#[test]
fn begin_frame_hands_over_and_clears_events() {
    let mut w = window();
    w.on_mouse_event(MouseEvent::CursorMoved { position: Point { x: 0, y: 0 }, modifiers: no_mods() });
    let (input, _queue) = w.begin_frame(START + 250).unwrap();
    assert_eq!(input.events.len(), 1);
    assert_eq!(input.time, 250);
    assert_eq!(input.max_texture_side, 2048);
    assert!(w.events.is_empty());
    let (input, _queue) = w.begin_frame(START + 300).unwrap();
    assert!(input.events.is_empty());
}

#[test]
fn first_tick_renders() {
    let mut w = window();
    let (_, q) = w.begin_frame(START).unwrap();
    let actions = w.finish_frame(q, output(1_000_000, vec![]), START);
    assert!(actions.render);
    assert_eq!(w.schedule.repaint_after, None);
}

#[test]
fn zero_delay_always_renders() {
    let mut w = window();
    for now in [START, START + 1, START + 1] {
        let (_, q) = w.begin_frame(now).unwrap();
        let actions = w.finish_frame(q, output(0, vec![]), now);
        assert!(actions.render);
        assert_eq!(w.schedule.repaint_after, None);
    }
}

#[test]
fn delayed_repaint_waits_for_its_time() {
    let mut w = window();
    let (_, q) = w.begin_frame(START).unwrap();
    assert!(w.finish_frame(q, output(0, vec![]), START).render);
    let (_, q) = w.begin_frame(START + 10).unwrap();
    assert!(!w.finish_frame(q, output(100, vec![]), START + 10).render);
    assert_eq!(w.schedule.repaint_after, Some(START + 110));
    let (_, q) = w.begin_frame(START + 50).unwrap();
    assert!(!w.finish_frame(q, output(100, vec![]), START + 50).render);
    assert_eq!(w.schedule.repaint_after, Some(START + 150));
    let (_, q) = w.begin_frame(START + 200).unwrap();
    assert!(w.finish_frame(q, output(100, vec![]), START + 200).render);
}

#[test]
fn queue_sets_background_color() {
    let mut w = window();
    let (_, mut q) = w.begin_frame(START).unwrap();
    let red = Color { r: 255, g: 0, b: 0, a: 255 };
    q.bg_color(red);
    w.finish_frame(q, output(0, vec![]), START);
    assert_eq!(w.schedule.bg_color, red);
}

#[test]
fn user_close_is_issued_once() {
    let mut w = window();
    let (_, mut q) = w.begin_frame(START).unwrap();
    q.close_window();
    let actions = w.finish_frame(q, output(0, vec![]), START);
    assert!(actions.close);
    assert!(!actions.render);
    assert!(w.begin_frame(START + 1).is_none());
    let mut q = Queue::new(Color::black());
    q.close_window();
    let actions = w.finish_frame(q, output(0, vec![ViewportCommand::Close]), START + 1);
    assert!(!actions.close);
    assert!(!actions.render);
}

#[test]
fn engine_close_is_issued_once() {
    let mut w = window();
    let (_, q) = w.begin_frame(START).unwrap();
    let actions = w.finish_frame(q, output(0, vec![ViewportCommand::Close]), START);
    assert!(actions.close);
    let q = Queue::new(Color::black());
    let none = FrameOutput { viewport: None, copied_text: String::new(), cursor_icon: CursorIcon::Default };
    assert!(!w.finish_frame(q, none, START + 1).close);
}

#[test]
fn missing_viewport_output_closes() {
    let mut w = window();
    let (_, q) = w.begin_frame(START).unwrap();
    let none = FrameOutput { viewport: None, copied_text: String::new(), cursor_icon: CursorIcon::Default };
    let actions = w.finish_frame(q, none, START);
    assert!(actions.close);
    assert!(w.schedule.closing);
}

#[test]
fn resize_commands_are_clamped_to_one_point() {
    let mut w = window();
    let (_, q) = w.begin_frame(START).unwrap();
    let cmds = vec![
        ViewportCommand::InnerSize { width: 400 * MILLI, height: 10 },
        ViewportCommand::Other,
        ViewportCommand::InnerSize { width: -5, height: 300 * MILLI },
    ];
    let actions = w.finish_frame(q, output(0, cmds), START);
    assert_eq!(
        actions.resizes,
        vec![Vec2 { x: 400 * MILLI, y: MILLI }, Vec2 { x: MILLI, y: 300 * MILLI }]
    );
}

#[test]
fn copied_text_and_cursor_changes_are_reported() {
    let mut w = window();
    let (_, q) = w.begin_frame(START).unwrap();
    let mut out = output(0, vec![]);
    out.copied_text = "copied".to_string();
    out.cursor_icon = CursorIcon::Grab;
    let actions = w.finish_frame(q, out, START);
    assert_eq!(actions.copy_text, Some("copied".to_string()));
    assert_eq!(actions.set_cursor, Some(NativeCursor::Hand));
    let (_, q) = w.begin_frame(START + 1).unwrap();
    let mut out = output(0, vec![]);
    out.cursor_icon = CursorIcon::PointingHand;
    let actions = w.finish_frame(q, out, START + 1);
    assert_eq!(actions.copy_text, None);
    assert_eq!(actions.set_cursor, None);
}

#[test]
fn fresh_queue_asks_nothing() {
    let mut w = window();
    let q = Queue::new(Color::black());
    let actions = w.finish_frame(q, output(5, vec![]), START);
    assert!(!actions.close);
}

#[test]
fn no_tick_starts_after_close() {
    let mut w = window();
    w.on_mouse_event(MouseEvent::CursorLeft);
    let (_, mut q) = w.begin_frame(START).unwrap();
    w.on_mouse_event(MouseEvent::CursorLeft);
    q.close_window();
    assert!(w.finish_frame(q, output(0, vec![]), START).close);
    assert!(w.begin_frame(START + 1).is_none());
    assert_eq!(w.events, vec![Event::PointerGone]);
}

#[test]
fn dispatcher_reports_windows_paste_fallback() {
    let mut w = open(ScalePolicy::SystemScaleFactor, Platform::Windows);
    assert!(!w.on_event(NativeEvent::Keyboard(key_down(Key::Other, Code::ShiftLeft)), 0));
    assert!(w.on_event(NativeEvent::Keyboard(key_down(Key::Insert, Code::Insert)), 0));
    assert!(!w.on_event(
        NativeEvent::Mouse(MouseEvent::ButtonPressed { button: MouseButton::Left, modifiers: no_mods() }),
        0
    ));
    let mut shift = Modifiers::none();
    shift.shift = true;
    assert_eq!(
        w.events,
        vec![Event::Key { key: EngineKey::Insert, pressed: true, repeat: false, modifiers: shift }]
    );
}
