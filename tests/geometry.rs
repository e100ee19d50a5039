use egui_baseview::input::{
    is_copy_command, is_cut_command, is_paste_command, key_modifiers, scroll_points, wheel_event,
    Code, Event, Modifiers, Platform, ScrollDelta, Vec2,
};
use egui_baseview::units::{
    logical_from_physical, physical_from_logical, LogicalSize, PhysicalSize, Scale, MILLI,
};

fn scale(num: u16, den: u16) -> Scale {
    Scale::from_ratio(num, den).expect("valid scale")
}

#[test]
fn scale_rejects_zero_parts() {
    assert_eq!(Scale::from_ratio(0, 1), None);
    assert_eq!(Scale::from_ratio(1, 0), None);
    assert_eq!(Scale::from_ratio(3, 2), Some(Scale { num: 3, den: 2 }));
}

#[test]
fn physical_size_is_rounded_logical_size() {
    let (p, l) = physical_from_logical(800, 600, scale(3, 2)).unwrap();
    assert_eq!(p, PhysicalSize { width: 1200, height: 900 });
    assert_eq!(l, LogicalSize { width_num: 800, height_num: 600, den: 1 });
    // 3 * 1.25 = 3.75 rounds to 4; 1 * 0.5 rounds half up to 1.
    let (p, _) = physical_from_logical(3, 1, scale(5, 4)).unwrap();
    assert_eq!(p, PhysicalSize { width: 4, height: 1 });
    let (p, _) = physical_from_logical(1, 0, scale(1, 2)).unwrap();
    assert_eq!(p, PhysicalSize { width: 1, height: 0 });
}

#[test]
fn physical_size_overflow_is_refused() {
    assert_eq!(physical_from_logical(u32::MAX, 1, scale(2, 1)), None);
    assert!(physical_from_logical(u32::MAX, 1, scale(1, 1)).is_some());
}

#[test]
fn logical_size_from_physical_is_exact() {
    let l = logical_from_physical(PhysicalSize { width: 1201, height: 900 }, scale(3, 2));
    assert_eq!(l, LogicalSize { width_num: 2402, height_num: 1800, den: 3 });
}

#[test]
fn line_scroll_uses_fifty_points_per_line() {
    let v = scroll_points(ScrollDelta::Lines { x: 1000, y: -2000 }, scale(1, 1), Platform::Other);
    assert_eq!(v, Vec2 { x: 50 * MILLI, y: -100 * MILLI });
}

#[test]
fn pixel_scroll_divides_by_scale() {
    let v = scroll_points(ScrollDelta::Pixels { x: 3000, y: -5001 }, scale(2, 1), Platform::Windows);
    assert_eq!(v, Vec2 { x: 1500, y: -2500 });
}

#[test]
fn macos_negates_horizontal_scroll() {
    let v = scroll_points(ScrollDelta::Lines { x: 1000, y: 1000 }, scale(1, 1), Platform::MacOs);
    assert_eq!(v, Vec2 { x: -50_000, y: 50_000 });
}

#[test]
fn wheel_interpretations_in_priority_order() {
    let v = Vec2 { x: 10, y: 200_000 };
    let mut m = Modifiers::none();
    assert_eq!(wheel_event(v, m), Event::Scroll(v));
    m.shift = true;
    assert_eq!(wheel_event(v, m), Event::Scroll(Vec2 { x: 200_010, y: 0 }));
    m.ctrl = true;
    assert_eq!(wheel_event(v, m), Event::Zoom { delta_y: 200_000 });
}

#[test]
fn control_is_primary_except_on_macos() {
    let none = Modifiers::none();
    let m = key_modifiers(none, Code::ControlLeft, true, Platform::Windows);
    assert!(m.ctrl && m.command);
    let m = key_modifiers(none, Code::ControlRight, true, Platform::MacOs);
    assert!(m.ctrl && !m.command);
    let m = key_modifiers(none, Code::MetaLeft, true, Platform::MacOs);
    assert!(m.mac_cmd && m.command && !m.ctrl);
    let m = key_modifiers(none, Code::MetaLeft, true, Platform::Other);
    assert_eq!(m, none);
    let m = key_modifiers(m, Code::ShiftRight, true, Platform::Other);
    assert!(m.shift);
    let m = key_modifiers(m, Code::ShiftLeft, false, Platform::Other);
    assert!(!m.shift);
    let m = key_modifiers(none, Code::AltLeft, true, Platform::Other);
    assert!(m.alt);
}

#[test]
fn clipboard_shortcuts_with_windows_fallbacks() {
    let mut cmd = Modifiers::none();
    cmd.command = true;
    assert!(is_cut_command(cmd, Code::KeyX, Platform::Other));
    assert!(is_copy_command(cmd, Code::KeyC, Platform::Other));
    assert!(is_paste_command(cmd, Code::KeyV, Platform::Other));
    assert!(!is_paste_command(cmd, Code::KeyC, Platform::Other));

    let mut shift = Modifiers::none();
    shift.shift = true;
    let mut ctrl = Modifiers::none();
    ctrl.ctrl = true;
    assert!(is_cut_command(shift, Code::Delete, Platform::Windows));
    assert!(!is_cut_command(shift, Code::Delete, Platform::Other));
    assert!(is_copy_command(ctrl, Code::Insert, Platform::Windows));
    assert!(!is_copy_command(ctrl, Code::Insert, Platform::MacOs));
    assert!(is_paste_command(shift, Code::Insert, Platform::Windows));
    assert!(!is_paste_command(Modifiers::none(), Code::KeyV, Platform::Windows));
}
