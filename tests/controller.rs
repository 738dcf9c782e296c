use egui_plotter::{
    Chart, EguiBackend, Fixed, MouseButton, MouseConfig, PointerButtons, PointerInput, Region,
    Transform, DEFAULT_MOVE_SCALE, DEFAULT_SCROLL_SCALE,
};

fn no_buttons() -> PointerButtons {
    PointerButtons { primary: false, middle: false, secondary: false }
}

fn input(dx: i64, dy: i64, scroll: i64, buttons: PointerButtons) -> PointerInput {
    PointerInput {
        delta_x: Fixed::from_micros(dx),
        delta_y: Fixed::from_micros(dy),
        scroll_y: Fixed::from_micros(scroll),
        buttons,
    }
}

fn region() -> Region {
    Region {
        min_x: Fixed::from_int(10),
        min_y: Fixed::from_int(20),
        width: Fixed::from_int(200),
        height: Fixed::from_int(100),
    }
}

#[test]
fn default_transform_unchanged_without_input() {
    let mut chart = Chart::new(());
    let backend = chart.draw(&input(0, 0, 0, no_buttons()), region());
    let t = chart.get_transform();
    assert_eq!(t.pitch, Fixed::zero());
    assert_eq!(t.yaw, Fixed::zero());
    assert_eq!(t.scale, Fixed::one());
    assert_eq!((t.x, t.y), (0, 0));
    assert_eq!(backend, EguiBackend::new(region()));
}

#[test]
fn default_transform_unchanged_with_motion_when_mouse_disabled() {
    let mut chart = Chart::new(());
    let all = PointerButtons { primary: true, middle: true, secondary: true };
    chart.draw(&input(7_000_000, -3_000_000, 50_000_000, all), region());
    assert_eq!(chart.get_transform(), Transform::default());
}

#[test]
fn rotate_drag_scenario() {
    let mouse = MouseConfig::default()
        .rotate(true)
        .pitch_scale(Fixed::from_micros(10_000))
        .yaw_scale(Fixed::from_micros(10_000));
    let mut chart = Chart::new(()).mouse(mouse);
    let held = PointerButtons { primary: true, middle: false, secondary: false };
    chart.draw(&input(10_000_000, -5_000_000, 0, held), region());
    let t = chart.get_transform();
    assert_eq!(t.pitch, Fixed::from_micros(-50_000));
    assert_eq!(t.yaw, Fixed::from_micros(-100_000));
    assert_eq!((t.x, t.y), (0, 0));
    assert_eq!(t.scale, Fixed::one());
}

#[test]
fn rotate_needs_its_button() {
    let mut chart = Chart::new(()).mouse(MouseConfig::enabled());
    let wrong = PointerButtons { primary: false, middle: false, secondary: true };
    chart.draw(&input(10_000_000, -5_000_000, 0, wrong), region());
    let t = chart.get_transform();
    assert_eq!(t.pitch, Fixed::zero());
    assert_eq!(t.yaw, Fixed::zero());
}

#[test]
fn rotate_disabled_keeps_angles() {
    let mut chart = Chart::new(()).mouse(MouseConfig::enabled().rotate(false));
    let all = PointerButtons { primary: true, middle: true, secondary: true };
    for d in [1_000_000i64, -40_000_000, 123_456_789] {
        chart.draw(&input(d, -d, 0, all), region());
    }
    let t = chart.get_transform();
    assert_eq!(t.pitch, Fixed::zero());
    assert_eq!(t.yaw, Fixed::zero());
}

#[test]
fn drag_moves_offset_by_whole_pixels() {
    let mut chart = Chart::new(()).mouse(MouseConfig::enabled());
    let middle = PointerButtons { primary: false, middle: true, secondary: false };
    let backend = chart.draw(&input(3_700_000, -2_900_000, 0, middle), region());
    let t = chart.get_transform();
    assert_eq!((t.x, t.y), (3, -2));
    assert_eq!((backend.x, backend.y), (3, -2));
    assert_eq!(t.pitch, Fixed::zero());
}

#[test]
fn drag_disabled_keeps_offset() {
    let mut chart = Chart::new(()).mouse(MouseConfig::enabled().drag(false));
    let all = PointerButtons { primary: true, middle: true, secondary: true };
    for d in [5_000_000i64, -80_000_000, 999_999_999] {
        chart.draw(&input(d, d, 0, all), region());
    }
    let t = chart.get_transform();
    assert_eq!((t.x, t.y), (0, 0));
}

#[test]
fn zoom_adds_scroll_times_zoom_scale() {
    let mut chart = Chart::new(()).mouse(MouseConfig::default().zoom(true));
    let backend = chart.draw(&input(0, 0, 100_000_000, no_buttons()), region());
    // 1 + 100 * 0.001
    assert_eq!(chart.get_transform().scale, Fixed::from_micros(1_100_000));
    assert_eq!(backend.scale, Fixed::from_micros(1_100_000));
}

#[test]
fn zoom_below_zero_folds_to_absolute_value() {
    let mut chart = Chart::new(()).mouse(MouseConfig::default().zoom(true));
    // 1 - 3000 * 0.001 = -2, folded to 2
    chart.draw(&input(0, 0, -3_000_000_000, no_buttons()), region());
    assert_eq!(chart.get_transform().scale, Fixed::from_int(2));
    for s in [-5_000_000_000i64, 1_000_000_000, -9_000_000_000] {
        chart.draw(&input(0, 0, s, no_buttons()), region());
        assert!(chart.get_transform().scale.micros() >= 0);
    }
}

#[test]
fn default_mouse_config_is_all_off() {
    let m = MouseConfig::default();
    assert!(!m.drag && !m.rotate && !m.zoom);
    assert_eq!(m.pitch_scale, Fixed::from_micros(DEFAULT_MOVE_SCALE));
    assert_eq!(m.yaw_scale, Fixed::from_micros(DEFAULT_MOVE_SCALE));
    assert_eq!(m.zoom_scale, Fixed::from_micros(DEFAULT_SCROLL_SCALE));
    assert_eq!(m.drag_bind, MouseButton::Middle);
    assert_eq!(m.rotate_bind, MouseButton::Primary);
    assert_eq!(MouseConfig::default().enable_all(), MouseConfig::enabled());
}

#[test]
fn mouse_button_is_down() {
    let p = PointerButtons { primary: false, middle: true, secondary: false };
    assert!(!MouseButton::Primary.is_down(&p));
    assert!(MouseButton::Middle.is_down(&p));
    assert!(!MouseButton::Secondary.is_down(&p));
}

#[test]
fn chart_builders_and_data() {
    let mut chart = Chart::new(5u32)
        .pitch(Fixed::from_int(1))
        .yaw(Fixed::from_int(-2))
        .scale(Fixed::from_micros(500_000));
    let t = chart.get_transform();
    assert_eq!(t.pitch, Fixed::from_int(1));
    assert_eq!(t.yaw, Fixed::from_int(-2));
    assert_eq!(t.scale, Fixed::from_micros(500_000));
    assert_eq!(*chart.get_data(), 5);
    *chart.get_data_mut() = 7;
    assert_eq!(*chart.get_data(), 7);
    chart.set_data(9);
    assert_eq!(*chart.get_data(), 9);
    let chart = chart.data(11);
    assert_eq!(*chart.get_data(), 11);
}
