use gpui_windows::backdrop::{BackdropRequest, WindowBackgroundAppearance};
use gpui_windows::click_state::DoubleClickMetrics;
use gpui_windows::geometry::{Bounds, Point, Rect, Size, WindowBorderOffset};
use gpui_windows::window_plan::{WindowOpenState, WindowOpenStatus, WindowPlacement};
use gpui_windows::window_state::{
    activation, attention_flash, AfterPlacement, FlashRequest, FullscreenChange, KeyStroke,
    ScaledBounds, StyleAndBounds, WindowAppearance, WindowBounds, WindowSnapshot,
    WindowsWindowState,
};

fn bounds(x: i32, y: i32, width: i32, height: i32) -> Bounds {
    Bounds { origin: Point { x, y }, size: Size { width, height } }
}

fn new_state() -> WindowsWindowState {
    WindowsWindowState::new(
        bounds(10, 20, 800, 600),
        144,
        WindowAppearance::Dark,
        DoubleClickMetrics { tolerance_width: 4, tolerance_height: 4, interval_ms: 500 },
    )
}

fn placement() -> WindowPlacement {
    WindowPlacement {
        show_command: 1,
        normal_position: Rect { left: 100, top: 100, right: 516, bottom: 439 },
        ..WindowPlacement::default()
    }
}

fn snapshot() -> WindowSnapshot {
    WindowSnapshot {
        placement: Some(placement()),
        style: 0x16cf_0000,
        window_rect: Some(Rect { left: 90, top: 91, right: 190, bottom: 291 }),
    }
}

const DISPLAY: Bounds = Bounds {
    origin: Point { x: 1920, y: 0 },
    size: Size { width: 2560, height: 1440 },
};

#[test]
fn new_window() {
    let state = new_state();
    let created = ScaledBounds { bounds: bounds(10, 20, 800, 600), dpi: 144 };
    assert_eq!(state.bounds(), created);
    assert_eq!(state.fullscreen_restore_bounds, created);
    assert_eq!(state.content_size(), Size { width: 800, height: 600 });
    assert_eq!(state.border_offset, WindowBorderOffset::default());
    assert_eq!(state.appearance, WindowAppearance::Dark);
    assert_eq!(state.background_appearance, WindowBackgroundAppearance::Opaque);
    assert!(state.ime_enabled && !state.hovered && !state.force_render_pending);
    assert!(state.pending_surrogate.is_none() && state.nc_button_pressed.is_none());
    assert!(state.initial_placement.is_none() && !state.is_fullscreen());
    assert!(state.last_reported_modifiers.is_none() && state.last_reported_capslock.is_none());
    assert_eq!(state.click_state.current_count, 0);
    assert_eq!(state.drag_session.last_cursor, None);
}

#[test]
fn bounds_to_save() {
    let mut state = new_state();
    state.border_offset = WindowBorderOffset { width_offset: 16, height_offset: 39 };
    let saved = ScaledBounds { bounds: bounds(108, 119, 400, 300), dpi: 144 };
    assert_eq!(state.calculate_window_bounds(Some(placement())), (saved, false));
    assert_eq!(state.window_bounds(Some(placement())), WindowBounds::Windowed(saved));
    let maximized = WindowPlacement { show_command: 3, ..placement() };
    assert_eq!(state.window_bounds(Some(maximized)), WindowBounds::Maximized(saved));
    let unknown = ScaledBounds { bounds: bounds(8, 19, -16, -39), dpi: 144 };
    assert_eq!(state.window_bounds(None), WindowBounds::Windowed(unknown));
}

#[test]
fn fullscreen_and_back() {
    let mut state = new_state();
    let change = state.toggle_fullscreen(snapshot(), DISPLAY);
    assert_eq!(
        change,
        FullscreenChange { style: 0x1600_0000, bounds: DISPLAY, non_rude: false }
    );
    assert!(state.is_fullscreen());
    assert!(!state.is_maximized(true));
    assert_eq!(
        state.fullscreen,
        Some(StyleAndBounds { style: 0x16cf_0000, bounds: bounds(90, 91, 100, 200) })
    );
    let restored = ScaledBounds { bounds: bounds(100, 100, 416, 339), dpi: 144 };
    assert_eq!(state.window_bounds(None), WindowBounds::Fullscreen(restored));
    let later = WindowSnapshot { placement: None, style: 1, window_rect: None };
    let change = state.toggle_fullscreen(later, bounds(0, 0, 1, 1));
    assert_eq!(
        change,
        FullscreenChange {
            style: 0x16cf_0000,
            bounds: bounds(90, 91, 100, 200),
            non_rude: true,
        }
    );
    assert!(!state.is_fullscreen());
    assert!(state.is_maximized(true));
    assert!(!state.is_maximized(false));
    assert_eq!(state.fullscreen_restore_bounds, restored);
}

#[test]
fn fullscreen_without_answers_of_the_system() {
    let mut state = new_state();
    let silent = WindowSnapshot { placement: None, style: 0, window_rect: None };
    state.toggle_fullscreen(silent, DISPLAY);
    assert_eq!(
        state.fullscreen,
        Some(StyleAndBounds { style: 0, bounds: bounds(0, 0, 0, 0) })
    );
}

fn hidden_state() -> WindowsWindowState {
    let mut state = new_state();
    state.initial_placement = Some(WindowOpenStatus {
        placement: placement(),
        state: WindowOpenState::Windowed,
    });
    state
}

#[test]
fn kept_placement_is_used_once() {
    let mut state = hidden_state();
    assert_eq!(
        state.set_window_placement(false),
        Some((placement(), AfterPlacement::Nothing))
    );
    assert_eq!(state.set_window_placement(false), None);
}

#[test]
fn window_that_the_application_has_shown_stays() {
    let mut state = hidden_state();
    assert_eq!(state.set_window_placement(true), None);
    assert_eq!(state.set_window_placement(false), None);
}

#[test]
fn requests_before_the_window_is_shown_are_kept() {
    let mut state = hidden_state();
    assert!(!state.zoom(false));
    assert!(!state.request_toggle_fullscreen(false));
    assert_eq!(
        state.set_window_placement(false),
        Some((placement(), AfterPlacement::ToggleFullscreen))
    );
    let mut state = hidden_state();
    state.request_toggle_fullscreen(false);
    state.zoom(false);
    assert_eq!(
        state.set_window_placement(false),
        Some((placement(), AfterPlacement::Maximize))
    );
}

#[test]
fn requests_to_a_visible_window_are_for_now() {
    let mut state = hidden_state();
    assert!(state.zoom(true));
    assert!(state.request_toggle_fullscreen(true));
    assert_eq!(
        state.initial_placement.unwrap().state,
        WindowOpenState::Windowed
    );
    let mut state = new_state();
    assert!(!state.zoom(false));
    assert!(state.initial_placement.is_none());
}

#[test]
fn background_is_remembered_and_asked_for() {
    let mut state = new_state();
    assert_eq!(
        state.set_background_appearance(WindowBackgroundAppearance::MicaBackdrop),
        BackdropRequest::SystemBackdrop(2)
    );
    assert_eq!(
        state.background_appearance,
        WindowBackgroundAppearance::MicaBackdrop
    );
}

#[test]
fn activation_presses_and_releases_alt() {
    let plan = activation(true);
    assert!(plan.restore);
    assert_eq!(plan.strokes.0, KeyStroke { virtual_key: 18, released: false });
    assert_eq!(plan.strokes.1, KeyStroke { virtual_key: 18, released: true });
    assert!(!activation(false).restore);
}

#[test]
fn active_window_does_not_flash() {
    assert_eq!(attention_flash(true), None);
    assert_eq!(
        attention_flash(false),
        Some(FlashRequest { flags: 3, count: 1, timeout_ms: 0 })
    );
}

#[test]
fn numbers_that_overflow_are_told() {
    let state = new_state();
    assert!(state.has_window_bounds(None) && state.has_window_bounds(Some(placement())));
    let wide = Rect { left: i32::MIN, top: 0, right: i32::MAX, bottom: 0 };
    let wide_placement = WindowPlacement { normal_position: wide, ..placement() };
    assert!(!state.has_window_bounds(Some(wide_placement)));
    assert!(state.is_toggleable(snapshot()));
    let wide_snapshot = WindowSnapshot { window_rect: Some(wide), ..snapshot() };
    assert!(!state.is_toggleable(wide_snapshot));
    let mut state = new_state();
    state.toggle_fullscreen(snapshot(), DISPLAY);
    assert!(state.is_toggleable(wide_snapshot));
}
