use gpui_windows::click_state::{
    ClickState, DoubleClickMetrics, MouseButton, NavigationDirection, SPI_SETDOUBLECLICKTIME,
    SPI_SETDOUBLECLKHEIGHT, SPI_SETDOUBLECLKWIDTH,
};
use gpui_windows::geometry::Point;
use std::time::Duration;

fn metrics() -> DoubleClickMetrics {
    DoubleClickMetrics { tolerance_width: 4, tolerance_height: 4, interval_ms: 500 }
}

fn point(x: i32, y: i32) -> Point {
    Point { x, y }
}

/// Nanoseconds.
const MILLISECOND: i128 = 1_000_000;

#[test]
fn test_double_click_interval() {
    let mut state = ClickState::new(metrics());
    assert_eq!(state.update(MouseButton::Left, point(0, 0)), 1);
    assert_eq!(state.update(MouseButton::Right, point(0, 0)), 1);
    assert_eq!(state.update(MouseButton::Left, point(0, 0)), 1);
    assert_eq!(state.update(MouseButton::Left, point(0, 0)), 2);
    state.last_click -= Duration::from_millis(700).as_nanos() as i128;
    assert_eq!(state.update(MouseButton::Left, point(0, 0)), 1);
}

#[test]
fn test_double_click_spatial_tolerance() {
    let mut state = ClickState::new(metrics());
    assert_eq!(state.update(MouseButton::Left, point(-3, 0)), 1);
    assert_eq!(state.update(MouseButton::Left, point(0, 3)), 2);
    assert_eq!(state.update(MouseButton::Right, point(3, 2)), 1);
    assert_eq!(state.update(MouseButton::Right, point(10, 0)), 1);
}

#[test]
fn first_click_near_the_corner_counts_one() {
    let mut state = ClickState::new(metrics());
    assert_eq!(state.current_count, 0);
    assert_eq!(state.update(MouseButton::Left, point(1, 1)), 1);
    assert_eq!(state.current_count, 1);
}

#[test]
fn update_takes_the_clock() {
    let mut state = ClickState::new(metrics());
    assert_eq!(state.last_click, 0);
    let long_ago = -600 * MILLISECOND;
    state.last_click = long_ago;
    assert_eq!(state.update(MouseButton::Left, point(0, 0)), 1);
    let first = state.last_click;
    assert!(first >= 0);
    while state.anchor.elapsed() < Duration::from_nanos(first as u64 + 1) {}
    assert_eq!(state.update(MouseButton::Left, point(0, 0)), 2);
    assert!(state.last_click > first);
}

#[test]
fn clock_before_the_last_click_is_no_time() {
    let mut state = ClickState::new(metrics());
    state.last_click = i128::MAX;
    state.current_count = 1;
    assert_eq!(state.update_at(MouseButton::Left, point(0, 0), i128::MIN), 2);
    assert_eq!(state.last_click, i128::MIN);
    assert_eq!(state.update_at(MouseButton::Left, point(0, 0), i128::MAX), 1);
}

#[test]
fn interval_is_exclusive() {
    let mut state = ClickState::new(metrics());
    let first = 900 * MILLISECOND;
    assert_eq!(state.update_at(MouseButton::Left, point(0, 0), first), 1);
    let second = first + 500 * MILLISECOND - 1;
    assert_eq!(state.update_at(MouseButton::Left, point(0, 0), second), 2);
    let third = second + 500 * MILLISECOND;
    assert_eq!(state.update_at(MouseButton::Left, point(0, 0), third), 1);
}

#[test]
fn tolerance_is_inclusive() {
    let mut state = ClickState::new(metrics());
    assert_eq!(state.update_at(MouseButton::Left, point(100, 100), 0), 1);
    assert_eq!(state.update_at(MouseButton::Left, point(104, 96), 0), 2);
    assert_eq!(state.update_at(MouseButton::Left, point(109, 96), 0), 1);
    assert_eq!(state.update_at(MouseButton::Left, point(109, 101), 0), 1);
}

#[test]
fn run_of_clicks_is_counted() {
    let mut state = ClickState::new(metrics());
    let mut now = 0;
    state.update_at(MouseButton::Middle, point(7, 7), now);
    for expected in 2..6 {
        now += 10 * MILLISECOND;
        assert_eq!(state.update_at(MouseButton::Middle, point(7, 7), now), expected);
    }
    let back = MouseButton::Navigate(NavigationDirection::Back);
    let forward = MouseButton::Navigate(NavigationDirection::Forward);
    assert_eq!(state.update_at(back, point(7, 7), now), 1);
    assert_eq!(state.update_at(forward, point(7, 7), now), 1);
    assert_eq!(state.update_at(forward, point(7, 7), now), 2);
}

#[test]
fn run_from_a_fresh_state_is_counted() {
    let mut state = ClickState::new(metrics());
    for expected in 1..5 {
        let now = i128::try_from(expected).unwrap() * MILLISECOND;
        assert_eq!(state.update_at(MouseButton::Left, point(2, 2), now), expected);
    }
}

#[test]
fn far_clicks_with_other_buttons_are_counted() {
    let mut state = ClickState::new(metrics());
    state.update_at(MouseButton::Right, point(i32::MIN, i32::MIN), 0);
    assert_eq!(state.update_at(MouseButton::Left, point(i32::MAX, i32::MAX), 0), 1);
}

#[test]
fn settings_are_taken_up_one_by_one() {
    let current = DoubleClickMetrics { tolerance_width: 9, tolerance_height: 8, interval_ms: 77 };
    let mut state = ClickState::new(metrics());
    state.system_update(31, current);
    assert_eq!(state.metrics, metrics());
    state.system_update(SPI_SETDOUBLECLKWIDTH, current);
    assert_eq!(state.metrics.tolerance_width, 9);
    assert_eq!(state.metrics.tolerance_height, 4);
    state.system_update(SPI_SETDOUBLECLKHEIGHT, current);
    assert_eq!(state.metrics.tolerance_height, 8);
    assert_eq!(state.metrics.interval_ms, 500);
    state.system_update(SPI_SETDOUBLECLICKTIME, current);
    assert_eq!(state.metrics, current);
}

#[test]
fn setting_numbers_are_the_systems() {
    let current = DoubleClickMetrics { tolerance_width: 1, tolerance_height: 2, interval_ms: 3 };
    let mut state = ClickState::new(metrics());
    state.system_update(29, current);
    state.system_update(30, current);
    state.system_update(32, current);
    assert_eq!(state.metrics, current);
}

#[test]
fn late_click_is_not_compared() {
    let mut state = ClickState::new(metrics());
    state.update_at(MouseButton::Right, point(i32::MIN, 0), 0);
    assert_eq!(state.update_at(MouseButton::Right, point(0, 0), 900 * MILLISECOND), 1);
}

#[test]
fn clicks_centuries_later_are_told_apart() {
    let mut state = ClickState::new(metrics());
    let century = 100 * 365 * 24 * 3600 * 1000 * MILLISECOND;
    assert_eq!(state.update_at(MouseButton::Left, point(0, 0), 5 * century), 1);
    assert_eq!(state.update_at(MouseButton::Left, point(0, 0), 6 * century), 1);
    assert_eq!(state.update_at(MouseButton::Left, point(0, 0), 6 * century + 1), 2);
}

#[test]
fn clicks_out_of_reach_are_told() {
    let mut state = ClickState::new(metrics());
    state.last_position = point(i32::MIN, 0);
    assert!(!state.is_countable(MouseButton::Left, point(0, 0)));
    assert!(state.is_countable(MouseButton::Left, point(-1, 0)));
    assert!(state.is_countable(MouseButton::Right, point(i32::MAX, 0)));
    state.current_count = usize::MAX;
    assert!(!state.is_countable(MouseButton::Left, point(-1, 0)));
}
