use gpui_windows::geometry::{
    calculate_client_rect, calculate_window_rect, caret_position, has_caret_position, has_client_rect, has_move_target,
    has_resize_target, has_window_rect, move_target, resize_target, Bounds, Point, Rect, Size, WindowBorderOffset,
};

fn bounds(x: i32, y: i32, width: i32, height: i32) -> Bounds {
    Bounds { origin: Point { x, y }, size: Size { width, height } }
}

fn rect(left: i32, top: i32, right: i32, bottom: i32) -> Rect {
    Rect { left, top, right, bottom }
}

#[test]
fn border_is_what_the_window_has_more() {
    let mut border = WindowBorderOffset::default();
    assert_eq!((border.width_offset, border.height_offset), (0, 0));
    border.update(rect(100, 50, 916, 689), rect(0, 0, 800, 600));
    assert_eq!(border.width_offset, 16);
    assert_eq!(border.height_offset, 39);
}

#[test]
fn odd_offsets_give_the_far_side_more() {
    let border = WindowBorderOffset { width_offset: 16, height_offset: 39 };
    let window = calculate_window_rect(bounds(100, 200, 800, 600), &border);
    assert_eq!(window, rect(92, 181, 908, 820));
}

#[test]
fn negative_offsets_are_halved_toward_zero() {
    let border = WindowBorderOffset { width_offset: -3, height_offset: -1 };
    let window = calculate_window_rect(bounds(0, 0, 10, 10), &border);
    assert_eq!(window, rect(1, 0, 8, 9));
}

#[test]
fn client_area_and_frame_are_inverse() {
    for width_offset in [-5, -1, 0, 1, 16, 17] {
        for height_offset in [-2, 0, 3, 39] {
            let border = WindowBorderOffset { width_offset, height_offset };
            let client = bounds(-20, 33, 640, 480);
            let window = calculate_window_rect(client, &border);
            assert_eq!(calculate_client_rect(window, &border), client);
            assert_eq!(window.bounds().size.width, 640 + width_offset);
            assert_eq!(window.bounds().size.height, 480 + height_offset);
        }
    }
}

#[test]
fn client_area_of_a_rectangle() {
    let border = WindowBorderOffset { width_offset: 16, height_offset: 39 };
    assert_eq!(
        calculate_client_rect(rect(92, 181, 908, 820), &border),
        bounds(100, 200, 800, 600)
    );
}

#[test]
fn resize_adds_the_border() {
    let border = WindowBorderOffset { width_offset: 16, height_offset: 39 };
    assert_eq!(
        resize_target(bounds(5, 6, 300, 200), &border),
        bounds(5, 6, 316, 239)
    );
}

#[test]
fn move_puts_the_client_area_on_the_target() {
    let window = rect(100, 100, 500, 500);
    let client = Point { x: 108, y: 131 };
    let origin = move_target(Point { x: 0, y: 0 }, client, window);
    assert_eq!(origin, Point { x: -8, y: -31 });
}

#[test]
fn caret_is_half_way_down() {
    assert_eq!(
        caret_position(Point { x: 12, y: 40 }, 21),
        Point { x: 12, y: 50 }
    );
    assert_eq!(
        caret_position(Point { x: 12, y: 40 }, -3),
        Point { x: 12, y: 39 }
    );
}

#[test]
fn numbers_at_the_limit_are_told() {
    let border = WindowBorderOffset { width_offset: 2, height_offset: 3 };
    let bounds = |x: i32, width: i32| Bounds {
        origin: Point { x, y: 0 },
        size: Size { width, height: 10 },
    };
    assert!(has_window_rect(bounds(i32::MIN + 1, 5), &border));
    assert!(!has_window_rect(bounds(i32::MIN, 5), &border));
    assert!(has_window_rect(bounds(0, i32::MAX - 1), &border));
    assert!(!has_window_rect(bounds(0, i32::MAX), &border));
    assert!(has_resize_target(bounds(-9, i32::MAX - 2), &border));
    assert!(!has_resize_target(bounds(-9, i32::MAX - 1), &border));
    let rect = |left: i32, right: i32| Rect { left, top: 0, right, bottom: 9 };
    assert!(rect(-1, i32::MAX - 1).has_extent());
    assert!(!rect(-1, i32::MAX).has_extent());
    assert!(has_client_rect(rect(-1, i32::MAX), &border));
    assert!(!has_client_rect(rect(-4, i32::MAX), &border));
    assert!(!has_client_rect(rect(i32::MAX, i32::MAX), &border));
    assert!(WindowBorderOffset::is_measurable(rect(0, 9), rect(0, 5)));
    assert!(!WindowBorderOffset::is_measurable(rect(-1, i32::MAX), rect(0, 5)));
    assert!(!WindowBorderOffset::is_measurable(rect(0, i32::MAX), rect(1, 0)));
    let origin = Point { x: 0, y: 0 };
    assert!(has_move_target(Point { x: i32::MIN, y: 0 }, origin, rect(0, 9)));
    assert!(!has_move_target(Point { x: i32::MIN, y: 0 }, origin, rect(-1, 9)));
    assert!(has_caret_position(Point { x: 0, y: i32::MAX - 2 }, 5));
    assert!(!has_caret_position(Point { x: 0, y: i32::MAX - 2 }, 6));
}
