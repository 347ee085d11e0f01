use gpui_windows::geometry::{Bounds, Point, Rect, Size, WindowBorderOffset};
use gpui_windows::window_plan::{
    choose_display, creation_outcome, open_action, plan_window, retrieve_window_placement, set_accepts_drags,
    DropTargetChange, OpenAction, PopupNotSupportedError, TitlebarOptions, WindowKind,
    WindowOpenState, WindowOpenStatus, WindowParams, WindowPlacement,
};

fn params(kind: WindowKind) -> WindowParams {
    WindowParams {
        kind,
        titlebar: None,
        is_movable: true,
        is_resizable: true,
        is_minimizable: true,
        focus: true,
        show: true,
    }
}

fn bounds(x: i32, y: i32, width: i32, height: i32) -> Bounds {
    Bounds { origin: Point { x, y }, size: Size { width, height } }
}

#[test]
fn anchored_popups_are_turned_down() {
    assert_eq!(
        plan_window(&params(WindowKind::AnchoredPopup), false).err(),
        Some(PopupNotSupportedError)
    );
}

#[test]
fn normal_window_styles() {
    let plan = plan_window(&params(WindowKind::Normal), true).ok().unwrap();
    assert_eq!(plan.style, 0x000f_0000);
    assert_eq!(plan.ex_style, 0x0004_0000);
    assert!(!plan.modal);
    let mut fixed = params(WindowKind::Floating);
    fixed.is_resizable = false;
    let plan = plan_window(&fixed, false).ok().unwrap();
    assert_eq!(plan.style, 0x000a_0000);
    assert_eq!(plan.ex_style, 0x0024_0000);
    fixed.is_minimizable = false;
    assert_eq!(plan_window(&fixed, false).ok().unwrap().style, 0x0008_0000);
    fixed.is_resizable = true;
    assert_eq!(plan_window(&fixed, false).ok().unwrap().style, 0x000d_0000);
}

#[test]
fn dialog_styles() {
    let plan = plan_window(&params(WindowKind::Dialog), true).ok().unwrap();
    assert!(plan.modal);
    assert_eq!(plan.style, 0x80cf_0000);
    assert_eq!(plan.ex_style, 0x0000_0001);
    let mut small = params(WindowKind::Dialog);
    small.is_resizable = false;
    small.is_minimizable = false;
    let plan = plan_window(&small, false).ok().unwrap();
    assert_eq!(plan.style, 0x80c8_0000);
    assert_eq!(plan.ex_style, 0x0020_0001);
}

#[test]
fn bare_window_styles() {
    let plan = plan_window(&params(WindowKind::PopUp), true).ok().unwrap();
    assert_eq!((plan.style, plan.ex_style), (0, 0x88));
    let plan = plan_window(&params(WindowKind::Overlay), true).ok().unwrap();
    assert_eq!((plan.style, plan.ex_style), (0, 0x0800_00a8));
    let plan = plan_window(&params(WindowKind::Overlay), false).ok().unwrap();
    assert_eq!(plan.ex_style, 0x0820_00a8);
}

#[test]
fn title_bars() {
    let mut params = params(WindowKind::Normal);
    let plan = plan_window(&params, false).ok().unwrap();
    assert!(plan.hide_title_bar);
    assert_eq!(plan.title, "");
    params.titlebar = Some(TitlebarOptions { title: None, appears_transparent: false });
    let plan = plan_window(&params, false).ok().unwrap();
    assert!(!plan.hide_title_bar);
    assert_eq!(plan.title, "");
    params.titlebar = Some(TitlebarOptions {
        title: Some("Editor".to_string()),
        appears_transparent: true,
    });
    let plan = plan_window(&params, false).ok().unwrap();
    assert!(plan.hide_title_bar);
    assert_eq!(plan.title, "Editor");
}

#[test]
fn failure_inside_the_creation_is_told_first() {
    assert_eq!(
        creation_outcome::<u8, u8, &str>(Some(Err("inner")), Err("outer")),
        Err("inner")
    );
    assert_eq!(
        creation_outcome::<u8, u8, &str>(Some(Err("inner")), Ok(1)),
        Err("inner")
    );
    assert_eq!(
        creation_outcome::<u8, u8, &str>(Some(Ok(2)), Err("outer")),
        Err("outer")
    );
    assert_eq!(
        creation_outcome::<u8, u8, &str>(None, Err("outer")),
        Err("outer")
    );
    assert_eq!(
        creation_outcome::<u8, u8, &str>(Some(Ok(2)), Ok(1)),
        Ok((1, 2))
    );
}

#[test]
fn bounds_off_the_display_fall_back() {
    let border = WindowBorderOffset { width_offset: 2, height_offset: 4 };
    let given = bounds(-5000, 0, 100, 100);
    let default_bounds = bounds(10, 20, 30, 40);
    let current = WindowPlacement { flags: 7, show_command: 9, ..WindowPlacement::default() };
    let place = |on_display: bool, honor: bool| {
        retrieve_window_placement(current, given, on_display, default_bounds, &border, honor)
    };
    let as_given = Rect { left: -5001, top: -2, right: -4899, bottom: 102 };
    let fallen_back = Rect { left: 9, top: 18, right: 41, bottom: 62 };
    assert_eq!(place(false, false).normal_position, fallen_back);
    assert_eq!(place(true, false).normal_position, as_given);
    assert_eq!(place(false, true).normal_position, as_given);
    assert_eq!(place(false, true).flags, 7);
    assert_eq!(place(false, true).show_command, 9);
}

#[test]
fn focused_window_is_restored() {
    let placement = WindowPlacement {
        normal_position: Rect { left: 1, top: 2, right: 31, bottom: 42 },
        ..WindowPlacement::default()
    };
    assert_eq!(
        open_action(&params(WindowKind::Normal), placement),
        OpenAction::Restore(placement)
    );
}

#[test]
fn window_that_the_application_places_is_put_there() {
    let placement = WindowPlacement {
        normal_position: Rect { left: -900, top: 2, right: -870, bottom: 42 },
        ..WindowPlacement::default()
    };
    let mut unfocused = params(WindowKind::Normal);
    unfocused.focus = false;
    assert_eq!(
        open_action(&unfocused, placement),
        OpenAction::PlaceAndShow { bounds: bounds(-900, 2, 30, 40), show_command: 4 }
    );
    assert_eq!(
        open_action(&params(WindowKind::Overlay), placement),
        OpenAction::PlaceAndShow { bounds: bounds(-900, 2, 30, 40), show_command: 1 }
    );
}

#[test]
fn hidden_window_keeps_its_placement() {
    let mut hidden = params(WindowKind::Overlay);
    hidden.show = false;
    let placement = WindowPlacement::default();
    assert_eq!(
        open_action(&hidden, placement),
        OpenAction::Stash(WindowOpenStatus { placement, state: WindowOpenState::Windowed })
    );
}

#[test]
fn overlay_never_takes_drags() {
    for accepts in [false, true] {
        assert_eq!(
            set_accepts_drags(WindowKind::Overlay, accepts),
            DropTargetChange::Unchanged
        );
    }
    assert_eq!(
        set_accepts_drags(WindowKind::Normal, true),
        DropTargetChange::Renew
    );
    assert_eq!(
        set_accepts_drags(WindowKind::PopUp, false),
        DropTargetChange::Revoke
    );
}

#[test]
fn display_that_was_asked_for_comes_first() {
    assert_eq!(choose_display(Some(2), Some(1)), Some(2));
    assert_eq!(choose_display(None, Some(1)), Some(1));
    assert_eq!(choose_display(Some(2), None), Some(2));
    assert_eq!(choose_display::<u8>(None, None), None);
}
