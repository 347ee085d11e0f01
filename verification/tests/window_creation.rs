use gpui_windows::geometry::{Bounds, Point, Rect, Size, WindowBorderOffset};
use gpui_windows::window_creation::{CreationReply, CreationStep, PlacementFacts, WindowCreation};
use gpui_windows::window_plan::{
    OpenAction, PopupNotSupportedError, WindowKind, WindowParams, WindowPlacement,
};

type Creation = WindowCreation<&'static str>;

fn params(kind: WindowKind, focus: bool) -> WindowParams {
    WindowParams {
        kind,
        titlebar: None,
        is_movable: true,
        is_resizable: true,
        is_minimizable: true,
        focus,
        show: true,
    }
}

fn start(kind: WindowKind) -> Creation {
    WindowCreation::start(params(kind, true), true).ok().unwrap()
}

fn facts() -> PlacementFacts {
    PlacementFacts {
        current: WindowPlacement { show_command: 1, ..WindowPlacement::default() },
        given: Bounds {
            origin: Point { x: -4000, y: 50 },
            size: Size { width: 200, height: 100 },
        },
        given_on_display: false,
        default_bounds: Bounds {
            origin: Point { x: 10, y: 20 },
            size: Size { width: 30, height: 40 },
        },
    }
}

const FRAME: (Rect, Rect) = (
    Rect { left: 0, top: 0, right: 116, bottom: 139 },
    Rect { left: 0, top: 0, right: 100, bottom: 100 },
);

/// The reply to a step where all goes well.
fn good_reply(step: &CreationStep<&'static str>) -> CreationReply<&'static str> {
    match step {
        CreationStep::Create => CreationReply::Created { inner: Some(Ok(())), created: Ok(()) },
        CreationStep::MeasureBorder => CreationReply::Border(Ok(FRAME)),
        CreationStep::AskPlacement => CreationReply::Placement(Ok(facts())),
        _ => CreationReply::Finished(Ok(())),
    }
}

fn name(step: &CreationStep<&'static str>) -> &'static str {
    match step {
        CreationStep::DisableParent => "parent",
        CreationStep::FindDisplay => "display",
        CreationStep::Create => "create",
        CreationStep::RegisterDropTarget => "register",
        CreationStep::DisableEffects => "effects",
        CreationStep::Configure => "configure",
        CreationStep::MeasureBorder => "border",
        CreationStep::AskPlacement => "placement",
        CreationStep::Open(_) => "open",
        CreationStep::Done => "done",
        CreationStep::Failed(error) => error,
    }
}

/// The steps of bringing up a window where all goes well.
fn steps(mut creation: Creation) -> Vec<&'static str> {
    let mut steps = vec![name(&creation.step)];
    while !matches!(creation.step, CreationStep::Done | CreationStep::Failed(_)) {
        let reply = good_reply(&creation.step);
        creation = creation.answer(reply);
        steps.push(name(&creation.step));
    }
    steps
}

/// A window at the given step.
fn at(kind: WindowKind, step: &str) -> Creation {
    let mut creation = start(kind);
    while name(&creation.step) != step {
        let reply = good_reply(&creation.step);
        creation = creation.answer(reply);
    }
    creation
}

#[test]
fn windows_come_up_in_order() {
    assert_eq!(
        steps(start(WindowKind::Normal)),
        vec!["display", "create", "register", "configure", "border", "placement", "open", "done"]
    );
    assert_eq!(
        steps(start(WindowKind::Dialog)),
        vec![
            "parent", "display", "create", "register", "configure", "border", "placement", "open",
            "done",
        ]
    );
    assert_eq!(
        steps(start(WindowKind::Overlay)),
        vec!["display", "create", "effects", "configure", "border", "placement", "open", "done"]
    );
}

#[test]
fn anchored_popup_is_not_begun() {
    let begun: Result<Creation, _> =
        WindowCreation::start(params(WindowKind::AnchoredPopup, true), true);
    assert_eq!(begun.err(), Some(PopupNotSupportedError));
}

#[test]
fn restored_window_falls_back_to_the_default_bounds() {
    let creation = at(WindowKind::Normal, "open");
    assert_eq!(
        creation.border,
        WindowBorderOffset { width_offset: 16, height_offset: 39 }
    );
    let expected = WindowPlacement {
        normal_position: Rect { left: 2, top: 1, right: 48, bottom: 80 },
        ..facts().current
    };
    assert!(
        matches!(creation.step, CreationStep::Open(OpenAction::Restore(found)) if found == expected)
    );
}

#[test]
fn overlay_opens_where_it_was_given() {
    let creation = at(WindowKind::Overlay, "open");
    let expected = Bounds {
        origin: Point { x: -4008, y: 31 },
        size: Size { width: 216, height: 139 },
    };
    assert!(matches!(
        creation.step,
        CreationStep::Open(OpenAction::PlaceAndShow { bounds, show_command: 1 })
            if bounds == expected
    ));
}

#[test]
fn failures_end_the_creation() {
    let failed = |step: &str, reply: CreationReply<&'static str>| {
        name(&at(WindowKind::Normal, step).answer(reply).step)
    };
    let created = |inner, created| CreationReply::Created { inner, created };
    assert_eq!(failed("display", CreationReply::Finished(Err("no monitor"))), "no monitor");
    assert_eq!(failed("create", created(Some(Err("inner")), Err("outer"))), "inner");
    assert_eq!(failed("create", created(Some(Ok(())), Err("outer"))), "outer");
    assert_eq!(failed("create", created(None, Err("outer"))), "outer");
    assert_eq!(failed("register", CreationReply::Finished(Err("drag"))), "drag");
    assert_eq!(failed("border", CreationReply::Border(Err("rect"))), "rect");
    assert_eq!(failed("placement", CreationReply::Placement(Err("where"))), "where");
    assert_eq!(failed("open", CreationReply::Finished(Err("show"))), "show");
    assert_eq!(failed("configure", CreationReply::Finished(Err("frame"))), "border");
    assert_eq!(
        name(&at(WindowKind::Overlay, "effects").answer(CreationReply::Finished(Err("dwm"))).step),
        "configure"
    );
    assert_eq!(
        name(&start(WindowKind::Dialog).answer(CreationReply::Finished(Err("none"))).step),
        "display"
    );
}

#[test]
fn reply_to_another_step_changes_nothing() {
    let creation = start(WindowKind::Normal).answer(CreationReply::Border(Err("other")));
    assert_eq!(name(&creation.step), "display");
    let creation = at(WindowKind::Normal, "create").answer(CreationReply::Finished(Err("other")));
    assert_eq!(name(&creation.step), "create");
    let creation = at(WindowKind::Normal, "done").answer(CreationReply::Finished(Err("late")));
    assert_eq!(name(&creation.step), "done");
}

#[test]
fn replies_that_overflow_are_told() {
    let creation = at(WindowKind::Normal, "create");
    assert!(!creation.can_answer(&CreationReply::Created { inner: None, created: Ok(()) }));
    assert!(creation.can_answer(&CreationReply::Created { inner: None, created: Err("outer") }));
    let creation = at(WindowKind::Normal, "border");
    let wide = Rect { left: i32::MIN, top: 0, right: i32::MAX, bottom: 0 };
    assert!(!creation.can_answer(&CreationReply::Border(Ok((wide, FRAME.1)))));
    assert!(creation.can_answer(&CreationReply::Border(Ok(FRAME))));
    let mut far = facts();
    far.given.origin.x = i32::MAX;
    let creation = at(WindowKind::Overlay, "placement");
    assert!(!creation.can_answer(&CreationReply::Placement(Ok(far))));
    let creation = at(WindowKind::Normal, "placement");
    assert!(creation.can_answer(&CreationReply::Placement(Ok(far))));
}
