use gpui_windows::drag_data::{
    file_drag_data_object, hglobal_format, private_drag_data_object, DragPath,
    WindowsDragDataObject, CF_HDROP,
};
use gpui_windows::drag_session::{
    drag_enter, drag_offer, drop_target_event, query_continue_drag, ContinueDrag, DragOffer,
    DragSession, DropEffect, DropTargetCall, FileDropEvent,
};
use gpui_windows::geometry::Point;

fn point(x: i32, y: i32) -> Point {
    Point { x, y }
}

#[test]
fn files_come_before_a_private_drag() {
    assert_eq!(drag_offer(true, true), DragOffer::Files);
    assert_eq!(drag_offer(true, false), DragOffer::Files);
    assert_eq!(drag_offer(false, true), DragOffer::AppPrivate);
    assert_eq!(drag_offer(false, false), DragOffer::Foreign);
}

#[test]
fn dropped_paths_arrive_in_order() {
    let names: Vec<String> = ["a", "b", "c"].iter().map(|name| name.to_string()).collect();
    let outcome = drag_enter(DragOffer::Files, Some(names));
    assert_eq!(outcome.effect, DropEffect::Copy);
    assert!(outcome.show_drag_image);
    let paths = outcome.entered.unwrap();
    assert_eq!(paths.len(), 3);
    assert_eq!(paths.get(0).unwrap(), "a");
    assert_eq!(paths.get(1).unwrap(), "b");
    assert_eq!(paths.get(2).unwrap(), "c");
    assert!(paths.get(3).is_none());
}

#[test]
fn private_drag_enters_without_paths() {
    let outcome = drag_enter(DragOffer::AppPrivate, Some(vec!["ignored".to_string()]));
    assert_eq!(outcome.effect, DropEffect::Copy);
    assert!(outcome.show_drag_image);
    assert_eq!(outcome.entered.unwrap().len(), 0);
}

#[test]
fn foreign_drag_is_turned_down() {
    let outcome = drag_enter(DragOffer::Foreign, Some(vec!["ignored".to_string()]));
    assert_eq!(outcome.effect, DropEffect::Nothing);
    assert!(outcome.entered.is_none());
    assert!(outcome.show_drag_image);
}

#[test]
fn unreadable_files_are_left_alone() {
    let outcome = drag_enter(DragOffer::Files, None);
    assert_eq!(outcome.effect, DropEffect::Copy);
    assert!(outcome.entered.is_none());
    assert!(!outcome.show_drag_image);
}

#[test]
fn target_calls_become_events() {
    let at = point(3, -4);
    let (effect, event) = drop_target_event(DropTargetCall::Over, at);
    assert_eq!(effect, Some(DropEffect::Copy));
    assert!(matches!(event, FileDropEvent::Pending { position } if position == at));
    let (effect, event) = drop_target_event(DropTargetCall::Leave, at);
    assert_eq!(effect, None);
    assert!(matches!(event, FileDropEvent::Exited));
    let (effect, event) = drop_target_event(DropTargetCall::Drop, at);
    assert_eq!(effect, Some(DropEffect::Copy));
    assert!(matches!(event, FileDropEvent::Submit { position } if position == at));
}

#[test]
fn escape_and_button_end_a_drag() {
    assert_eq!(query_continue_drag(true, 1), ContinueDrag::Cancel);
    assert_eq!(query_continue_drag(true, 0), ContinueDrag::Cancel);
    assert_eq!(query_continue_drag(false, 0), ContinueDrag::Drop);
    assert_eq!(query_continue_drag(false, 2), ContinueDrag::Drop);
    assert_eq!(query_continue_drag(false, 1), ContinueDrag::Continue);
    assert_eq!(query_continue_drag(false, 9), ContinueDrag::Continue);
}

#[test]
fn positions_are_told_once() {
    let mut session = DragSession::new();
    let cursors = [
        Some(point(1, 1)),
        Some(point(1, 1)),
        None,
        Some(point(1, 1)),
        Some(point(1, 2)),
        Some(point(1, 1)),
    ];
    let told: Vec<Point> = cursors.iter().filter_map(|cursor| session.moved(*cursor)).collect();
    assert_eq!(told, vec![point(1, 1), point(1, 2), point(1, 1)]);
    session.begin();
    assert_eq!(session.moved(Some(point(1, 1))), Some(point(1, 1)));
}

/// What an application with this private format takes a drag for.
fn seen_as(object: &WindowsDragDataObject, private_format: u16) -> DragOffer {
    let has = |format: u16| object.query_get_data(Some(hglobal_format(format))).is_ok();
    drag_offer(has(CF_HDROP), has(private_format))
}

#[test]
fn private_drag_stays_in_the_application() {
    let object = private_drag_data_object(Some(49200)).unwrap();
    assert_eq!(seen_as(&object, 49200), DragOffer::AppPrivate);
    assert_eq!(seen_as(&object, 49201), DragOffer::Foreign);
}

#[test]
fn file_drag_is_taken_everywhere() {
    let object = file_drag_data_object(&vec![DragPath::Text("C:\\a".to_string())]);
    assert_eq!(seen_as(&object, 49200), DragOffer::Files);
    assert_eq!(seen_as(&object, 49201), DragOffer::Files);
}
