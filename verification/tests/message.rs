use gpui_windows::message::{
    creation_route, route_message, CreationRoute, MessageHandler, MessageRoute, WM_NCCREATE,
    WM_NCDESTROY,
};

const WM_PAINT: u32 = 15;

fn route(handler: MessageHandler, release: bool) -> MessageRoute {
    MessageRoute { handler, release }
}

#[test]
fn first_message_creates() {
    for registered in [false, true] {
        for alive in [false, true] {
            assert_eq!(
                route_message(WM_NCCREATE, registered, alive),
                route(MessageHandler::Creation, false)
            );
        }
    }
    assert_eq!(creation_route(true), CreationRoute::Register);
    assert_eq!(creation_route(false), CreationRoute::Refuse);
}

#[test]
fn messages_go_to_a_living_window() {
    assert_eq!(
        route_message(WM_PAINT, true, true),
        route(MessageHandler::Window, false)
    );
    assert_eq!(
        route_message(WM_PAINT, true, false),
        route(MessageHandler::System, false)
    );
    assert_eq!(
        route_message(WM_PAINT, false, true),
        route(MessageHandler::System, false)
    );
}

#[test]
fn last_message_releases_the_registration() {
    assert_eq!(
        route_message(WM_NCDESTROY, true, true),
        route(MessageHandler::Window, true)
    );
    assert_eq!(
        route_message(WM_NCDESTROY, true, false),
        route(MessageHandler::System, true)
    );
    assert_eq!(
        route_message(WM_NCDESTROY, false, false),
        route(MessageHandler::System, false)
    );
}

#[test]
fn released_window_gets_no_message() {
    let mut registered = true;
    let mut handled = 0;
    for message in [WM_PAINT, WM_NCDESTROY, WM_PAINT, WM_NCDESTROY] {
        let route = route_message(message, registered, true);
        if route.handler == MessageHandler::Window {
            handled += 1;
        }
        if route.release {
            registered = false;
        }
    }
    assert_eq!(handled, 2);
}
