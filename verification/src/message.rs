//! Where the messages of a window go.

use vstd::prelude::*;

verus! {

/// The first message, sent while a window is created.
pub const WM_NCCREATE: u32 = 129;

/// The last message, sent when a window is gone.
pub const WM_NCDESTROY: u32 = 130;

/// Who handles a message.
#[derive(Clone, Copy, Debug, PartialEq, Eq, Structural)]
pub enum MessageHandler {
    /// The window is made.
    Creation,
    /// The window.
    Window,
    /// The system's default procedure.
    System,
}

/// Where a message goes.
#[derive(Clone, Copy, Debug, PartialEq, Eq, Structural)]
pub struct MessageRoute {
    pub handler: MessageHandler,
    /// Whether the window's registration is released after the message was handled.
    pub release: bool,
}

/// Where a message goes, by whether a window is registered for it and is still alive.
pub open spec fn route_of(message: u32, registered: bool, alive: bool) -> MessageRoute {
    if message == WM_NCCREATE {
        MessageRoute { handler: MessageHandler::Creation, release: false }
    } else {
        MessageRoute {
            handler: if registered && alive {
                MessageHandler::Window
            } else {
                MessageHandler::System
            },
            release: registered && message == WM_NCDESTROY,
        }
    }
}

/// Where a message goes, by whether a window is registered for it and is still alive.
pub fn route_message(message: u32, registered: bool, alive: bool) -> (route: MessageRoute)
    ensures
        route == route_of(message, registered, alive),
{
    if message == WM_NCCREATE {
        return MessageRoute { handler: MessageHandler::Creation, release: false };
    }
    if !registered {
        return MessageRoute { handler: MessageHandler::System, release: false };
    }
    MessageRoute {
        handler: if alive {
            MessageHandler::Window
        } else {
            MessageHandler::System
        },
        release: message == WM_NCDESTROY,
    }
}

/// What follows the creation of a window.
#[derive(Clone, Copy, Debug, PartialEq, Eq, Structural)]
pub enum CreationRoute {
    /// The window is registered and the message goes on to the system.
    Register,
    /// The system is told to give up.
    Refuse,
}

/// What follows when the window was made, or was not.
pub open spec fn creation_route_of(made: bool) -> CreationRoute {
    if made {
        CreationRoute::Register
    } else {
        CreationRoute::Refuse
    }
}

/// What follows when the window was made, or was not.
pub fn creation_route(made: bool) -> (route: CreationRoute)
    ensures
        route == creation_route_of(made),
        route == (if made {
            CreationRoute::Register
        } else {
            CreationRoute::Refuse
        }),
{
    if made {
        CreationRoute::Register
    } else {
        CreationRoute::Refuse
    }
}

/// Whether a window is registered after messages, none of which creates one.
pub open spec fn registered_after(registered: bool, messages: Seq<u32>) -> bool
    decreases messages.len(),
{
    if messages.len() == 0 {
        registered
    } else {
        let before = registered_after(registered, messages.drop_last());
        before && !route_of(messages.last(), before, true).release
    }
}

/// Once the last message of a window was handled, its registration is gone: no message reaches
/// the window or releases the registration again.
pub proof fn law_released_window_gets_no_message(
    messages: Seq<u32>,
    destroyed: int,
    message: u32,
    alive: bool,
)
    requires
        forall|i: int| 0 <= i < messages.len() ==> messages[i] != WM_NCCREATE,
        0 <= destroyed < messages.len(),
        messages[destroyed] == WM_NCDESTROY,
        message != WM_NCCREATE,
    ensures
        route_of(message, registered_after(true, messages), alive) == (MessageRoute {
            handler: MessageHandler::System,
            release: false,
        }),
    decreases messages.len(),
{
    if destroyed < messages.len() - 1 {
        law_released_window_gets_no_message(messages.drop_last(), destroyed, message, alive);
    }
}

/// A living window that is registered gets every message but the first, whatever its number, and
/// no other window gets any.
pub proof fn law_window_hears_every_message(message: u32, registered: bool, alive: bool)
    requires
        message != 129,
    ensures
        route_of(message, registered, alive).handler == MessageHandler::Window <==> registered
            && alive,
        route_of(message, registered, alive).handler == MessageHandler::System <==> !registered
            || !alive,
{
}

/// Who handles a message does not depend on which message it is, the first one apart.
pub proof fn law_handler_does_not_depend_on_the_message(
    left: u32,
    right: u32,
    registered: bool,
    alive: bool,
)
    requires
        left != 129,
        right != 129,
    ensures
        route_of(left, registered, alive).handler == route_of(right, registered, alive).handler,
{
}

/// The first message makes the window, whether one is registered or not, and no other does.
pub proof fn law_first_message_makes_the_window(message: u32, registered: bool, alive: bool)
    ensures
        route_of(message, registered, alive).handler == MessageHandler::Creation <==> message
            == 129,
{
}

/// A registration is released with the last message, alive or not, and with no other.
pub proof fn law_last_message_releases(message: u32, registered: bool, alive: bool)
    ensures
        route_of(message, registered, alive).release <==> registered && message == 130,
{
}

/// The system is told to give up exactly where the window could not be made.
pub proof fn law_creation_is_refused_where_it_failed(made: bool)
    ensures
        creation_route_of(made) == CreationRoute::Register <==> made,
        creation_route_of(made) == CreationRoute::Refuse <==> !made,
{
}

} // verus!
