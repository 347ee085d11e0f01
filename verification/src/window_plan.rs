//! What a window is created with, and how it is opened.

use crate::geometry::{calculate_window_rect, Bounds, Point, Rect, WindowBorderOffset};
use vstd::prelude::*;

verus! {

pub const WS_POPUP: u32 = 0x8000_0000;

pub const WS_CAPTION: u32 = 0x00c0_0000;

pub const WS_SYSMENU: u32 = 0x0008_0000;

pub const WS_THICKFRAME: u32 = 0x0004_0000;

pub const WS_MINIMIZEBOX: u32 = 0x0002_0000;

pub const WS_MAXIMIZEBOX: u32 = 0x0001_0000;

pub const WS_EX_DLGMODALFRAME: u32 = 0x0000_0001;

pub const WS_EX_TOPMOST: u32 = 0x0000_0008;

pub const WS_EX_TRANSPARENT: u32 = 0x0000_0020;

pub const WS_EX_TOOLWINDOW: u32 = 0x0000_0080;

pub const WS_EX_APPWINDOW: u32 = 0x0004_0000;

pub const WS_EX_NOREDIRECTIONBITMAP: u32 = 0x0020_0000;

pub const WS_EX_NOACTIVATE: u32 = 0x0800_0000;

pub const SW_SHOWNORMAL: u32 = 1;

pub const SW_SHOWMAXIMIZED: u32 = 3;

pub const SW_SHOWNOACTIVATE: u32 = 4;

/// What a window is for.
#[derive(Clone, Copy, Debug, PartialEq, Eq, Structural)]
pub enum WindowKind {
    /// A window of the application.
    Normal,
    /// A window above all others, such as an alert.
    PopUp,
    /// A window that floats on top of its parent.
    Floating,
    /// A window that blocks its parent until it is closed.
    Dialog,
    /// A surface without chrome above all others that takes neither focus, pointer nor drags.
    Overlay,
    /// A popup that is anchored to a rectangle of its parent.
    AnchoredPopup,
}

/// What the title bar of a window shows.
pub struct TitlebarOptions {
    pub title: Option<String>,
    pub appears_transparent: bool,
}

/// What a window is asked to be.
pub struct WindowParams {
    pub kind: WindowKind,
    pub titlebar: Option<TitlebarOptions>,
    pub is_movable: bool,
    pub is_resizable: bool,
    pub is_minimizable: bool,
    pub focus: bool,
    pub show: bool,
}

/// Anchored popups are not there on this platform.
#[derive(Clone, Copy, Debug, PartialEq, Eq, Structural)]
pub struct PopupNotSupportedError;

/// What a window is created with.
pub struct WindowPlan {
    /// Whether the active window becomes the parent and is disabled.
    pub modal: bool,
    pub hide_title_bar: bool,
    pub title: String,
    pub ex_style: u32,
    pub style: u32,
}

/// A flag where a condition holds, and zero elsewhere.
pub open spec fn flag_if(condition: bool, flag: u32) -> int {
    if condition {
        flag as int
    } else {
        0
    }
}

impl WindowKind {
    /// Whether a window of this kind floats above all others and has no chrome.
    pub open spec fn is_bare(self) -> bool {
        self == WindowKind::PopUp || self == WindowKind::Overlay
    }
}

impl WindowParams {
    /// The style: none for a window without chrome, and otherwise a sum of flags that do not
    /// overlap.
    pub open spec fn style(self) -> int {
        if self.kind.is_bare() {
            0
        } else {
            WS_SYSMENU + flag_if(self.is_resizable, WS_THICKFRAME) + flag_if(
                self.is_resizable,
                WS_MAXIMIZEBOX,
            ) + flag_if(self.is_minimizable, WS_MINIMIZEBOX) + flag_if(
                self.kind == WindowKind::Dialog,
                WS_POPUP,
            ) + flag_if(self.kind == WindowKind::Dialog, WS_CAPTION)
        }
    }

    /// The extended style: a sum of flags that do not overlap.
    pub open spec fn ex_style(self, disable_direct_composition: bool) -> int {
        flag_if(self.kind.is_bare(), WS_EX_TOOLWINDOW) + flag_if(self.kind.is_bare(), WS_EX_TOPMOST)
            + flag_if(self.kind == WindowKind::Overlay, WS_EX_NOACTIVATE) + flag_if(
            self.kind == WindowKind::Overlay,
            WS_EX_TRANSPARENT,
        ) + flag_if(self.kind == WindowKind::Dialog, WS_EX_DLGMODALFRAME) + flag_if(
            !self.kind.is_bare() && self.kind != WindowKind::Dialog,
            WS_EX_APPWINDOW,
        ) + flag_if(!disable_direct_composition, WS_EX_NOREDIRECTIONBITMAP)
    }

    /// Whether the application places the window. A restore always takes focus, so a window
    /// that does not is not restored; and an overlay never is.
    pub open spec fn app_placed(self) -> bool {
        self.kind == WindowKind::Overlay || !self.focus
    }

    /// Whether the window is a target of drags. An overlay may lie under the pointer, so drags
    /// must reach the window below.
    pub open spec fn takes_drags(self) -> bool {
        self.kind != WindowKind::Overlay
    }

    /// The text in the title bar.
    pub open spec fn title(self) -> Seq<char> {
        match self.titlebar {
            Some(titlebar) => match titlebar.title {
                Some(title) => title@,
                None => Seq::empty(),
            },
            None => Seq::empty(),
        }
    }

    /// Whether the title bar of the system is hidden.
    pub open spec fn hides_title_bar(self) -> bool {
        match self.titlebar {
            Some(titlebar) => titlebar.appears_transparent,
            None => true,
        }
    }
}

impl WindowPlan {
    /// Whether this is the plan for a window with these parameters.
    pub open spec fn is_for(self, params: WindowParams, disable_direct_composition: bool) -> bool {
        &&& self.modal == (params.kind == WindowKind::Dialog)
        &&& self.hide_title_bar == params.hides_title_bar()
        &&& self.title@ == params.title()
        &&& self.style == params.style()
        &&& self.ex_style == params.ex_style(disable_direct_composition)
    }
}

impl WindowParams {
    /// Whether the window is a target of drags.
    pub(crate) fn is_drop_target(&self) -> (takes_drags: bool)
        ensures
            takes_drags == self.takes_drags(),
    {
        self.kind != WindowKind::Overlay
    }

    /// Whether the application places the window.
    pub(crate) fn is_app_placed(&self) -> (app_placed: bool)
        ensures
            app_placed == self.app_placed(),
    {
        self.kind == WindowKind::Overlay || !self.focus
    }
}

/// The flags of a style do not overlap, so joining them adds them up.
proof fn lemma_styles_add_up()
    by (bit_vector)
    ensures
        0x4_0000u32 | 0x1_0000u32 == 0x5_0000u32,
        0x8_0000u32 | 0x5_0000u32 == 0xd_0000u32,
        0x8_0000u32 | 0x2_0000u32 == 0xa_0000u32,
        0xd_0000u32 | 0x2_0000u32 == 0xf_0000u32,
        0x8000_0000u32 | 0xc0_0000u32 == 0x80c0_0000u32,
        0x8_0000u32 | 0x80c0_0000u32 == 0x80c8_0000u32,
        0xa_0000u32 | 0x80c0_0000u32 == 0x80ca_0000u32,
        0xd_0000u32 | 0x80c0_0000u32 == 0x80cd_0000u32,
        0xf_0000u32 | 0x80c0_0000u32 == 0x80cf_0000u32,
{
}

/// The flags of an extended style do not overlap either.
proof fn lemma_ex_styles_add_up()
    by (bit_vector)
    ensures
        0x80u32 | 0x8u32 == 0x88u32,
        0x800_0000u32 | 0x20u32 == 0x800_0020u32,
        0x88u32 | 0x800_0020u32 == 0x800_00a8u32,
        0x88u32 | 0x20_0000u32 == 0x20_0088u32,
        0x800_00a8u32 | 0x20_0000u32 == 0x820_00a8u32,
        0x1u32 | 0x20_0000u32 == 0x20_0001u32,
        0x4_0000u32 | 0x20_0000u32 == 0x24_0000u32,
{
}

fn window_style(params: &WindowParams) -> (style: u32)
    ensures
        style == params.style(),
{
    proof {
        lemma_styles_add_up();
    }
    if params.kind == WindowKind::PopUp || params.kind == WindowKind::Overlay {
        return 0;
    }
    let mut style: u32 = WS_SYSMENU;
    if params.is_resizable {
        style = style | (WS_THICKFRAME | WS_MAXIMIZEBOX);
    }
    if params.is_minimizable {
        style = style | WS_MINIMIZEBOX;
    }
    if params.kind == WindowKind::Dialog {
        style = style | (WS_POPUP | WS_CAPTION);
    }
    style
}

fn window_ex_style(kind: WindowKind, disable_direct_composition: bool) -> (ex_style: u32)
    ensures
        forall|params: WindowParams|
            params.kind == kind ==> ex_style == #[trigger] params.ex_style(
                disable_direct_composition,
            ),
{
    proof {
        lemma_ex_styles_add_up();
    }
    let mut ex_style: u32 = if kind == WindowKind::PopUp || kind == WindowKind::Overlay {
        let mut ex_style: u32 = WS_EX_TOOLWINDOW | WS_EX_TOPMOST;
        if kind == WindowKind::Overlay {
            ex_style = ex_style | (WS_EX_NOACTIVATE | WS_EX_TRANSPARENT);
        }
        ex_style
    } else if kind == WindowKind::Dialog {
        WS_EX_DLGMODALFRAME
    } else {
        WS_EX_APPWINDOW
    };
    if !disable_direct_composition {
        ex_style = ex_style | WS_EX_NOREDIRECTIONBITMAP;
    }
    ex_style
}

/// What a window with these parameters is created with. An anchored popup is turned down, so
/// that the caller can fall back to a popover inside the window.
pub fn plan_window(params: &WindowParams, disable_direct_composition: bool) -> (plan: Result<
    WindowPlan,
    PopupNotSupportedError,
>)
    ensures
        plan is Err <==> params.kind == WindowKind::AnchoredPopup,
        plan matches Ok(plan) ==> plan.is_for(*params, disable_direct_composition),
{
    if params.kind == WindowKind::AnchoredPopup {
        return Err(PopupNotSupportedError);
    }
    let hide_title_bar: bool = match &params.titlebar {
        Some(titlebar) => titlebar.appears_transparent,
        None => true,
    };
    let title: String = match &params.titlebar {
        Some(titlebar) => match &titlebar.title {
            Some(title) => title.clone(),
            None => String::new(),
        },
        None => String::new(),
    };
    Ok(
        WindowPlan {
            modal: params.kind == WindowKind::Dialog,
            hide_title_bar,
            title,
            ex_style: window_ex_style(params.kind, disable_direct_composition),
            style: window_style(params),
        },
    )
}

/// The display that a window opens on.
pub open spec fn display_of<D>(given: Option<D>, primary: Option<D>) -> Option<D> {
    if given is Some {
        given
    } else {
        primary
    }
}

/// The display that a window opens on: the one that was asked for, where it is there, and
/// otherwise the primary one. `None` where there is no display at all.
pub fn choose_display<D>(given: Option<D>, primary: Option<D>) -> (display: Option<D>)
    ensures
        display == display_of(given, primary),
        display == (if given is Some {
            given
        } else {
            primary
        }),
{
    match given {
        Some(given) => Some(given),
        None => primary,
    }
}

/// What creating a window gives: the failure inside first, then that of the system, and
/// otherwise both results.
pub open spec fn creation_result<I, H, E>(
    inner: Option<Result<I, E>>,
    created: Result<H, E>,
) -> Result<(H, I), E>
    recommends
        inner is Some || created is Err,
{
    match (inner, created) {
        (Some(Err(error)), _) => Err(error),
        (_, Err(error)) => Err(error),
        (_, Ok(handle)) => Ok((handle, inner->0->Ok_0)),
    }
}

/// What creating a window gave, where `inner` is what was made while the system created it. A
/// failure there makes the creation fail too, so it is the one that is told.
pub fn creation_outcome<I, H, E>(inner: Option<Result<I, E>>, created: Result<H, E>) -> (outcome:
    Result<(H, I), E>)
    requires
        inner is Some || created is Err,
    ensures
        outcome == creation_result(inner, created),
{
    let inner: Option<I> = match inner {
        Some(Ok(inner)) => Some(inner),
        Some(Err(error)) => {
            return Err(error);
        },
        None => None,
    };
    match created {
        Ok(handle) => Ok((handle, inner.unwrap())),
        Err(error) => Err(error),
    }
}

/// Where a window is and how it is shown, as the system keeps it.
#[derive(Clone, Copy, Debug, PartialEq, Eq, Structural)]
pub struct WindowPlacement {
    pub flags: u32,
    pub show_command: u32,
    pub min_position: Point,
    pub max_position: Point,
    /// The window rectangle while the window is neither minimized nor maximized.
    pub normal_position: Rect,
}

impl Default for WindowPlacement {
    fn default() -> (placement: Self)
        ensures
            placement == (WindowPlacement {
                flags: 0,
                show_command: 0,
                min_position: Point { x: 0, y: 0 },
                max_position: Point { x: 0, y: 0 },
                normal_position: Rect { left: 0, top: 0, right: 0, bottom: 0 },
            }),
    {
        WindowPlacement {
            flags: 0,
            show_command: 0,
            min_position: Point { x: 0, y: 0 },
            max_position: Point { x: 0, y: 0 },
            normal_position: Rect { left: 0, top: 0, right: 0, bottom: 0 },
        }
    }
}

/// How a window that is not shown yet will be opened.
#[derive(Clone, Copy, Debug, PartialEq, Eq, Structural)]
pub enum WindowOpenState {
    Maximized,
    Fullscreen,
    Windowed,
}

/// Where and how a window that is not shown yet will be opened.
#[derive(Clone, Copy, Debug, PartialEq, Eq, Structural)]
pub struct WindowOpenStatus {
    pub placement: WindowPlacement,
    pub state: WindowOpenState,
}

/// The client area that a window opens with: the given one, unless it lies off the display and
/// the display's default is to be used then.
pub open spec fn opening_bounds(
    given: Bounds,
    given_on_display: bool,
    default_bounds: Bounds,
    honor_given_bounds: bool,
) -> Bounds {
    if honor_given_bounds || given_on_display {
        given
    } else {
        default_bounds
    }
}

/// A placement with the frame around a client area.
pub open spec fn placement_around(
    current: WindowPlacement,
    bounds: Bounds,
    border: WindowBorderOffset,
) -> WindowPlacement {
    let edges = crate::geometry::frame_edges(bounds, border);
    WindowPlacement {
        normal_position: Rect {
            left: edges.0 as i32,
            top: edges.1 as i32,
            right: edges.2 as i32,
            bottom: edges.3 as i32,
        },
        ..current
    }
}

/// The placement to open a window with, made from its current one.
pub fn retrieve_window_placement(
    current: WindowPlacement,
    given: Bounds,
    given_on_display: bool,
    default_bounds: Bounds,
    border_offset: &WindowBorderOffset,
    honor_given_bounds: bool,
) -> (placement: WindowPlacement)
    requires
        crate::geometry::window_rect_fits(
            opening_bounds(given, given_on_display, default_bounds, honor_given_bounds),
            *border_offset,
        ),
    ensures
        placement == placement_around(
            current,
            opening_bounds(given, given_on_display, default_bounds, honor_given_bounds),
            *border_offset,
        ),
{
    let bounds: Bounds = if honor_given_bounds || given_on_display {
        given
    } else {
        default_bounds
    };
    WindowPlacement { normal_position: calculate_window_rect(bounds, border_offset), ..current }
}

/// How a created window is opened.
#[derive(Clone, Copy, Debug, PartialEq, Eq, Structural)]
pub enum OpenAction {
    /// Put the window rectangle there, on a display or not, and show it with this command.
    PlaceAndShow { bounds: Bounds, show_command: u32 },
    /// Restore the window, which shows it and brings it onto a display.
    Restore(WindowPlacement),
    /// Keep the placement until the window is shown.
    Stash(WindowOpenStatus),
}

/// How a window is opened with a placement.
pub open spec fn opening_of(params: WindowParams, placement: WindowPlacement) -> OpenAction {
    if !params.show {
        OpenAction::Stash(WindowOpenStatus { placement, state: WindowOpenState::Windowed })
    } else if params.app_placed() {
        OpenAction::PlaceAndShow {
            bounds: placement.normal_position.spec_bounds(),
            show_command: if params.focus {
                SW_SHOWNORMAL
            } else {
                SW_SHOWNOACTIVATE
            },
        }
    } else {
        OpenAction::Restore(placement)
    }
}

/// How a window is opened with a placement. Restoring a window would drag it onto a display,
/// so one that the application places is put where it is to be.
pub fn open_action(params: &WindowParams, placement: WindowPlacement) -> (action: OpenAction)
    requires
        params.show && params.app_placed() ==> placement.normal_position.extent_fits(),
    ensures
        action == opening_of(*params, placement),
{
    if !params.show {
        return OpenAction::Stash(
            WindowOpenStatus { placement, state: WindowOpenState::Windowed },
        );
    }
    if params.is_app_placed() {
        OpenAction::PlaceAndShow {
            bounds: placement.normal_position.bounds(),
            show_command: if params.focus {
                SW_SHOWNORMAL
            } else {
                SW_SHOWNOACTIVATE
            },
        }
    } else {
        OpenAction::Restore(placement)
    }
}

/// What becomes of a window's registration as a target of drags.
#[derive(Clone, Copy, Debug, PartialEq, Eq, Structural)]
pub enum DropTargetChange {
    /// Nothing: an overlay never is a target.
    Unchanged,
    /// It ends.
    Revoke,
    /// It ends and a new one begins.
    Renew,
}

/// What becomes of the registration when a window accepts drags or stops to.
pub open spec fn drop_target_change(kind: WindowKind, accepts: bool) -> DropTargetChange {
    if kind == WindowKind::Overlay {
        DropTargetChange::Unchanged
    } else if accepts {
        DropTargetChange::Renew
    } else {
        DropTargetChange::Revoke
    }
}

/// How a window starts or stops being a target of drags.
pub fn set_accepts_drags(kind: WindowKind, accepts: bool) -> (change: DropTargetChange)
    ensures
        change == drop_target_change(kind, accepts),
{
    if kind == WindowKind::Overlay {
        return DropTargetChange::Unchanged;
    }
    if accepts {
        DropTargetChange::Renew
    } else {
        DropTargetChange::Revoke
    }
}

/// Whether a style has a flag.
pub open spec fn has_flag(style: int, flag: u32) -> bool {
    (style as u32) & flag == flag
}

/// An overlay has no chrome, lies above all other windows, does not take focus, lets the pointer
/// through, and is not and never becomes a target of drags.
pub proof fn law_overlay_stays_out_of_the_way(
    params: WindowParams,
    disable_direct_composition: bool,
    accepts: bool,
)
    requires
        params.kind == WindowKind::Overlay,
    ensures
        params.style() == 0,
        has_flag(params.ex_style(disable_direct_composition), WS_EX_TOPMOST),
        has_flag(params.ex_style(disable_direct_composition), WS_EX_NOACTIVATE),
        has_flag(params.ex_style(disable_direct_composition), WS_EX_TRANSPARENT),
        !params.takes_drags(),
        drop_target_change(params.kind, accepts) == DropTargetChange::Unchanged,
{
    assert(0x820_00a8u32 & 0x8u32 == 0x8u32 && 0x820_00a8u32 & 0x800_0000u32 == 0x800_0000u32
        && 0x820_00a8u32 & 0x20u32 == 0x20u32) by (bit_vector);
    assert(0x800_00a8u32 & 0x8u32 == 0x8u32 && 0x800_00a8u32 & 0x800_0000u32 == 0x800_0000u32
        && 0x800_00a8u32 & 0x20u32 == 0x20u32) by (bit_vector);
}

/// Only an overlay lets the pointer through.
pub proof fn law_other_windows_take_the_pointer(
    params: WindowParams,
    disable_direct_composition: bool,
)
    requires
        params.kind != WindowKind::Overlay,
    ensures
        !has_flag(params.ex_style(disable_direct_composition), WS_EX_TRANSPARENT),
        !has_flag(params.ex_style(disable_direct_composition), WS_EX_NOACTIVATE),
{
    assert(0x88u32 & 0x20u32 == 0 && 0x20_0088u32 & 0x20u32 == 0 && 0x1u32 & 0x20u32 == 0
        && 0x20_0001u32 & 0x20u32 == 0 && 0x4_0000u32 & 0x20u32 == 0 && 0x24_0000u32 & 0x20u32 == 0)
        by (bit_vector);
    assert(0x88u32 & 0x800_0000u32 == 0 && 0x20_0088u32 & 0x800_0000u32 == 0 && 0x1u32
        & 0x800_0000u32 == 0 && 0x20_0001u32 & 0x800_0000u32 == 0 && 0x4_0000u32 & 0x800_0000u32
        == 0 && 0x24_0000u32 & 0x800_0000u32 == 0) by (bit_vector);
}

/// A window that the application places and shows gets exactly the client area that it was
/// given, on a display or not, and takes focus only if it was asked to.
pub proof fn law_app_placed_window_opens_as_given(
    params: WindowParams,
    given: Bounds,
    given_on_display: bool,
    default_bounds: Bounds,
    border: WindowBorderOffset,
    current: WindowPlacement,
)
    requires
        params.show,
        params.app_placed(),
        crate::geometry::window_rect_fits(given, border),
        crate::geometry::fits(given.size.width + border.width_offset),
        crate::geometry::fits(given.size.height + border.height_offset),
    ensures
        opening_of(
            params,
            placement_around(
                current,
                opening_bounds(given, given_on_display, default_bounds, params.app_placed()),
                border,
            ),
        ) matches OpenAction::PlaceAndShow { bounds, show_command } && {
            &&& bounds.origin.x == given.origin.x - border.spec_left()
            &&& bounds.origin.y == given.origin.y - border.spec_top()
            &&& bounds.size.width == given.size.width + border.width_offset
            &&& bounds.size.height == given.size.height + border.height_offset
            &&& show_command == SW_SHOWNORMAL <==> params.focus
        },
{
}

/// Whether a number has the bit with this value.
pub open spec fn has_bit(number: int, bit: int) -> bool {
    (number / bit) % 2 == 1
}

/// A popup and an overlay have no style. Every other window has a system menu; it has a thick
/// frame and can be maximized exactly where it can be resized, has a button to minimize it
/// exactly where it can be minimized, and is a popup with a caption exactly where it is a dialog.
/// It has no other style.
pub proof fn law_style_follows_the_parameters(params: WindowParams)
    ensures
        params.kind is PopUp || params.kind is Overlay ==> params.style() == 0,
        !(params.kind is PopUp || params.kind is Overlay) ==> {
            let style = params.style();
            &&& has_bit(style, 0x8_0000)
            &&& has_bit(style, 0x4_0000) <==> params.is_resizable
            &&& has_bit(style, 0x1_0000) <==> params.is_resizable
            &&& has_bit(style, 0x2_0000) <==> params.is_minimizable
            &&& has_bit(style, 0x8000_0000) <==> params.kind is Dialog
            &&& has_bit(style, 0x80_0000) <==> params.kind is Dialog
            &&& has_bit(style, 0x40_0000) <==> params.kind is Dialog
            &&& style % 0x1_0000 == 0
            &&& (style / 0x10_0000) % 4 == 0
            &&& (style / 0x100_0000) % 0x80 == 0
            &&& 0 <= style < 0x1_0000_0000
        },
{
    match params.kind {
        WindowKind::Dialog => {},
        WindowKind::Normal => {},
        _ => {},
    }
    if params.is_resizable {
        if params.is_minimizable {
        }
    } else if params.is_minimizable {
    }
}

/// A popup and an overlay are tool windows above all others; an overlay also does not take focus
/// and lets the pointer through. A dialog has a modal frame, and all others are in the taskbar.
/// What is drawn by composition has no bitmap of its own. There is no other extended style.
pub proof fn law_extended_style_follows_the_kind(
    params: WindowParams,
    disable_direct_composition: bool,
)
    ensures
        ({
            let style = params.ex_style(disable_direct_composition);
            &&& has_bit(style, 0x80) <==> params.kind is PopUp || params.kind is Overlay
            &&& has_bit(style, 0x8) <==> params.kind is PopUp || params.kind is Overlay
            &&& has_bit(style, 0x800_0000) <==> params.kind is Overlay
            &&& has_bit(style, 0x20) <==> params.kind is Overlay
            &&& has_bit(style, 0x1) <==> params.kind is Dialog
            &&& has_bit(style, 0x4_0000) <==> params.kind is Normal || params.kind is Floating
                || params.kind is AnchoredPopup
            &&& has_bit(style, 0x20_0000) <==> !disable_direct_composition
            &&& (style / 0x2) % 4 == 0
            &&& !has_bit(style, 0x10)
            &&& !has_bit(style, 0x40)
            &&& (style / 0x100) % 0x400 == 0
            &&& (style / 0x8_0000) % 4 == 0
            &&& (style / 0x40_0000) % 0x20 == 0
            &&& 0 <= style < 0x1000_0000
        }),
{
    match params.kind {
        WindowKind::Normal => {},
        WindowKind::PopUp => {},
        WindowKind::Floating => {},
        WindowKind::Dialog => {},
        WindowKind::Overlay => {},
        WindowKind::AnchoredPopup => {},
    }
}

/// A title bar shows its title, or nothing where it has none. The one of the system is hidden
/// unless there is a title bar that is not transparent.
pub proof fn law_title_bar_is_shown_as_asked(params: WindowParams, titlebar: TitlebarOptions)
    ensures
        params.titlebar is None ==> params.title() == Seq::<char>::empty()
            && params.hides_title_bar(),
        params.titlebar == Some(titlebar) ==> {
            &&& titlebar.title matches Some(title) ==> params.title() == title@
            &&& titlebar.title is None ==> params.title() == Seq::<char>::empty()
            &&& params.hides_title_bar() <==> titlebar.appears_transparent
        },
{
}

/// A plan has the title, the title bar and the styles of the parameters, and is modal exactly for
/// a dialog.
pub proof fn law_plan_is_for_its_parameters(
    plan: WindowPlan,
    params: WindowParams,
    disable_direct_composition: bool,
)
    requires
        plan.is_for(params, disable_direct_composition),
    ensures
        plan.modal <==> params.kind is Dialog,
        plan.title@ == params.title(),
        plan.hide_title_bar == params.hides_title_bar(),
        plan.style == params.style(),
        plan.ex_style == params.ex_style(disable_direct_composition),
{
}

/// The application places every window that is not to take focus, and every overlay; all others
/// are restored. Every window but an overlay is a target of drags.
pub proof fn law_who_places_a_window(params: WindowParams)
    ensures
        params.kind is Overlay ==> params.app_placed() && !params.takes_drags(),
        !(params.kind is Overlay) ==> (params.app_placed() <==> !params.focus)
            && params.takes_drags(),
{
}

/// The given bounds are used where they must be and where they lie on the display. Only where
/// neither holds is the default used.
pub proof fn law_given_bounds_are_used_if_they_can_be(
    given: Bounds,
    given_on_display: bool,
    default_bounds: Bounds,
    honor_given_bounds: bool,
)
    ensures
        opening_bounds(given, true, default_bounds, honor_given_bounds) == given,
        opening_bounds(given, given_on_display, default_bounds, true) == given,
        opening_bounds(given, false, default_bounds, false) == default_bounds,
{
}

/// A placement around a client area differs from the current one in the window rectangle only,
/// and the client area of that rectangle is the one that was asked for.
pub proof fn law_placement_is_around_the_client_area(
    current: WindowPlacement,
    bounds: Bounds,
    border: WindowBorderOffset,
)
    requires
        crate::geometry::window_rect_fits(bounds, border),
    ensures
        ({
            let placement = placement_around(current, bounds, border);
            &&& placement.flags == current.flags
            &&& placement.show_command == current.show_command
            &&& placement.min_position == current.min_position
            &&& placement.max_position == current.max_position
            &&& crate::geometry::client_bounds(placement.normal_position, border) == bounds
            &&& placement.normal_position.right - placement.normal_position.left
                == bounds.size.width + border.width_offset
            &&& placement.normal_position.bottom - placement.normal_position.top
                == bounds.size.height + border.height_offset
        }),
{
}

/// A window that is not to be shown is opened by keeping exactly its placement for later, as a
/// plain window, whatever it is and whether or not it is to take focus. A window that is to be
/// shown is never kept.
pub proof fn law_hidden_window_is_kept(params: WindowParams, placement: WindowPlacement)
    ensures
        !params.show ==> opening_of(params, placement) == OpenAction::Stash(
            WindowOpenStatus { placement, state: WindowOpenState::Windowed },
        ),
        params.show ==> !(opening_of(params, placement) is Stash),
        opening_of(params, placement) is PlaceAndShow || opening_of(params, placement) is Restore
            ==> params.show,
{
}

/// A shown window that takes focus and is no overlay is restored with exactly its placement. Any
/// other shown window is put, with its edges where they are in the placement, and takes focus
/// exactly where it is to.
pub proof fn law_shown_window_is_restored_or_put(params: WindowParams, placement: WindowPlacement)
    requires
        params.show,
    ensures
        params.focus && !(params.kind is Overlay) <==> opening_of(params, placement)
            == OpenAction::Restore(placement),
        !params.focus || params.kind is Overlay <==> opening_of(params, placement) is PlaceAndShow,
        opening_of(params, placement) matches OpenAction::PlaceAndShow { bounds, show_command }
            ==> {
            let rect = placement.normal_position;
            &&& bounds.origin.x == rect.left
            &&& bounds.origin.y == rect.top
            &&& -0x8000_0000 <= rect.right - rect.left <= 0x7fff_ffff ==> bounds.size.width
                == rect.right - rect.left
            &&& -0x8000_0000 <= rect.bottom - rect.top <= 0x7fff_ffff ==> bounds.size.height
                == rect.bottom - rect.top
            &&& params.focus ==> show_command == 1
            &&& !params.focus ==> show_command == 4
        },
{
}

/// A failure inside comes before one of the system, and both results are kept where neither
/// failed.
pub proof fn law_inner_failure_comes_first<I, H, E>(
    inner: I,
    handle: H,
    first: E,
    second: E,
    created: Result<H, E>,
)
    ensures
        creation_result(Some(Err::<I, E>(first)), created) == Err::<(H, I), E>(first),
        creation_result(Some(Ok::<I, E>(inner)), Err::<H, E>(second)) == Err::<(H, I), E>(second),
        creation_result(None::<Result<I, E>>, Err::<H, E>(second)) == Err::<(H, I), E>(second),
        creation_result(Some(Ok::<I, E>(inner)), Ok::<H, E>(handle)) == Ok::<(H, I), E>(
            (handle, inner),
        ),
{
}

/// A window other than an overlay is a target of drags after it was asked to accept them, and is
/// none after it was asked not to.
pub proof fn law_drags_are_accepted_as_asked(kind: WindowKind)
    requires
        !(kind is Overlay),
    ensures
        drop_target_change(kind, true) == DropTargetChange::Renew,
        drop_target_change(kind, false) == DropTargetChange::Revoke,
{
}

/// A display that was asked for and is there is used, whatever the primary one is; only without
/// it is the primary one used.
pub proof fn law_given_display_comes_first<D>(given: D, primary: Option<D>)
    ensures
        display_of(Some(given), primary) == Some(given),
        display_of(None, primary) == primary,
{
}

} // verus!
