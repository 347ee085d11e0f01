//! What a window remembers, and how it opens, fills the screen and comes to the front.

use crate::backdrop::{backdrop_request, BackdropRequest, WindowBackgroundAppearance};
use crate::click_state::{ClickState, DoubleClickMetrics, MouseButton};
use crate::drag_session::DragSession;
use crate::geometry::{calculate_client_rect, has_client_rect, Bounds, Point, Rect, Size, WindowBorderOffset};
use crate::window_plan::{
    WindowOpenState, WindowOpenStatus, WindowPlacement, SW_SHOWMAXIMIZED, WS_CAPTION,
    WS_MAXIMIZEBOX, WS_MINIMIZEBOX, WS_SYSMENU, WS_THICKFRAME,
};
use vstd::prelude::*;

verus! {

/// Whether the system asks for light or dark windows.
#[derive(Clone, Copy, Debug, PartialEq, Eq, Structural)]
pub enum WindowAppearance {
    Light,
    VibrantLight,
    Dark,
    VibrantDark,
}

/// The keys that are held down to change what others mean.
#[derive(Clone, Copy, Debug, PartialEq, Eq, Structural)]
pub struct Modifiers {
    pub control: bool,
    pub alt: bool,
    pub shift: bool,
    /// The Windows key.
    pub platform: bool,
    pub function: bool,
}

/// Whether caps lock is on.
#[derive(Clone, Copy, Debug, PartialEq, Eq, Structural)]
pub struct Capslock {
    pub on: bool,
}

/// A rectangle in device pixels with the resolution that it was measured at. A logical pixel is
/// a ninety-sixth of an inch.
#[derive(Clone, Copy, Debug, PartialEq, Eq, Structural)]
pub struct ScaledBounds {
    pub bounds: Bounds,
    pub dpi: u32,
}

/// What a window is restored to after it filled the screen.
#[derive(Clone, Copy, Debug, PartialEq, Eq, Structural)]
pub struct StyleAndBounds {
    pub style: u32,
    pub bounds: Bounds,
}

/// How a window lies, with the bounds to save and restore it by.
#[derive(Clone, Copy, Debug, PartialEq, Eq, Structural)]
pub enum WindowBounds {
    Windowed(ScaledBounds),
    Maximized(ScaledBounds),
    Fullscreen(ScaledBounds),
}

/// What the system says of a window before it fills the screen. `None` where it says nothing.
#[derive(Clone, Copy, Debug, PartialEq, Eq, Structural)]
pub struct WindowSnapshot {
    pub placement: Option<WindowPlacement>,
    pub style: u32,
    pub window_rect: Option<Rect>,
}

/// What a window is changed to when it fills the screen or stops to.
#[derive(Clone, Copy, Debug, PartialEq, Eq, Structural)]
pub struct FullscreenChange {
    pub style: u32,
    pub bounds: Bounds,
    /// Whether the window is marked as one that the taskbar may cover.
    pub non_rude: bool,
}

/// What follows the placement of a window that is opened late.
#[derive(Clone, Copy, Debug, PartialEq, Eq, Structural)]
pub enum AfterPlacement {
    Nothing,
    Maximize,
    ToggleFullscreen,
}

/// What a window remembers.
#[derive(Clone, Copy, Debug)]
pub struct WindowsWindowState {
    /// Where the client area is on the screen.
    pub origin: Point,
    /// How large the client area is.
    pub physical_size: Size,
    /// The resolution of the screen in dots per inch.
    pub dpi: u32,
    /// Where the client area was before the window filled the screen.
    pub fullscreen_restore_bounds: ScaledBounds,
    pub border_offset: WindowBorderOffset,
    pub appearance: WindowAppearance,
    pub background_appearance: WindowBackgroundAppearance,
    pub ime_enabled: bool,
    /// The first half of a character that the keyboard sent in two.
    pub pending_surrogate: Option<u16>,
    /// What the application heard of the modifiers last.
    pub last_reported_modifiers: Option<Modifiers>,
    /// What the application heard of caps lock last.
    pub last_reported_capslock: Option<Capslock>,
    pub hovered: bool,
    /// Whether the next frame is drawn whatever has changed.
    pub force_render_pending: bool,
    pub click_state: ClickState,
    /// The button that is held down outside of the client area.
    pub nc_button_pressed: Option<u32>,
    /// What to restore, while the window fills the screen.
    pub fullscreen: Option<StyleAndBounds>,
    /// How to open the window, until it is shown.
    pub initial_placement: Option<WindowOpenStatus>,
    pub drag_session: DragSession,
}

/// The parts of a window's style that a window without a frame does not have.
pub const FRAME_STYLES: u32 = 0x00cf_0000;

/// The placement that the system told, or a blank one.
pub open spec fn placement_or_blank(placement: Option<WindowPlacement>) -> WindowPlacement {
    match placement {
        Some(placement) => placement,
        None => WindowPlacement {
            flags: 0,
            show_command: 0,
            min_position: Point { x: 0, y: 0 },
            max_position: Point { x: 0, y: 0 },
            normal_position: Rect { left: 0, top: 0, right: 0, bottom: 0 },
        },
    }
}

/// Whether a placement is that of a maximized window.
pub open spec fn is_maximized_placement(placement: Option<WindowPlacement>) -> bool {
    placement_or_blank(placement).show_command == SW_SHOWMAXIMIZED
}

/// The rectangle that the system told, or an empty one.
pub open spec fn rect_or_empty(rect: Option<Rect>) -> Rect {
    match rect {
        Some(rect) => rect,
        None => Rect { left: 0, top: 0, right: 0, bottom: 0 },
    }
}

impl WindowsWindowState {
    /// The client area of a placement, as it is saved.
    pub open spec fn saved_bounds(self, placement: Option<WindowPlacement>) -> ScaledBounds {
        ScaledBounds {
            bounds: crate::geometry::client_bounds(
                placement_or_blank(placement).normal_position,
                self.border_offset,
            ),
            dpi: self.dpi,
        }
    }

    /// Whether the client area of a placement consists of machine integers.
    pub open spec fn saved_bounds_fit(self, placement: Option<WindowPlacement>) -> bool {
        crate::geometry::client_rect_fits(
            placement_or_blank(placement).normal_position,
            self.border_offset,
        )
    }

    /// Whether this is the state of a window that was just created.
    pub open spec fn is_new(
        self,
        created: Bounds,
        dpi: u32,
        appearance: WindowAppearance,
        metrics: DoubleClickMetrics,
    ) -> bool {
        &&& self.client_area() == (ScaledBounds { bounds: created, dpi })
        &&& self.fullscreen_restore_bounds == (ScaledBounds { bounds: created, dpi })
        &&& self.border_offset == (WindowBorderOffset { width_offset: 0, height_offset: 0 })
        &&& self.appearance == appearance
        &&& self.background_appearance == WindowBackgroundAppearance::Opaque
        &&& self.ime_enabled
        &&& self.pending_surrogate is None
        &&& self.last_reported_modifiers is None
        &&& self.last_reported_capslock is None
        &&& !self.hovered
        &&& !self.force_render_pending
        &&& self.click_state.is_fresh(metrics)
        &&& self.nc_button_pressed is None
        &&& self.fullscreen is None
        &&& self.initial_placement is None
        &&& self.drag_session.last_cursor is None
    }

    /// The state of a window that was just created with these bounds.
    pub fn new(
        created: Bounds,
        dpi: u32,
        appearance: WindowAppearance,
        metrics: DoubleClickMetrics,
    ) -> (state: WindowsWindowState)
        ensures
            state.is_new(created, dpi, appearance, metrics),
            state.origin == created.origin,
            state.physical_size == created.size,
            state.dpi == dpi,
            state.fullscreen_restore_bounds == (ScaledBounds { bounds: created, dpi }),
            state.border_offset == (WindowBorderOffset { width_offset: 0, height_offset: 0 }),
            state.appearance == appearance,
            state.background_appearance == WindowBackgroundAppearance::Opaque,
            state.ime_enabled,
            state.pending_surrogate is None,
            state.last_reported_modifiers is None,
            state.last_reported_capslock is None,
            !state.hovered,
            !state.force_render_pending,
            state.click_state.button == MouseButton::Left,
            state.click_state.last_click == 0,
            state.click_state.last_position == (Point { x: 0, y: 0 }),
            state.click_state.metrics == metrics,
            state.click_state.current_count == 0,
            state.nc_button_pressed is None,
            state.fullscreen is None,
            state.initial_placement is None,
            state.drag_session.last_cursor is None,
    {
        WindowsWindowState {
            origin: created.origin,
            physical_size: created.size,
            dpi,
            fullscreen_restore_bounds: ScaledBounds { bounds: created, dpi },
            border_offset: WindowBorderOffset::default(),
            appearance,
            background_appearance: WindowBackgroundAppearance::Opaque,
            ime_enabled: true,
            pending_surrogate: None,
            last_reported_modifiers: None,
            last_reported_capslock: None,
            hovered: false,
            force_render_pending: false,
            click_state: ClickState::new(metrics),
            nc_button_pressed: None,
            fullscreen: None,
            initial_placement: None,
            drag_session: DragSession::new(),
        }
    }

    /// Whether the window fills the screen.
    pub fn is_fullscreen(&self) -> (fullscreen: bool)
        ensures
            fullscreen == self.fullscreen is Some,
    {
        self.fullscreen.is_some()
    }

    /// Whether the window is maximized, given whether the system has it so.
    pub open spec fn counts_as_maximized(self, zoomed: bool) -> bool {
        zoomed && self.fullscreen is None
    }

    /// Whether the window is maximized, given whether the system has it so.
    pub fn is_maximized(&self, zoomed: bool) -> (maximized: bool)
        ensures
            maximized == self.counts_as_maximized(zoomed),
            maximized == (zoomed && self.fullscreen is None),
    {
        !self.is_fullscreen() && zoomed
    }

    /// Where the client area is.
    pub open spec fn client_area(self) -> ScaledBounds {
        ScaledBounds {
            bounds: Bounds { origin: self.origin, size: self.physical_size },
            dpi: self.dpi,
        }
    }

    /// Where the client area is.
    pub fn bounds(&self) -> (bounds: ScaledBounds)
        ensures
            bounds == self.client_area(),
            bounds.bounds.origin == self.origin,
            bounds.bounds.size == self.physical_size,
            bounds.dpi == self.dpi,
    {
        ScaledBounds {
            bounds: Bounds { origin: self.origin, size: self.physical_size },
            dpi: self.dpi,
        }
    }

    /// How large the client area is.
    pub fn content_size(&self) -> (size: Size)
        ensures
            size == self.physical_size,
    {
        self.physical_size
    }

    /// Whether [`WindowsWindowState::calculate_window_bounds`] and
    /// [`WindowsWindowState::window_bounds`] can be called.
    pub fn has_window_bounds(&self, placement: Option<WindowPlacement>) -> (ok: bool)
        ensures
            ok == self.saved_bounds_fit(placement),
    {
        let placement: WindowPlacement = match placement {
            Some(placement) => placement,
            None => WindowPlacement::default(),
        };
        has_client_rect(placement.normal_position, &self.border_offset)
    }

    /// The bounds to save for a placement, and whether it is that of a maximized window.
    pub fn calculate_window_bounds(&self, placement: Option<WindowPlacement>) -> (result: (
        ScaledBounds,
        bool,
    ))
        requires
            self.saved_bounds_fit(placement),
        ensures
            result.0 == self.saved_bounds(placement),
            result.1 == (placement_or_blank(placement).show_command == SW_SHOWMAXIMIZED),
            result.1 == is_maximized_placement(placement),
    {
        let placement: WindowPlacement = match placement {
            Some(placement) => placement,
            None => WindowPlacement::default(),
        };
        (
            ScaledBounds {
                bounds: calculate_client_rect(placement.normal_position, &self.border_offset),
                dpi: self.dpi,
            },
            placement.show_command == SW_SHOWMAXIMIZED,
        )
    }

    /// How the window lies, given its placement.
    pub open spec fn lies_as(self, placement: Option<WindowPlacement>) -> WindowBounds {
        if self.fullscreen is Some {
            WindowBounds::Fullscreen(self.fullscreen_restore_bounds)
        } else if is_maximized_placement(placement) {
            WindowBounds::Maximized(self.saved_bounds(placement))
        } else {
            WindowBounds::Windowed(self.saved_bounds(placement))
        }
    }

    /// How the window lies, given its placement.
    pub fn window_bounds(&self, placement: Option<WindowPlacement>) -> (bounds: WindowBounds)
        requires
            self.saved_bounds_fit(placement),
        ensures
            bounds == self.lies_as(placement),
            bounds == (if self.fullscreen is Some {
                WindowBounds::Fullscreen(self.fullscreen_restore_bounds)
            } else if placement_or_blank(placement).show_command == SW_SHOWMAXIMIZED {
                WindowBounds::Maximized(self.saved_bounds(placement))
            } else {
                WindowBounds::Windowed(self.saved_bounds(placement))
            }),
    {
        let (bounds, maximized) = self.calculate_window_bounds(placement);
        if self.is_fullscreen() {
            WindowBounds::Fullscreen(self.fullscreen_restore_bounds)
        } else if maximized {
            WindowBounds::Maximized(bounds)
        } else {
            WindowBounds::Windowed(bounds)
        }
    }

    /// The state after the window fills the screen or stops to.
    pub open spec fn toggled(self, snapshot: WindowSnapshot) -> WindowsWindowState {
        if self.fullscreen is Some {
            WindowsWindowState { fullscreen: None, ..self }
        } else {
            WindowsWindowState {
                fullscreen: Some(
                    StyleAndBounds {
                        style: snapshot.style,
                        bounds: rect_or_empty(snapshot.window_rect).spec_bounds(),
                    },
                ),
                fullscreen_restore_bounds: self.saved_bounds(snapshot.placement),
                ..self
            }
        }
    }

    /// What the window is changed to when it fills the screen, or stops to.
    pub open spec fn toggle_change(
        self,
        snapshot: WindowSnapshot,
        display: Bounds,
    ) -> FullscreenChange {
        match self.fullscreen {
            Some(saved) => FullscreenChange {
                style: saved.style,
                bounds: saved.bounds,
                non_rude: true,
            },
            None => FullscreenChange {
                style: snapshot.style & !FRAME_STYLES,
                bounds: display,
                non_rude: false,
            },
        }
    }

    /// Whether what the system says of a window that is about to fill the screen consists of
    /// machine integers.
    pub open spec fn toggle_fits(self, snapshot: WindowSnapshot) -> bool {
        self.fullscreen is None ==> self.saved_bounds_fit(snapshot.placement) && rect_or_empty(
            snapshot.window_rect,
        ).extent_fits()
    }

    /// Whether [`WindowsWindowState::toggle_fullscreen`] can be called.
    pub fn is_toggleable(&self, snapshot: WindowSnapshot) -> (ok: bool)
        ensures
            ok == self.toggle_fits(snapshot),
    {
        if self.is_fullscreen() {
            return true;
        }
        let has_extent: bool = match snapshot.window_rect {
            Some(rect) => rect.has_extent(),
            None => true,
        };
        self.has_window_bounds(snapshot.placement) && has_extent
    }

    /// Makes the window fill the display, or puts it back where it was. The snapshot matters
    /// only for the first.
    pub fn toggle_fullscreen(&mut self, snapshot: WindowSnapshot, display: Bounds) -> (change:
        FullscreenChange)
        requires
            old(self).toggle_fits(snapshot),
        ensures
            *final(self) == old(self).toggled(snapshot),
            change == old(self).toggle_change(snapshot, display),
    {
        let target: StyleAndBounds = match self.fullscreen {
            Some(saved) => {
                self.fullscreen = None;
                saved
            },
            None => {
                let (window_bounds, _) = self.calculate_window_bounds(snapshot.placement);
                self.fullscreen_restore_bounds = window_bounds;
                let rect: Rect = match snapshot.window_rect {
                    Some(rect) => rect,
                    None => Rect { left: 0, top: 0, right: 0, bottom: 0 },
                };
                self.fullscreen = Some(
                    StyleAndBounds { style: snapshot.style, bounds: rect.bounds() },
                );
                assert(0x4_0000u32 | 0x8_0000u32 | 0x1_0000u32 | 0x2_0000u32 | 0xc0_0000u32
                    == 0xcf_0000u32) by (bit_vector);
                StyleAndBounds {
                    style: snapshot.style & !(WS_THICKFRAME | WS_SYSMENU | WS_MAXIMIZEBOX
                        | WS_MINIMIZEBOX | WS_CAPTION),
                    bounds: display,
                }
            },
        };
        FullscreenChange {
            style: target.style,
            bounds: target.bounds,
            non_rude: !self.is_fullscreen(),
        }
    }

    /// The placement that a window is opened with, and what follows it, given whether the window
    /// is visible already: then the application has shown it, and where it put it stands.
    pub open spec fn late_placement(self, visible: bool) -> Option<
        (WindowPlacement, AfterPlacement),
    > {
        match self.initial_placement {
            Some(status) => if visible {
                None
            } else {
                Some(
                    (
                        status.placement,
                        match status.state {
                            WindowOpenState::Maximized => AfterPlacement::Maximize,
                            WindowOpenState::Fullscreen => AfterPlacement::ToggleFullscreen,
                            WindowOpenState::Windowed => AfterPlacement::Nothing,
                        },
                    ),
                )
            },
            None => None,
        }
    }

    /// The state in which no placement is kept.
    pub open spec fn without_placement(self) -> WindowsWindowState {
        WindowsWindowState { initial_placement: None, ..self }
    }

    /// Opens a window that was created without being shown. Whatever comes of it, the placement
    /// that was kept for it is gone.
    pub fn set_window_placement(&mut self, visible: bool) -> (opening: Option<
        (WindowPlacement, AfterPlacement),
    >)
        ensures
            opening == old(self).late_placement(visible),
            *final(self) == old(self).without_placement(),
            *final(self) == (WindowsWindowState { initial_placement: None, ..*old(self) }),
    {
        let kept: Option<WindowOpenStatus> = self.initial_placement;
        self.initial_placement = None;
        match kept {
            Some(status) => {
                if visible {
                    return None;
                }
                let after: AfterPlacement = match status.state {
                    WindowOpenState::Maximized => AfterPlacement::Maximize,
                    WindowOpenState::Fullscreen => AfterPlacement::ToggleFullscreen,
                    WindowOpenState::Windowed => AfterPlacement::Nothing,
                };
                Some((status.placement, after))
            },
            None => None,
        }
    }

    /// The state in which a window that is not shown yet will open in another way.
    pub open spec fn opening_as(self, state: WindowOpenState) -> WindowsWindowState {
        WindowsWindowState {
            initial_placement: match self.initial_placement {
                Some(status) => Some(WindowOpenStatus { state, ..status }),
                None => None,
            },
            ..self
        }
    }

    /// The state after a window is asked to lie in another way, and whether it does so at once.
    pub open spec fn after_request(self, visible: bool, way: WindowOpenState) -> (
        WindowsWindowState,
        bool,
    ) {
        if visible {
            (self, true)
        } else {
            (self.opening_as(way), false)
        }
    }

    fn open_as(&mut self, state: WindowOpenState)
        ensures
            *final(self) == old(self).opening_as(state),
    {
        if let Some(status) = self.initial_placement {
            self.initial_placement = Some(WindowOpenStatus { state, ..status });
        }
    }

    /// Maximizes the window: at once where it is visible, which is what the result says, and
    /// otherwise when it opens.
    pub fn zoom(&mut self, visible: bool) -> (at_once: bool)
        ensures
            (*final(self), at_once) == old(self).after_request(visible, WindowOpenState::Maximized),
            at_once == visible,
            *final(self) == (if visible {
                *old(self)
            } else {
                old(self).opening_as(WindowOpenState::Maximized)
            }),
    {
        if !visible {
            self.open_as(WindowOpenState::Maximized);
        }
        visible
    }

    /// Toggles between filling the screen and not: at once where the window is visible, which is
    /// what the result says, and otherwise the window fills the screen when it opens.
    pub fn request_toggle_fullscreen(&mut self, visible: bool) -> (at_once: bool)
        ensures
            (*final(self), at_once) == old(self).after_request(
                visible,
                WindowOpenState::Fullscreen,
            ),
            at_once == visible,
            *final(self) == (if visible {
                *old(self)
            } else {
                old(self).opening_as(WindowOpenState::Fullscreen)
            }),
    {
        if !visible {
            self.open_as(WindowOpenState::Fullscreen);
        }
        visible
    }

    /// Changes what shows through the background, and says how to ask for it.
    pub fn set_background_appearance(&mut self, appearance: WindowBackgroundAppearance) -> (request:
        BackdropRequest)
        ensures
            request == crate::backdrop::request_of(appearance),
            *final(self) == (WindowsWindowState {
                background_appearance: appearance,
                ..*old(self)
            }),
    {
        self.background_appearance = appearance;
        backdrop_request(appearance)
    }
}

/// A key that is pressed or released in place of the user.
#[derive(Clone, Copy, Debug, PartialEq, Eq, Structural)]
pub struct KeyStroke {
    pub virtual_key: u16,
    pub released: bool,
}

/// How a window comes to the front, once it is placed.
#[derive(Clone, Copy, Debug, PartialEq, Eq)]
pub struct Activation {
    /// Whether the window is brought back from being minimized.
    pub restore: bool,
    /// The keys to press first and second, after the window got the focus and before it goes to
    /// the foreground: the system lets only a window that got input go there.
    pub strokes: (KeyStroke, KeyStroke),
}

/// The alt key.
pub const VK_MENU: u16 = 18;

/// How a window comes to the front, given whether it is minimized.
pub open spec fn activation_of(minimized: bool) -> Activation {
    Activation {
        restore: minimized,
        strokes: (
            KeyStroke { virtual_key: VK_MENU, released: false },
            KeyStroke { virtual_key: VK_MENU, released: true },
        ),
    }
}

/// How a window comes to the front, given whether it is minimized.
pub fn activation(minimized: bool) -> (plan: Activation)
    ensures
        plan == activation_of(minimized),
        plan.restore == minimized,
        plan.strokes.0 == (KeyStroke { virtual_key: VK_MENU, released: false }),
        plan.strokes.1 == (KeyStroke { virtual_key: VK_MENU, released: true }),
{
    Activation {
        restore: minimized,
        strokes: (
            KeyStroke { virtual_key: VK_MENU, released: false },
            KeyStroke { virtual_key: VK_MENU, released: true },
        ),
    }
}

/// How a window flashes.
#[derive(Clone, Copy, Debug, PartialEq, Eq, Structural)]
pub struct FlashRequest {
    pub flags: u32,
    pub count: u32,
    pub timeout_ms: u32,
}

/// Both the caption and the taskbar button flash.
pub const FLASHW_ALL: u32 = 3;

/// How a window calls for attention: it flashes once, unless it is the active one.
pub open spec fn flash_of(is_active: bool) -> Option<FlashRequest> {
    if is_active {
        None
    } else {
        Some(FlashRequest { flags: FLASHW_ALL, count: 1, timeout_ms: 0 })
    }
}

/// How a window calls for attention: it flashes once, unless it is the active one.
pub fn attention_flash(is_active: bool) -> (flash: Option<FlashRequest>)
    ensures
        flash == flash_of(is_active),
        flash == (if is_active {
            None
        } else {
            Some(FlashRequest { flags: FLASHW_ALL, count: 1, timeout_ms: 0 })
        }),
{
    if is_active {
        return None;
    }
    Some(FlashRequest { flags: FLASHW_ALL, count: 1, timeout_ms: 0 })
}

/// Filling the screen and coming back leaves the window with the style and the rectangle that it
/// had, and the taskbar may cover it again.
pub proof fn law_fullscreen_comes_back(
    state: WindowsWindowState,
    snapshot: WindowSnapshot,
    display: Bounds,
    later: WindowSnapshot,
    later_display: Bounds,
)
    requires
        state.fullscreen is None,
    ensures
        state.toggled(snapshot).fullscreen is Some,
        !state.toggle_change(snapshot, display).non_rude,
        state.toggled(snapshot).toggled(later) == (WindowsWindowState {
            fullscreen_restore_bounds: state.saved_bounds(snapshot.placement),
            ..state
        }),
        state.toggled(snapshot).toggle_change(later, later_display) == (FullscreenChange {
            style: snapshot.style,
            bounds: rect_or_empty(snapshot.window_rect).spec_bounds(),
            non_rude: true,
        }),
{
}

/// A window that fills the screen has no frame, and the rest of its style is as it was.
pub proof fn law_fullscreen_window_has_no_frame(
    state: WindowsWindowState,
    snapshot: WindowSnapshot,
    display: Bounds,
)
    requires
        state.fullscreen is None,
    ensures
        state.toggle_change(snapshot, display).style & FRAME_STYLES == 0,
        state.toggle_change(snapshot, display).style & !FRAME_STYLES == snapshot.style
            & !FRAME_STYLES,
        state.toggle_change(snapshot, display).bounds == display,
{
    let style = snapshot.style;
    assert((style & !0xcf_0000u32) & 0xcf_0000u32 == 0) by (bit_vector);
    assert((style & !0xcf_0000u32) & !0xcf_0000u32 == style & !0xcf_0000u32) by (bit_vector);
}

/// A placement that was kept for a window opens it at most once: after the first try, and after
/// the application has shown the window itself, no later one brings it back.
pub proof fn law_kept_placement_is_used_once(
    state: WindowsWindowState,
    visible: bool,
    later_visible: bool,
)
    ensures
        ({
            let after = WindowsWindowState { initial_placement: None, ..state };
            &&& after.late_placement(later_visible) is None
            &&& visible ==> state.late_placement(visible) is None
        }),
{
}

/// A window that is maximized, or made to fill the screen, before it is shown opens so, at the
/// place that was kept for it; and what was asked last holds.
pub proof fn law_opening_follows_last_request(
    state: WindowsWindowState,
    first: WindowOpenState,
    last: WindowOpenState,
)
    ensures
        state.opening_as(first).opening_as(last) == state.opening_as(last),
        state.initial_placement matches Some(status) ==> state.opening_as(last).late_placement(
            false,
        ) == Some(
            (
                status.placement,
                match last {
                    WindowOpenState::Maximized => AfterPlacement::Maximize,
                    WindowOpenState::Fullscreen => AfterPlacement::ToggleFullscreen,
                    WindowOpenState::Windowed => AfterPlacement::Nothing,
                },
            ),
        ),
{
}

/// What is saved of a window is the client area of its placement, or of an empty rectangle where
/// the system told none, at the resolution of the window: its frame is the window rectangle.
pub proof fn law_saved_bounds_are_the_client_area(
    state: WindowsWindowState,
    placement: WindowPlacement,
)
    ensures
        state.saved_bounds(Some(placement)).dpi == state.dpi,
        state.saved_bounds(None).dpi == state.dpi,
        state.saved_bounds(Some(placement)).bounds == crate::geometry::client_bounds(
            placement.normal_position,
            state.border_offset,
        ),
        state.saved_bounds(None).bounds == crate::geometry::client_bounds(
            Rect { left: 0, top: 0, right: 0, bottom: 0 },
            state.border_offset,
        ),
        state.saved_bounds_fit(Some(placement)) <==> crate::geometry::client_rect_fits(
            placement.normal_position,
            state.border_offset,
        ),
        state.saved_bounds_fit(None) <==> crate::geometry::client_rect_fits(
            Rect { left: 0, top: 0, right: 0, bottom: 0 },
            state.border_offset,
        ),
{
}

/// A window that fills the screen is saved with what it is restored to, whatever its placement
/// is. Any other is saved with its own bounds, as a maximized one exactly where the system shows
/// it so.
pub proof fn law_window_is_saved_as_it_lies(
    state: WindowsWindowState,
    placement: WindowPlacement,
)
    ensures
        state.fullscreen is Some ==> state.lies_as(Some(placement)) == WindowBounds::Fullscreen(
            state.fullscreen_restore_bounds,
        ) && state.lies_as(None) == WindowBounds::Fullscreen(state.fullscreen_restore_bounds),
        state.fullscreen is None && placement.show_command == 3 ==> state.lies_as(Some(placement))
            == WindowBounds::Maximized(state.saved_bounds(Some(placement))),
        state.fullscreen is None && placement.show_command != 3 ==> state.lies_as(Some(placement))
            == WindowBounds::Windowed(state.saved_bounds(Some(placement))),
        state.fullscreen is None ==> state.lies_as(None) == WindowBounds::Windowed(
            state.saved_bounds(None),
        ),
        is_maximized_placement(Some(placement)) <==> placement.show_command == 3,
        !is_maximized_placement(None),
{
}

/// Toggling changes whether the window fills the screen and what it is restored to, and nothing
/// else that the window remembers. What it is restored to is changed on the way in only.
pub proof fn law_toggling_keeps_the_rest(state: WindowsWindowState, snapshot: WindowSnapshot)
    ensures
        (WindowsWindowState {
            fullscreen: state.fullscreen,
            fullscreen_restore_bounds: state.fullscreen_restore_bounds,
            ..state.toggled(snapshot)
        }) == state,
        state.fullscreen is Some <==> state.toggled(snapshot).fullscreen is None,
        state.fullscreen is Some ==> state.toggled(snapshot).fullscreen_restore_bounds
            == state.fullscreen_restore_bounds,
        state.fullscreen is None ==> state.toggled(snapshot).fullscreen_restore_bounds
            == state.saved_bounds(snapshot.placement),
{
}

/// What is kept while a window fills the screen is the style that it had and the rectangle that
/// the system told, or an empty one, edge by edge.
pub proof fn law_rectangle_is_kept(
    state: WindowsWindowState,
    snapshot: WindowSnapshot,
    rect: Rect,
)
    requires
        state.fullscreen is None,
        snapshot.window_rect == Some(rect) || (snapshot.window_rect is None && rect == Rect {
            left: 0,
            top: 0,
            right: 0,
            bottom: 0,
        }),
        -0x8000_0000 <= rect.right - rect.left <= 0x7fff_ffff,
        -0x8000_0000 <= rect.bottom - rect.top <= 0x7fff_ffff,
    ensures
        state.toggled(snapshot).fullscreen matches Some(kept) && {
            &&& kept.style == snapshot.style
            &&& kept.bounds.origin.x == rect.left
            &&& kept.bounds.origin.y == rect.top
            &&& kept.bounds.origin.x + kept.bounds.size.width == rect.right
            &&& kept.bounds.origin.y + kept.bounds.size.height == rect.bottom
        },
{
}

/// A window that stops filling the screen gets back exactly what was kept of it, and the taskbar
/// may cover it. One that begins to loses its caption, frame, menu and buttons, keeps every other
/// style, takes the whole display, and the taskbar may not cover it.
pub proof fn law_fullscreen_changes_the_window(
    state: WindowsWindowState,
    snapshot: WindowSnapshot,
    display: Bounds,
)
    ensures
        ({
            let change = state.toggle_change(snapshot, display);
            &&& change.non_rude <==> state.fullscreen is Some
            &&& state.fullscreen matches Some(kept) ==> change.style == kept.style && change.bounds
                == kept.bounds
            &&& state.fullscreen is None ==> {
                &&& change.bounds == display
                &&& change.style & 0x00cf_0000 == 0
                &&& change.style | (snapshot.style & 0x00cf_0000) == snapshot.style
            }
        }),
{
    let style = snapshot.style;
    assert((style & !0xcf_0000u32) & 0xcf_0000u32 == 0) by (bit_vector);
    assert((style & !0xcf_0000u32) | (style & 0xcf_0000u32) == style) by (bit_vector);
}

/// A window can be toggled where what is kept of it consists of machine integers, and always back.
pub proof fn law_toggling_fits(state: WindowsWindowState, snapshot: WindowSnapshot, rect: Rect)
    ensures
        state.fullscreen is Some ==> state.toggle_fits(snapshot),
        state.fullscreen is None && snapshot.window_rect is None ==> (state.toggle_fits(snapshot)
            <==> state.saved_bounds_fit(snapshot.placement)),
        state.fullscreen is None && snapshot.window_rect == Some(rect) ==> (state.toggle_fits(
            snapshot,
        ) <==> state.saved_bounds_fit(snapshot.placement) && -0x8000_0000 <= rect.right - rect.left
            <= 0x7fff_ffff && -0x8000_0000 <= rect.bottom - rect.top <= 0x7fff_ffff),
{
}

/// A window that was kept opens with exactly its placement while it is not visible, and is
/// maximized or made to fill the screen after it exactly where that was asked for.
pub proof fn law_kept_window_opens_as_asked(state: WindowsWindowState, visible: bool)
    ensures
        state.late_placement(visible) is Some <==> state.initial_placement is Some && !visible,
        state.late_placement(visible) matches Some(opening) ==> {
            let kept = state.initial_placement->0;
            &&& opening.0 == kept.placement
            &&& opening.1 == AfterPlacement::Maximize <==> kept.state == WindowOpenState::Maximized
            &&& opening.1 == AfterPlacement::ToggleFullscreen <==> kept.state
                == WindowOpenState::Fullscreen
            &&& opening.1 == AfterPlacement::Nothing <==> kept.state == WindowOpenState::Windowed
        },
{
}

/// Asking for another way to open changes nothing but that way, and nothing at all where nothing
/// is kept.
pub proof fn law_asking_changes_the_way_only(state: WindowsWindowState, way: WindowOpenState)
    ensures
        (WindowsWindowState {
            initial_placement: state.initial_placement,
            ..state.opening_as(way)
        }) == state,
        state.initial_placement is None ==> state.opening_as(way) == state,
        state.initial_placement matches Some(kept) ==> {
            &&& state.opening_as(way).initial_placement matches Some(asked)
            &&& asked.placement == kept.placement
            &&& asked.state == way
        },
{
}

/// A window is restored first exactly where it is minimized, and the same key is pressed and then
/// released: alt.
pub proof fn law_key_is_pressed_and_released(minimized: bool)
    ensures
        activation_of(minimized).restore == minimized,
        activation_of(minimized).strokes.0.virtual_key == 18,
        activation_of(minimized).strokes.1.virtual_key
            == activation_of(minimized).strokes.0.virtual_key,
        !activation_of(minimized).strokes.0.released,
        activation_of(minimized).strokes.1.released,
{
}

/// A window flashes exactly where it is not active: once, at the system's pace, caption and
/// taskbar button.
pub proof fn law_inactive_window_flashes(is_active: bool)
    ensures
        flash_of(is_active) is Some <==> !is_active,
        flash_of(is_active) matches Some(flash) ==> flash.count == 1 && flash.timeout_ms == 0
            && flash.flags == 3,
{
}

/// A new window is where it was created, at the resolution of its screen, and would be restored
/// there; it is opaque, takes text input, and nothing was pressed, clicked, dragged, told or kept.
pub proof fn law_new_window_is_blank(
    state: WindowsWindowState,
    created: Bounds,
    dpi: u32,
    appearance: WindowAppearance,
    metrics: DoubleClickMetrics,
    visible: bool,
)
    requires
        state.is_new(created, dpi, appearance, metrics),
    ensures
        state.origin == created.origin,
        state.physical_size == created.size,
        state.dpi == dpi,
        state.fullscreen_restore_bounds.bounds == created,
        state.fullscreen_restore_bounds.dpi == dpi,
        state.border_offset.width_offset == 0,
        state.border_offset.height_offset == 0,
        state.appearance == appearance,
        state.background_appearance is Opaque,
        state.ime_enabled,
        !state.hovered,
        !state.force_render_pending,
        state.pending_surrogate is None,
        state.nc_button_pressed is None,
        state.last_reported_modifiers is None,
        state.last_reported_capslock is None,
        state.drag_session.last_cursor is None,
        state.click_state.metrics == metrics,
        state.click_state.current_count == 0,
        state.fullscreen is None,
        state.late_placement(visible) is None,
{
}

/// A window that fills the screen does not count as maximized; any other does exactly where the
/// system has it so. What is told of the client area is what is remembered.
pub proof fn law_window_is_told_as_it_is(state: WindowsWindowState, zoomed: bool)
    ensures
        state.fullscreen is Some ==> !state.counts_as_maximized(zoomed),
        state.fullscreen is None ==> state.counts_as_maximized(zoomed) == zoomed,
        state.client_area().bounds.origin == state.origin,
        state.client_area().bounds.size == state.physical_size,
        state.client_area().dpi == state.dpi,
{
}

/// Once a kept placement is gone there is none to open with, and nothing else has changed.
pub proof fn law_placement_is_gone(state: WindowsWindowState, visible: bool)
    ensures
        state.without_placement().late_placement(visible) is None,
        (WindowsWindowState {
            initial_placement: state.initial_placement,
            ..state.without_placement()
        }) == state,
{
}

/// A visible window does at once what it is asked for, and remembers nothing of it. Any other
/// does it when it opens, provided a placement is kept for it.
pub proof fn law_request_is_for_now_or_for_later(
    state: WindowsWindowState,
    visible: bool,
    way: WindowOpenState,
)
    ensures
        state.after_request(visible, way).1 == visible,
        visible ==> state.after_request(visible, way).0 == state,
        !visible ==> {
            let later = state.after_request(visible, way).0;
            &&& later.initial_placement is Some <==> state.initial_placement is Some
            &&& later.initial_placement matches Some(kept) ==> kept.state == way && kept.placement
                == state.initial_placement->0.placement
            &&& (WindowsWindowState { initial_placement: state.initial_placement, ..later })
                == state
        },
{
}

} // verus!
