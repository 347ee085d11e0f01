//! Device-pixel geometry: where a window's frame lies around its client area.

use vstd::prelude::*;

verus! {

/// A position in device pixels.
#[derive(Clone, Copy, Debug, PartialEq, Eq, Structural)]
pub struct Point {
    pub x: i32,
    pub y: i32,
}

/// An extent in device pixels.
#[derive(Clone, Copy, Debug, PartialEq, Eq, Structural)]
pub struct Size {
    pub width: i32,
    pub height: i32,
}

/// A rectangle in device pixels, given by its top left corner and its extent.
#[derive(Clone, Copy, Debug, PartialEq, Eq, Structural)]
pub struct Bounds {
    pub origin: Point,
    pub size: Size,
}

/// A rectangle in device pixels, given by its four edges.
#[derive(Clone, Copy, Debug, PartialEq, Eq, Structural)]
pub struct Rect {
    pub left: i32,
    pub top: i32,
    pub right: i32,
    pub bottom: i32,
}

/// Whether a mathematical integer is an `i32`.
pub open spec fn fits(value: int) -> bool {
    i32::MIN <= value <= i32::MAX
}

/// Half of `value`, rounded toward zero.
pub open spec fn half(value: int) -> int {
    if value >= 0 {
        value / 2
    } else {
        -((-value) / 2)
    }
}

fn is_i32(value: i64) -> (ok: bool)
    ensures
        ok == fits(value as int),
{
    i32::MIN as i64 <= value && value <= i32::MAX as i64
}

impl Rect {
    pub open spec fn spec_width(self) -> int {
        self.right - self.left
    }

    pub open spec fn spec_height(self) -> int {
        self.bottom - self.top
    }

    /// The distances between opposite edges are machine integers.
    pub open spec fn extent_fits(self) -> bool {
        fits(self.spec_width()) && fits(self.spec_height())
    }

    /// Whether the distances between opposite edges are machine integers.
    pub fn has_extent(self) -> (ok: bool)
        ensures
            ok == self.extent_fits(),
    {
        is_i32(self.right as i64 - self.left as i64) && is_i32(self.bottom as i64 - self.top as i64)
    }

    /// The rectangle as an origin and an extent.
    pub open spec fn spec_bounds(self) -> Bounds {
        Bounds {
            origin: Point { x: self.left, y: self.top },
            size: Size { width: self.spec_width() as i32, height: self.spec_height() as i32 },
        }
    }

    /// The rectangle as an origin and an extent.
    pub fn bounds(self) -> (bounds: Bounds)
        requires
            self.extent_fits(),
        ensures
            bounds == self.spec_bounds(),
    {
        Bounds {
            origin: Point { x: self.left, y: self.top },
            size: Size { width: self.right - self.left, height: self.bottom - self.top },
        }
    }
}

/// How much wider and higher the window rectangle is than the client rectangle.
#[derive(Clone, Copy, Debug, PartialEq, Eq, Structural)]
pub struct WindowBorderOffset {
    pub width_offset: i32,
    pub height_offset: i32,
}

impl WindowBorderOffset {
    pub open spec fn spec_left(self) -> int {
        half(self.width_offset as int)
    }

    pub open spec fn spec_top(self) -> int {
        half(self.height_offset as int)
    }

    /// The right border takes what the left one leaves of the width offset.
    pub open spec fn spec_right(self) -> int {
        self.width_offset - self.spec_left()
    }

    /// The bottom border takes what the top one leaves of the height offset.
    pub open spec fn spec_bottom(self) -> int {
        self.height_offset - self.spec_top()
    }

    /// Whether [`WindowBorderOffset::update`] can be called.
    pub fn is_measurable(window_rect: Rect, client_rect: Rect) -> (ok: bool)
        ensures
            ok == border_fits(window_rect, client_rect),
    {
        window_rect.has_extent() && client_rect.has_extent() && is_i32(
            (window_rect.right as i64 - window_rect.left as i64) - (client_rect.right as i64
                - client_rect.left as i64),
        ) && is_i32(
            (window_rect.bottom as i64 - window_rect.top as i64) - (client_rect.bottom as i64
                - client_rect.top as i64),
        )
    }

    /// Takes the offsets from the two rectangles that the system reports of a window.
    pub fn update(&mut self, window_rect: Rect, client_rect: Rect)
        requires
            border_fits(window_rect, client_rect),
        ensures
            *final(self) == crate::window_creation::border_between(window_rect, client_rect),
            final(self).width_offset == window_rect.spec_width() - client_rect.spec_width(),
            final(self).height_offset == window_rect.spec_height() - client_rect.spec_height(),
    {
        self.width_offset = (window_rect.right - window_rect.left) - (client_rect.right
            - client_rect.left);
        self.height_offset = (window_rect.bottom - window_rect.top) - (client_rect.bottom
            - client_rect.top);
    }
}

impl Default for WindowBorderOffset {
    fn default() -> (offset: Self)
        ensures
            offset.width_offset == 0,
            offset.height_offset == 0,
    {
        WindowBorderOffset { width_offset: 0, height_offset: 0 }
    }
}

impl Bounds {
    /// The right and bottom edges are machine integers.
    pub open spec fn edges_fit(self) -> bool {
        fits(self.origin.x + self.size.width) && fits(self.origin.y + self.size.height)
    }
}

/// Whether the border that two rectangles of a window make consists of machine integers.
pub open spec fn border_fits(window_rect: Rect, client_rect: Rect) -> bool {
    &&& window_rect.extent_fits()
    &&& client_rect.extent_fits()
    &&& fits(window_rect.spec_width() - client_rect.spec_width())
    &&& fits(window_rect.spec_height() - client_rect.spec_height())
}

/// The rectangle around the client area `bounds` with a border on each side.
pub open spec fn frame_edges(bounds: Bounds, border: WindowBorderOffset) -> (int, int, int, int) {
    (
        bounds.origin.x - border.spec_left(),
        bounds.origin.y - border.spec_top(),
        bounds.origin.x + bounds.size.width + border.spec_right(),
        bounds.origin.y + bounds.size.height + border.spec_bottom(),
    )
}

/// The rectangle inside the window rectangle `rect` without the border of each side.
pub open spec fn client_edges(rect: Rect, border: WindowBorderOffset) -> (int, int, int, int) {
    (
        rect.left + border.spec_left(),
        rect.top + border.spec_top(),
        rect.right - border.spec_right(),
        rect.bottom - border.spec_bottom(),
    )
}

/// The client area inside the window rectangle `rect`.
pub open spec fn client_bounds(rect: Rect, border: WindowBorderOffset) -> Bounds {
    let edges = client_edges(rect, border);
    Bounds {
        origin: Point { x: edges.0 as i32, y: edges.1 as i32 },
        size: Size { width: (edges.2 - edges.0) as i32, height: (edges.3 - edges.1) as i32 },
    }
}

/// Whether a rectangle has these edges: left, top, right and bottom.
pub open spec fn edges_are(rect: Rect, edges: (int, int, int, int)) -> bool {
    rect.left == edges.0 && rect.top == edges.1 && rect.right == edges.2 && rect.bottom == edges.3
}

/// Whether [`calculate_window_rect`] stays within `i32`.
pub open spec fn window_rect_fits(bounds: Bounds, border: WindowBorderOffset) -> bool {
    let edges = frame_edges(bounds, border);
    &&& bounds.edges_fit()
    &&& fits(edges.0) && fits(edges.1) && fits(edges.2) && fits(edges.3)
}

/// Whether [`calculate_client_rect`] stays within `i32`.
pub open spec fn client_rect_fits(rect: Rect, border: WindowBorderOffset) -> bool {
    let edges = client_edges(rect, border);
    &&& fits(edges.0) && fits(edges.1) && fits(edges.2) && fits(edges.3)
    &&& fits(edges.2 - edges.0) && fits(edges.3 - edges.1)
}

/// Whether [`calculate_window_rect`] can be called.
pub fn has_window_rect(bounds: Bounds, border_offset: &WindowBorderOffset) -> (ok: bool)
    ensures
        ok == window_rect_fits(bounds, *border_offset),
{
    let left: i64 = (border_offset.width_offset / 2) as i64;
    let top: i64 = (border_offset.height_offset / 2) as i64;
    let far_x: i64 = bounds.origin.x as i64 + bounds.size.width as i64;
    let far_y: i64 = bounds.origin.y as i64 + bounds.size.height as i64;
    is_i32(far_x) && is_i32(far_y) && is_i32(bounds.origin.x as i64 - left) && is_i32(
        bounds.origin.y as i64 - top,
    ) && is_i32(far_x + (border_offset.width_offset as i64 - left)) && is_i32(
        far_y + (border_offset.height_offset as i64 - top),
    )
}

/// The window rectangle whose client area is `bounds`.
pub fn calculate_window_rect(bounds: Bounds, border_offset: &WindowBorderOffset) -> (rect: Rect)
    requires
        window_rect_fits(bounds, *border_offset),
    ensures
        edges_are(rect, frame_edges(bounds, *border_offset)),
{
    let left_offset: i32 = border_offset.width_offset / 2;
    let top_offset: i32 = border_offset.height_offset / 2;
    let right_offset: i32 = border_offset.width_offset - left_offset;
    let bottom_offset: i32 = border_offset.height_offset - top_offset;
    Rect {
        left: bounds.origin.x - left_offset,
        top: bounds.origin.y - top_offset,
        right: (bounds.origin.x + bounds.size.width) + right_offset,
        bottom: (bounds.origin.y + bounds.size.height) + bottom_offset,
    }
}

/// Whether [`calculate_client_rect`] can be called.
pub fn has_client_rect(rect: Rect, border_offset: &WindowBorderOffset) -> (ok: bool)
    ensures
        ok == client_rect_fits(rect, *border_offset),
{
    let left_offset: i64 = (border_offset.width_offset / 2) as i64;
    let top_offset: i64 = (border_offset.height_offset / 2) as i64;
    let left: i64 = rect.left as i64 + left_offset;
    let top: i64 = rect.top as i64 + top_offset;
    let right: i64 = rect.right as i64 - (border_offset.width_offset as i64 - left_offset);
    let bottom: i64 = rect.bottom as i64 - (border_offset.height_offset as i64 - top_offset);
    is_i32(left) && is_i32(top) && is_i32(right) && is_i32(bottom) && is_i32(right - left)
        && is_i32(bottom - top)
}

/// The client area of the window rectangle `rect`.
pub fn calculate_client_rect(rect: Rect, border_offset: &WindowBorderOffset) -> (bounds: Bounds)
    requires
        client_rect_fits(rect, *border_offset),
    ensures
        bounds == client_bounds(rect, *border_offset),
{
    let left_offset: i32 = border_offset.width_offset / 2;
    let top_offset: i32 = border_offset.height_offset / 2;
    let right_offset: i32 = border_offset.width_offset - left_offset;
    let bottom_offset: i32 = border_offset.height_offset - top_offset;
    let left: i32 = rect.left + left_offset;
    let top: i32 = rect.top + top_offset;
    let right: i32 = rect.right - right_offset;
    let bottom: i32 = rect.bottom - bottom_offset;
    Bounds {
        origin: Point { x: left, y: top },
        size: Size { width: right - left, height: bottom - top },
    }
}

/// Where a window with a client area is told to be when it is resized, and how large.
pub open spec fn resized(bounds: Bounds, border: WindowBorderOffset) -> Bounds {
    Bounds {
        origin: bounds.origin,
        size: Size {
            width: (bounds.size.width + border.width_offset) as i32,
            height: (bounds.size.height + border.height_offset) as i32,
        },
    }
}

/// Whether [`resize_target`] stays within `i32`.
pub open spec fn resize_fits(bounds: Bounds, border: WindowBorderOffset) -> bool {
    &&& window_rect_fits(bounds, border)
    &&& fits(bounds.size.width + border.width_offset)
    &&& fits(bounds.size.height + border.height_offset)
}

/// Whether [`resize_target`] can be called.
pub fn has_resize_target(bounds: Bounds, border_offset: &WindowBorderOffset) -> (ok: bool)
    ensures
        ok == resize_fits(bounds, *border_offset),
{
    has_window_rect(bounds, border_offset) && is_i32(
        bounds.size.width as i64 + border_offset.width_offset as i64,
    ) && is_i32(bounds.size.height as i64 + border_offset.height_offset as i64)
}

/// Where to put a window, and how large, so that its client area gets the size of `bounds`. The
/// origin is that of the client area: a resize does not move the window.
pub fn resize_target(bounds: Bounds, border_offset: &WindowBorderOffset) -> (target: Bounds)
    requires
        resize_fits(bounds, *border_offset),
    ensures
        target == resized(bounds, *border_offset),
        target.origin == bounds.origin,
        target.size.width == bounds.size.width + border_offset.width_offset,
        target.size.height == bounds.size.height + border_offset.height_offset,
{
    let rect: Rect = calculate_window_rect(bounds, border_offset);
    Bounds {
        origin: bounds.origin,
        size: Size { width: rect.right - rect.left, height: rect.bottom - rect.top },
    }
}

/// Where the corner of a window goes so that the corner of its client area comes to a target.
pub open spec fn moved_corner(target: Point, client_origin: Point, window_rect: Rect) -> Point {
    Point {
        x: (target.x - client_origin.x + window_rect.left) as i32,
        y: (target.y - client_origin.y + window_rect.top) as i32,
    }
}

/// Whether [`move_target`] stays within `i32`.
pub open spec fn move_fits(target: Point, client_origin: Point, window_rect: Rect) -> bool {
    &&& fits(client_origin.x - window_rect.left)
    &&& fits(client_origin.y - window_rect.top)
    &&& fits(target.x - (client_origin.x - window_rect.left))
    &&& fits(target.y - (client_origin.y - window_rect.top))
}

/// Whether [`move_target`] can be called.
pub fn has_move_target(target: Point, client_origin: Point, window_rect: Rect) -> (ok: bool)
    ensures
        ok == move_fits(target, client_origin, window_rect),
{
    let inset_x: i64 = client_origin.x as i64 - window_rect.left as i64;
    let inset_y: i64 = client_origin.y as i64 - window_rect.top as i64;
    is_i32(inset_x) && is_i32(inset_y) && is_i32(target.x as i64 - inset_x) && is_i32(
        target.y as i64 - inset_y,
    )
}

/// Where to put the corner of a window so that the corner of its client area comes to lie on
/// `target`, given where both are now.
pub fn move_target(target: Point, client_origin: Point, window_rect: Rect) -> (origin: Point)
    requires
        move_fits(target, client_origin, window_rect),
    ensures
        origin == moved_corner(target, client_origin, window_rect),
        origin.x - window_rect.left == target.x - client_origin.x,
        origin.y - window_rect.top == target.y - client_origin.y,
{
    Point {
        x: target.x - (client_origin.x - window_rect.left),
        y: target.y - (client_origin.y - window_rect.top),
    }
}

/// Where the caret of a text with a height is.
pub open spec fn caret_of(origin: Point, height: i32) -> Point {
    Point { x: origin.x, y: (origin.y + half(height as int)) as i32 }
}

/// Whether [`caret_position`] stays within `i32`.
pub open spec fn caret_fits(origin: Point, height: i32) -> bool {
    fits(origin.y + half(height as int))
}

/// Whether [`caret_position`] can be called.
pub fn has_caret_position(origin: Point, height: i32) -> (ok: bool)
    ensures
        ok == caret_fits(origin, height),
{
    is_i32(origin.y as i64 + (height / 2) as i64)
}

/// Where the caret is for the input method: at the left edge of the text, half its height down.
pub fn caret_position(origin: Point, height: i32) -> (caret: Point)
    requires
        caret_fits(origin, height),
    ensures
        caret == caret_of(origin, height),
        caret.x == origin.x,
        caret.y == origin.y + half(height as int),
{
    Point { x: origin.x, y: origin.y + height / 2 }
}

/// The client area of the window rectangle around a client area is that client area.
pub proof fn law_client_area_survives_frame(bounds: Bounds, border: WindowBorderOffset, rect: Rect)
    requires
        edges_are(rect, frame_edges(bounds, border)),
    ensures
        client_bounds(rect, border) == bounds,
{
}

/// The window rectangle around the client area of a window rectangle is that rectangle.
pub proof fn law_frame_survives_client_area(rect: Rect, border: WindowBorderOffset)
    requires
        client_rect_fits(rect, border),
    ensures
        edges_are(rect, frame_edges(client_bounds(rect, border), border)),
{
}

/// The frame is wider and higher than the client area by exactly the border offsets, and the
/// two borders of an axis differ by one pixel at most.
pub proof fn law_frame_adds_the_offsets(bounds: Bounds, border: WindowBorderOffset, rect: Rect)
    requires
        edges_are(rect, frame_edges(bounds, border)),
    ensures
        rect.spec_width() == bounds.size.width + border.width_offset,
        rect.spec_height() == bounds.size.height + border.height_offset,
        -1 <= border.spec_right() - border.spec_left() <= 1,
        -1 <= border.spec_bottom() - border.spec_top() <= 1,
{
}

/// Half of a number, twice, misses the number by one at most, and on the side of zero.
pub proof fn law_half_rounds_toward_zero(value: int)
    ensures
        value >= 0 ==> 0 <= value - 2 * half(value) <= 1,
        value < 0 ==> -1 <= value - 2 * half(value) <= 0,
{
}

/// The frame adds a border on every side. The two of an axis make up the offset; they are the
/// same, or the right or lower one takes the odd pixel.
pub proof fn law_border_is_split_in_half(bounds: Bounds, border: WindowBorderOffset)
    ensures
        ({
            let edges = frame_edges(bounds, border);
            let left = bounds.origin.x - edges.0;
            let top = bounds.origin.y - edges.1;
            let right = edges.2 - (bounds.origin.x + bounds.size.width);
            let bottom = edges.3 - (bounds.origin.y + bounds.size.height);
            &&& left + right == border.width_offset
            &&& top + bottom == border.height_offset
            &&& border.width_offset >= 0 ==> left <= right <= left + 1
            &&& border.width_offset < 0 ==> left - 1 <= right <= left
            &&& border.height_offset >= 0 ==> top <= bottom <= top + 1
            &&& border.height_offset < 0 ==> top - 1 <= bottom <= top
        }),
{
}

/// The client area takes the borders off again, edge by edge: it is the one whose frame is the
/// window rectangle.
pub proof fn law_client_area_is_what_was_framed(
    bounds: Bounds,
    rect: Rect,
    border: WindowBorderOffset,
)
    requires
        client_rect_fits(rect, border),
    ensures
        client_bounds(rect, border) == bounds <==> {
            let edges = frame_edges(bounds, border);
            &&& edges.0 == rect.left
            &&& edges.1 == rect.top
            &&& edges.2 == rect.right
            &&& edges.3 == rect.bottom
        },
{
    let found = client_bounds(rect, border);
    assert(found.origin.x == rect.left + half(border.width_offset as int));
}

/// A rectangle as an origin and an extent has the same four edges.
pub proof fn law_bounds_keep_the_edges(rect: Rect)
    requires
        rect.right - rect.left <= i32::MAX,
        rect.right - rect.left >= i32::MIN,
        rect.bottom - rect.top <= i32::MAX,
        rect.bottom - rect.top >= i32::MIN,
    ensures
        rect.extent_fits(),
        rect.spec_bounds().origin.x == rect.left,
        rect.spec_bounds().origin.y == rect.top,
        rect.spec_bounds().origin.x + rect.spec_bounds().size.width == rect.right,
        rect.spec_bounds().origin.y + rect.spec_bounds().size.height == rect.bottom,
{
}

/// The extent of a rectangle is the distance of its opposite edges.
pub proof fn law_extent_is_between_the_edges(rect: Rect)
    ensures
        rect.left + rect.spec_width() == rect.right,
        rect.top + rect.spec_height() == rect.bottom,
        rect.extent_fits() <==> -0x8000_0000 <= rect.right - rect.left <= 0x7fff_ffff
            && -0x8000_0000 <= rect.bottom - rect.top <= 0x7fff_ffff,
{
}

/// A window rectangle can be had exactly where its four edges, and those of the client area, are
/// machine integers; and a client area where its edges and its extent are.
pub proof fn law_rectangles_fit_where_their_edges_do(
    bounds: Bounds,
    rect: Rect,
    border: WindowBorderOffset,
)
    ensures
        ({
            let low = -0x8000_0000int;
            let high = 0x7fff_ffffint;
            let frame = frame_edges(bounds, border);
            let left = rect.left + (bounds.origin.x - frame.0);
            let top = rect.top + (bounds.origin.y - frame.1);
            let right = rect.right - (frame.2 - bounds.origin.x - bounds.size.width);
            let bottom = rect.bottom - (frame.3 - bounds.origin.y - bounds.size.height);
            &&& window_rect_fits(bounds, border) <==> {
                &&& low <= bounds.origin.x + bounds.size.width <= high
                &&& low <= bounds.origin.y + bounds.size.height <= high
                &&& low <= frame.0 <= high
                &&& low <= frame.1 <= high
                &&& low <= frame.2 <= high
                &&& low <= frame.3 <= high
            }
            &&& client_rect_fits(rect, border) <==> {
                &&& low <= left <= high
                &&& low <= top <= high
                &&& low <= right <= high
                &&& low <= bottom <= high
                &&& low <= right - left <= high
                &&& low <= bottom - top <= high
            }
            &&& resize_fits(bounds, border) <==> {
                &&& window_rect_fits(bounds, border)
                &&& low <= frame.2 - frame.0 <= high
                &&& low <= frame.3 - frame.1 <= high
            }
        }),
{
}

/// A window can be moved, and a caret placed, exactly where every number on the way is a machine
/// integer.
pub proof fn law_moves_fit_where_their_numbers_do(
    target: Point,
    client_origin: Point,
    rect: Rect,
    height: i32,
)
    ensures
        move_fits(target, client_origin, rect) <==> {
            &&& -0x8000_0000 <= client_origin.x - rect.left <= 0x7fff_ffff
            &&& -0x8000_0000 <= client_origin.y - rect.top <= 0x7fff_ffff
            &&& -0x8000_0000 <= target.x - client_origin.x + rect.left <= 0x7fff_ffff
            &&& -0x8000_0000 <= target.y - client_origin.y + rect.top <= 0x7fff_ffff
        },
        caret_fits(target, height) <==> -0x8000_0000 <= target.y + half(height as int)
            <= 0x7fff_ffff,
{
}

/// A border can be measured exactly where the extents and their differences are machine integers.
pub proof fn law_borders_fit_where_their_numbers_do(window_rect: Rect, client_rect: Rect)
    ensures
        border_fits(window_rect, client_rect) <==> {
            let width = window_rect.right - window_rect.left;
            let height = window_rect.bottom - window_rect.top;
            let client_width = client_rect.right - client_rect.left;
            let client_height = client_rect.bottom - client_rect.top;
            &&& -0x8000_0000 <= width <= 0x7fff_ffff
            &&& -0x8000_0000 <= height <= 0x7fff_ffff
            &&& -0x8000_0000 <= client_width <= 0x7fff_ffff
            &&& -0x8000_0000 <= client_height <= 0x7fff_ffff
            &&& -0x8000_0000 <= width - client_width <= 0x7fff_ffff
            &&& -0x8000_0000 <= height - client_height <= 0x7fff_ffff
        },
{
}

/// A resized window has the extent of the frame around its client area, and the corner of the
/// client area as its place.
pub proof fn law_resized_window_has_the_frame(bounds: Bounds, border: WindowBorderOffset)
    requires
        resize_fits(bounds, border),
    ensures
        resized(bounds, border).origin == bounds.origin,
        resized(bounds, border).size.width == frame_edges(bounds, border).2 - frame_edges(
            bounds,
            border,
        ).0,
        resized(bounds, border).size.height == frame_edges(bounds, border).3 - frame_edges(
            bounds,
            border,
        ).1,
{
}

/// A window is moved by as much as the corner of its client area is to move, and not at all where
/// that is at its target already.
pub proof fn law_window_moves_with_its_client_area(
    target: Point,
    client_origin: Point,
    window_rect: Rect,
)
    requires
        move_fits(target, client_origin, window_rect),
    ensures
        ({
            let corner = moved_corner(target, client_origin, window_rect);
            &&& corner.x + (client_origin.x - window_rect.left) == target.x
            &&& corner.y + (client_origin.y - window_rect.top) == target.y
            &&& target == client_origin ==> corner.x == window_rect.left && corner.y
                == window_rect.top
        }),
{
}

/// The caret is at the left edge of its text, in the middle of the height, or half a pixel off
/// toward the top of it.
pub proof fn law_caret_is_in_the_middle(origin: Point, height: i32)
    requires
        caret_fits(origin, height),
    ensures
        caret_of(origin, height).x == origin.x,
        height >= 0 ==> 0 <= height - 2 * (caret_of(origin, height).y - origin.y) <= 1,
        height < 0 ==> -1 <= height - 2 * (caret_of(origin, height).y - origin.y) <= 0,
{
}

} // verus!
