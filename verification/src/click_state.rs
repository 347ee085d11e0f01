//! Counting clicks: single, double and more.

use crate::geometry::Point;
use std::time::Instant;
use vstd::prelude::*;

verus! {

/// Declares [`Instant`], a point in time. Nothing is known of what is inside.
#[verifier::external_type_specification]
#[verifier::external_body]
pub struct ExInstant(std::time::Instant);

/// Which way a navigation button leads.
#[derive(Clone, Copy, Debug, PartialEq, Eq, Structural)]
pub enum NavigationDirection {
    Back,
    Forward,
}

/// A button of the mouse.
#[derive(Clone, Copy, Debug, PartialEq, Eq, Structural)]
pub enum MouseButton {
    Left,
    Right,
    Middle,
    Navigate(NavigationDirection),
}

/// What the system counts as a double click.
#[derive(Clone, Copy, Debug, PartialEq, Eq, Structural)]
pub struct DoubleClickMetrics {
    /// How far apart two clicks may be horizontally, in device pixels.
    pub tolerance_width: i32,
    /// How far apart two clicks may be vertically, in device pixels.
    pub tolerance_height: i32,
    /// How soon the second click must follow, in milliseconds.
    pub interval_ms: u32,
}

/// The click that was counted last, and how to count the next.
#[derive(Clone, Copy, Debug)]
pub struct ClickState {
    pub button: MouseButton,
    /// When the state was made. Times are measured from here.
    pub anchor: Instant,
    /// When the last click came, in nanoseconds after the anchor; before the first click, when
    /// the state was made.
    pub last_click: i128,
    pub last_position: Point,
    pub metrics: DoubleClickMetrics,
    pub current_count: usize,
}

/// The setting of the width within which clicks count as one double click.
pub const SPI_SETDOUBLECLKWIDTH: usize = 29;

/// The setting of the height within which clicks count as one double click.
pub const SPI_SETDOUBLECLKHEIGHT: usize = 30;

/// The setting of the time within which clicks count as one double click.
pub const SPI_SETDOUBLECLICKTIME: usize = 32;

/// Calls [`Instant::now`]. Nothing is said of the result: it is the time.
#[verifier::external_body]
fn clock_now() -> (now: Instant) {
    Instant::now()
}

/// Calls [`Instant::elapsed`] and gives the duration in nanoseconds. Only the range is said of
/// the result, which rests on the time: a duration has as many whole seconds as fit in `u64`, and
/// less than one second more.
#[verifier::external_body]
fn nanos_since(start: &Instant) -> (elapsed: u128)
    ensures
        elapsed < (u64::MAX + 1) * 1_000_000_000,
{
    start.elapsed().as_nanos()
}

/// How long a time comes after another: not at all where it comes before.
pub open spec fn elapsed(last: i128, now: i128) -> int {
    if now > last {
        now - last
    } else {
        0
    }
}

/// How far apart two numbers are.
pub open spec fn distance(left: int, right: int) -> int {
    if left >= right {
        left - right
    } else {
        right - left
    }
}

impl DoubleClickMetrics {
    /// Whether two clicks are close enough in space and time to be one double click.
    pub open spec fn joins(self, last: Point, next: Point, elapsed_nanos: int) -> bool {
        &&& elapsed_nanos < self.interval_ms * 1_000_000
        &&& distance(last.x as int, next.x as int) <= self.tolerance_width
        &&& distance(last.y as int, next.y as int) <= self.tolerance_height
    }
}

impl DoubleClickMetrics {
    /// The metrics with one setting of the system's current ones.
    pub open spec fn with_setting(self, setting: usize, current: DoubleClickMetrics) -> Self {
        if setting == SPI_SETDOUBLECLKWIDTH {
            DoubleClickMetrics { tolerance_width: current.tolerance_width, ..self }
        } else if setting == SPI_SETDOUBLECLKHEIGHT {
            DoubleClickMetrics { tolerance_height: current.tolerance_height, ..self }
        } else if setting == SPI_SETDOUBLECLICKTIME {
            DoubleClickMetrics { interval_ms: current.interval_ms, ..self }
        } else {
            self
        }
    }
}

impl ClickState {
    /// Whether a click can be counted, however long it comes after the last one: where the
    /// button is the same, the distances and the count must be machine integers.
    pub open spec fn can_count(self, button: MouseButton, position: Point) -> bool {
        self.button == button ==> {
            &&& distance(self.last_position.x as int, position.x as int) <= i32::MAX
            &&& distance(self.last_position.y as int, position.y as int) <= i32::MAX
            &&& self.current_count < usize::MAX
        }
    }

    /// Whether the place of a click that comes so long after the last one can be compared. A
    /// click that comes late, or is too far away on one axis, is not compared further.
    pub open spec fn can_compare(self, position: Point, elapsed_nanos: int) -> bool {
        let last = self.last_position;
        &&& crate::geometry::fits(last.x - position.x)
        &&& crate::geometry::fits(last.y - position.y)
        &&& elapsed_nanos < self.metrics.interval_ms * 1_000_000 ==> {
            &&& last.x - position.x > i32::MIN
            &&& distance(last.x as int, position.x as int) <= self.metrics.tolerance_width
                ==> last.y - position.y > i32::MIN
        }
    }

    /// Whether a click that comes so long after the last one can be counted.
    pub open spec fn can_count_after(
        self,
        button: MouseButton,
        position: Point,
        elapsed_nanos: int,
    ) -> bool {
        &&& self.button == button ==> self.can_compare(position, elapsed_nanos)
        &&& self.next_count(button, position, elapsed_nanos) <= usize::MAX
    }

    /// The count of a click that comes so long after the last one.
    pub open spec fn next_count(
        self,
        button: MouseButton,
        position: Point,
        elapsed_nanos: int,
    ) -> int {
        if self.button == button && self.metrics.joins(
            self.last_position,
            position,
            elapsed_nanos,
        ) {
            self.current_count + 1
        } else {
            1
        }
    }

    /// Whether this is a state in which nothing was clicked.
    pub open spec fn is_fresh(self, metrics: DoubleClickMetrics) -> bool {
        &&& self.button == MouseButton::Left
        &&& self.last_click == 0
        &&& self.last_position == (Point { x: 0, y: 0 })
        &&& self.metrics == metrics
        &&& self.current_count == 0
    }

    /// A state in which nothing was clicked, with what the system counts as a double click.
    pub fn new(metrics: DoubleClickMetrics) -> (state: ClickState)
        ensures
            state.is_fresh(metrics),
            state.button == MouseButton::Left,
            state.last_click == 0,
            state.last_position == (Point { x: 0, y: 0 }),
            state.metrics == metrics,
            state.current_count == 0,
    {
        ClickState {
            button: MouseButton::Left,
            anchor: clock_now(),
            last_click: 0,
            last_position: Point { x: 0, y: 0 },
            metrics,
            current_count: 0,
        }
    }

    /// The state after a click at `now`.
    pub open spec fn clicked(self, button: MouseButton, position: Point, now: i128) -> ClickState {
        ClickState {
            button,
            last_click: now,
            last_position: position,
            current_count: self.next_count(
                button,
                position,
                elapsed(self.last_click, now),
            ) as usize,
            ..self
        }
    }

    /// Whether [`ClickState::update`] can be called.
    pub fn is_countable(&self, button: MouseButton, position: Point) -> (ok: bool)
        ensures
            ok == self.can_count(button, position),
    {
        self.button != button || (is_within_reach(self.last_position.x, position.x)
            && is_within_reach(self.last_position.y, position.y) && self.current_count
            < usize::MAX)
    }

    /// Counts a click and returns its count. The clock is read once: the reading says how long
    /// the click comes after the last one, and is what the next one is measured from.
    pub fn update(&mut self, button: MouseButton, new_position: Point) -> (count: usize)
        requires
            old(self).can_count(button, new_position),
        ensures
            count == final(self).current_count,
            count == old(self).next_count(
                button,
                new_position,
                elapsed(old(self).last_click, final(self).last_click),
            ),
            final(self).last_click >= 0,
            *final(self) == old(self).clicked(button, new_position, final(self).last_click),
    {
        let now: i128 = nanos_since(&self.anchor) as i128;
        self.update_at(button, new_position, now)
    }

    /// Counts a click at `now`, in nanoseconds after the anchor, and returns its count.
    pub fn update_at(&mut self, button: MouseButton, new_position: Point, now: i128) -> (count:
        usize)
        requires
            old(self).can_count_after(
                button,
                new_position,
                elapsed(old(self).last_click, now),
            ),
        ensures
            count == final(self).current_count,
            count == old(self).next_count(
                button,
                new_position,
                elapsed(old(self).last_click, now),
            ),
            *final(self) == old(self).clicked(button, new_position, now),
    {
        let elapsed_nanos: u128 = nanos_between(self.last_click, now);
        if self.button == button && self.is_double_click(new_position, elapsed_nanos) {
            self.current_count = self.current_count + 1;
        } else {
            self.current_count = 1;
        }
        self.last_click = now;
        self.last_position = new_position;
        self.button = button;
        self.current_count
    }

    /// Takes up a changed setting of the system, given its current metrics.
    pub fn system_update(&mut self, wparam: usize, metrics: DoubleClickMetrics)
        ensures
            *final(self) == (ClickState {
                metrics: old(self).metrics.with_setting(wparam, metrics),
                ..*old(self)
            }),
    {
        if wparam == SPI_SETDOUBLECLKWIDTH {
            self.metrics.tolerance_width = metrics.tolerance_width;
        } else if wparam == SPI_SETDOUBLECLKHEIGHT {
            self.metrics.tolerance_height = metrics.tolerance_height;
        } else if wparam == SPI_SETDOUBLECLICKTIME {
            self.metrics.interval_ms = metrics.interval_ms;
        }
    }

    fn is_double_click(&self, new_position: Point, elapsed_nanos: u128) -> (joined: bool)
        requires
            self.can_compare(new_position, elapsed_nanos as int),
        ensures
            joined == self.metrics.joins(self.last_position, new_position, elapsed_nanos as int),
    {
        let diff_x: i32 = self.last_position.x - new_position.x;
        let diff_y: i32 = self.last_position.y - new_position.y;
        elapsed_nanos < self.metrics.interval_ms as u128 * 1_000_000
            && magnitude(diff_x) <= self.metrics.tolerance_width
            && magnitude(diff_y) <= self.metrics.tolerance_height
    }
}

fn is_within_reach(last: i32, next: i32) -> (ok: bool)
    ensures
        ok == (distance(last as int, next as int) <= i32::MAX),
{
    let difference: i64 = last as i64 - next as i64;
    -(i32::MAX as i64) <= difference && difference <= i32::MAX as i64
}

fn nanos_between(last: i128, now: i128) -> (nanos: u128)
    ensures
        nanos == elapsed(last, now),
{
    if now <= last {
        0
    } else if last >= 0 || now < 0 {
        (now - last) as u128
    } else {
        now as u128 + (-(last + 1)) as u128 + 1
    }
}

fn magnitude(value: i32) -> (result: i32)
    requires
        value > i32::MIN,
    ensures
        result == distance(value as int, 0),
{
    if value < 0 {
        -value
    } else {
        value
    }
}

/// A click: the button, the place, and the time in nanoseconds after the anchor.
pub struct Click {
    pub button: MouseButton,
    pub position: Point,
    pub time: i128,
}

impl Click {
    /// Whether the click belongs to the same multiple click as the last one of `state`.
    pub open spec fn joins(self, state: ClickState) -> bool {
        state.button == self.button && state.metrics.joins(
            state.last_position,
            self.position,
            elapsed(state.last_click, self.time),
        )
    }

    /// Whether counting the click leads from one state to another.
    pub open spec fn leads(self, before: ClickState, after: ClickState) -> bool {
        &&& before.can_count_after(
            self.button,
            self.position,
            elapsed(before.last_click, self.time),
        )
        &&& after == before.clicked(self.button, self.position, self.time)
    }
}

/// Whether counting clicks one after the other leads through these states.
pub open spec fn is_click_sequence(states: Seq<ClickState>, clicks: Seq<Click>) -> bool {
    &&& states.len() == clicks.len() + 1
    &&& forall|i: int| 0 <= i < clicks.len() ==> (#[trigger] clicks[i]).leads(
        states[i],
        states[i + 1],
    )
}

/// The count of a click is how many clicks there were from the first of its multiple click on:
/// from the last click that did not join the one before it, or from the first click of all.
pub proof fn law_count_is_length_of_run(
    states: Seq<ClickState>,
    clicks: Seq<Click>,
    first: int,
    last: int,
)
    requires
        is_click_sequence(states, clicks),
        0 <= first <= last < clicks.len(),
        !clicks[first].joins(states[first]) || states[first].current_count == 0,
        forall|i: int| first < i <= last ==> (#[trigger] clicks[i]).joins(states[i]),
    ensures
        states[last + 1].current_count == last - first + 1,
    decreases last,
{
    assert(clicks[last].leads(states[last], states[last + 1]));
    if last > first {
        law_count_is_length_of_run(states, clicks, first, last - 1);
        assert(clicks[last].joins(states[last]));
    }
}

/// Once every setting was taken up, in whatever order, clicks are counted as the system does
/// now; no other setting has a part in it.
pub proof fn law_settings_are_taken_up(
    metrics: DoubleClickMetrics,
    current: DoubleClickMetrics,
    other: usize,
)
    requires
        other != SPI_SETDOUBLECLKWIDTH,
        other != SPI_SETDOUBLECLKHEIGHT,
        other != SPI_SETDOUBLECLICKTIME,
    ensures
        forall|first: usize, second: usize, third: usize|
            set![first, second, third] == set![
                SPI_SETDOUBLECLKWIDTH,
                SPI_SETDOUBLECLKHEIGHT,
                SPI_SETDOUBLECLICKTIME,
            ] ==> #[trigger] metrics.with_setting(first, current).with_setting(
                second,
                current,
            ).with_setting(third, current) == current,
        metrics.with_setting(other, current) == metrics,
{
    assert forall|first: usize, second: usize, third: usize|
        set![first, second, third] == set![
            SPI_SETDOUBLECLKWIDTH,
            SPI_SETDOUBLECLKHEIGHT,
            SPI_SETDOUBLECLICKTIME,
        ] implies #[trigger] metrics.with_setting(first, current).with_setting(
        second,
        current,
    ).with_setting(third, current) == current by {
        let settings = set![first, second, third];
        assert(settings.contains(SPI_SETDOUBLECLKWIDTH));
        assert(settings.contains(SPI_SETDOUBLECLKHEIGHT));
        assert(settings.contains(SPI_SETDOUBLECLICKTIME));
    }
}

/// A click with another button, or after too long, or too far away, counts as one.
pub proof fn law_separate_clicks_count_one(
    state: ClickState,
    button: MouseButton,
    position: Point,
    elapsed_nanos: int,
)
    requires
        state.button != button || elapsed_nanos >= state.metrics.interval_ms * 1_000_000
            || distance(state.last_position.x as int, position.x as int)
            > state.metrics.tolerance_width || distance(
            state.last_position.y as int,
            position.y as int,
        ) > state.metrics.tolerance_height,
    ensures
        state.next_count(button, position, elapsed_nanos) == 1,
{
}

/// A click with the same button adds one to the count where it comes less than the interval after
/// the last one and lies within the tolerance of it on both axes, whatever else holds.
pub proof fn law_close_clicks_add_up(
    state: ClickState,
    button: MouseButton,
    position: Point,
    now: i128,
)
    requires
        state.button == button,
        now - state.last_click < state.metrics.interval_ms * 1_000_000,
        0 < state.metrics.interval_ms,
        -state.metrics.tolerance_width <= state.last_position.x - position.x
            <= state.metrics.tolerance_width,
        -state.metrics.tolerance_height <= state.last_position.y - position.y
            <= state.metrics.tolerance_height,
    ensures
        state.next_count(button, position, elapsed(state.last_click, now)) == state.current_count
            + 1,
        state.current_count < usize::MAX ==> state.clicked(button, position, now).current_count
            == state.current_count + 1,
{
}

/// A click starts over where it comes with another button, the interval or more after the last
/// one, or outside of the tolerance on one axis.
pub proof fn law_other_clicks_start_over(
    state: ClickState,
    button: MouseButton,
    position: Point,
    now: i128,
)
    requires
        ({
            ||| state.button != button
            ||| state.metrics.interval_ms == 0
            ||| now - state.last_click >= state.metrics.interval_ms * 1_000_000
            ||| state.last_position.x - position.x > state.metrics.tolerance_width
            ||| position.x - state.last_position.x > state.metrics.tolerance_width
            ||| state.last_position.y - position.y > state.metrics.tolerance_height
            ||| position.y - state.last_position.y > state.metrics.tolerance_height
        }),
    ensures
        state.next_count(button, position, elapsed(state.last_click, now)) == 1,
        state.clicked(button, position, now).current_count == 1,
{
}

/// A click is remembered with its button, place and time; how clicks are counted stays the same.
pub proof fn law_click_is_remembered(
    state: ClickState,
    button: MouseButton,
    position: Point,
    now: i128,
)
    ensures
        state.clicked(button, position, now).button == button,
        state.clicked(button, position, now).last_position == position,
        state.clicked(button, position, now).last_click == now,
        state.clicked(button, position, now).anchor == state.anchor,
        state.clicked(button, position, now).metrics == state.metrics,
{
}

/// Each setting changes its own metric to the system's and no other.
pub proof fn law_setting_changes_its_own_metric(
    metrics: DoubleClickMetrics,
    setting: usize,
    current: DoubleClickMetrics,
)
    ensures
        metrics.with_setting(setting, current).tolerance_width == (if setting == 29 {
            current.tolerance_width
        } else {
            metrics.tolerance_width
        }),
        metrics.with_setting(setting, current).tolerance_height == (if setting == 30 {
            current.tolerance_height
        } else {
            metrics.tolerance_height
        }),
        metrics.with_setting(setting, current).interval_ms == (if setting == 32 {
            current.interval_ms
        } else {
            metrics.interval_ms
        }),
{
}

/// Every click can be counted but one with the same button that is too far away for a machine
/// integer, or whose count would be.
pub proof fn law_clicks_can_be_counted(
    state: ClickState,
    button: MouseButton,
    position: Point,
    now: i128,
)
    ensures
        state.can_count(button, position) <==> (state.button == button ==> {
            &&& -0x7fff_ffff <= state.last_position.x - position.x <= 0x7fff_ffff
            &&& -0x7fff_ffff <= state.last_position.y - position.y <= 0x7fff_ffff
            &&& state.current_count < usize::MAX
        }),
        state.can_count(button, position) ==> state.can_count_after(
            button,
            position,
            elapsed(state.last_click, now),
        ),
{
}

/// The first click of all counts one, whichever button, place and time it has, and it is counted
/// by the metrics that the state was made with.
pub proof fn law_first_click_counts_one(
    state: ClickState,
    metrics: DoubleClickMetrics,
    button: MouseButton,
    position: Point,
    now: i128,
)
    requires
        state.is_fresh(metrics),
    ensures
        state.clicked(button, position, now).current_count == 1,
        state.metrics == metrics,
        state.current_count == 0,
        state.last_click == 0,
        state.button == MouseButton::Left,
        state.last_position.x == 0,
        state.last_position.y == 0,
{
}

} // verus!
