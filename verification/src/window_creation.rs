//! Bringing up a window: one step after the other, each answered by the system.

use crate::geometry::{has_window_rect, Bounds, Rect, WindowBorderOffset};
use crate::window_plan::{
    creation_outcome, open_action, plan_window, retrieve_window_placement, OpenAction,
    PopupNotSupportedError, WindowParams, WindowPlacement, WindowPlan,
};
use vstd::prelude::*;

verus! {

/// What to do next to bring up a window, or what came of it. `E` is an error of the system.
pub enum CreationStep<E> {
    /// Disable the active window, if there is one, and make it the parent.
    DisableParent,
    /// Find the display that the window opens on.
    FindDisplay,
    /// Have the system create the window.
    Create,
    /// Register the window as a target of drags.
    RegisterDropTarget,
    /// Have the system draw no frame around the window and not animate it.
    DisableEffects,
    /// Mark the window as one that the taskbar may cover, and make its frame light or dark.
    Configure,
    /// Measure how thick the frame is.
    MeasureBorder,
    /// Ask where the window is, and where it should be.
    AskPlacement,
    /// Open the window.
    Open(OpenAction),
    /// The window is up.
    Done,
    /// The window could not be brought up.
    Failed(E),
}

/// Where a window is, and where it should be.
#[derive(Clone, Copy, Debug, PartialEq, Eq, Structural)]
pub struct PlacementFacts {
    pub current: WindowPlacement,
    /// The client area that the application asks for.
    pub given: Bounds,
    /// Whether that lies on the display.
    pub given_on_display: bool,
    /// The client area of a window that has none of its own.
    pub default_bounds: Bounds,
}

/// The answer to a [`CreationStep`].
pub enum CreationReply<E> {
    /// Something was done, or could not be.
    Finished(Result<(), E>),
    /// The system created the window, or did not; `inner` says what came of making the state of
    /// the window meanwhile, if it was made at all.
    Created { inner: Option<Result<(), E>>, created: Result<(), E> },
    /// The window rectangle and the client rectangle.
    Border(Result<(Rect, Rect), E>),
    /// Where the window is, and where it should be.
    Placement(Result<PlacementFacts, E>),
}

/// A window that is being brought up.
pub struct WindowCreation<E> {
    pub params: WindowParams,
    pub plan: WindowPlan,
    pub border: WindowBorderOffset,
    pub step: CreationStep<E>,
}

/// The border that two rectangles of a window make.
pub open spec fn border_between(window_rect: Rect, client_rect: Rect) -> WindowBorderOffset {
    WindowBorderOffset {
        width_offset: (window_rect.spec_width() - client_rect.spec_width()) as i32,
        height_offset: (window_rect.spec_height() - client_rect.spec_height()) as i32,
    }
}

impl PlacementFacts {
    /// The client area that a window opens with.
    pub open spec fn bounds(self, app_placed: bool) -> Bounds {
        crate::window_plan::opening_bounds(
            self.given,
            self.given_on_display,
            self.default_bounds,
            app_placed,
        )
    }
}

impl<E> WindowCreation<E> {
    /// The same window at another step.
    pub open spec fn at(self, step: CreationStep<E>) -> WindowCreation<E> {
        WindowCreation { step, ..self }
    }

    /// Goes on to a step, unless something failed.
    pub open spec fn on_success(
        self,
        result: Result<(), E>,
        step: CreationStep<E>,
    ) -> WindowCreation<E> {
        match result {
            Ok(_) => self.at(step),
            Err(error) => self.at(CreationStep::Failed(error)),
        }
    }

    /// The placement that the window opens with.
    pub open spec fn placement(self, facts: PlacementFacts) -> WindowPlacement {
        crate::window_plan::placement_around(
            facts.current,
            facts.bounds(self.params.app_placed()),
            self.border,
        )
    }

    /// Whether the numbers of a reply stay machine integers, and a window that was created has
    /// its state.
    pub open spec fn accepts(self, reply: CreationReply<E>) -> bool {
        match (self.step, reply) {
            (CreationStep::Create, CreationReply::Created { inner, created }) => inner is Some
                || created is Err,
            (CreationStep::MeasureBorder, CreationReply::Border(Ok(rects))) =>
                crate::geometry::border_fits(rects.0, rects.1),
            (CreationStep::AskPlacement, CreationReply::Placement(Ok(facts))) => {
                &&& crate::geometry::window_rect_fits(
                    facts.bounds(self.params.app_placed()),
                    self.border,
                )
                &&& self.params.show && self.params.app_placed() ==> self.placement(
                    facts,
                ).normal_position.extent_fits()
            },
            _ => true,
        }
    }

    /// What follows on a reply. A reply to another step changes nothing.
    pub open spec fn after(self, reply: CreationReply<E>) -> WindowCreation<E> {
        match (self.step, reply) {
            // Without an active window the dialog has no parent.
            (CreationStep::DisableParent, CreationReply::Finished(_)) => self.at(
                CreationStep::FindDisplay,
            ),
            (CreationStep::FindDisplay, CreationReply::Finished(result)) => self.on_success(
                result,
                CreationStep::Create,
            ),
            (CreationStep::Create, CreationReply::Created { inner, created }) =>
                match crate::window_plan::creation_result(inner, created) {
                    Ok(_) => self.at(
                        if self.params.takes_drags() {
                            CreationStep::RegisterDropTarget
                        } else {
                            CreationStep::DisableEffects
                        },
                    ),
                    Err(error) => self.at(CreationStep::Failed(error)),
                },
            (CreationStep::RegisterDropTarget, CreationReply::Finished(result)) => self.on_success(
                result,
                CreationStep::Configure,
            ),
            // A frame or an animation that stays does no harm.
            (CreationStep::DisableEffects, CreationReply::Finished(_)) => self.at(
                CreationStep::Configure,
            ),
            (CreationStep::Configure, CreationReply::Finished(_)) => self.at(
                CreationStep::MeasureBorder,
            ),
            (CreationStep::MeasureBorder, CreationReply::Border(Ok(rects))) => WindowCreation {
                border: border_between(rects.0, rects.1),
                step: CreationStep::AskPlacement,
                ..self
            },
            (CreationStep::MeasureBorder, CreationReply::Border(Err(error))) => self.at(
                CreationStep::Failed(error),
            ),
            (CreationStep::AskPlacement, CreationReply::Placement(Ok(facts))) => self.at(
                CreationStep::Open(
                    crate::window_plan::opening_of(self.params, self.placement(facts)),
                ),
            ),
            (CreationStep::AskPlacement, CreationReply::Placement(Err(error))) => self.at(
                CreationStep::Failed(error),
            ),
            (CreationStep::Open(_), CreationReply::Finished(result)) => self.on_success(
                result,
                CreationStep::Done,
            ),
            _ => self,
        }
    }

    /// Whether this is the beginning of bringing up a window.
    pub open spec fn is_start(self, disable_direct_composition: bool) -> bool {
        &&& self.plan.is_for(self.params, disable_direct_composition)
        &&& self.border == (WindowBorderOffset { width_offset: 0, height_offset: 0 })
        &&& self.step == (if self.plan.modal {
            CreationStep::<E>::DisableParent
        } else {
            CreationStep::FindDisplay
        })
    }

    /// Begins to bring up a window. An anchored popup is turned down.
    pub fn start(params: WindowParams, disable_direct_composition: bool) -> (creation: Result<
        WindowCreation<E>,
        PopupNotSupportedError,
    >)
        ensures
            creation is Err <==> params.kind == crate::window_plan::WindowKind::AnchoredPopup,
            creation matches Ok(creation) ==> creation.params == params && creation.is_start(
                disable_direct_composition,
            ),
    {
        let plan: WindowPlan = match plan_window(&params, disable_direct_composition) {
            Ok(plan) => plan,
            Err(error) => {
                return Err(error);
            },
        };
        let step: CreationStep<E> = if plan.modal {
            CreationStep::DisableParent
        } else {
            CreationStep::FindDisplay
        };
        Ok(WindowCreation { params, plan, border: WindowBorderOffset::default(), step })
    }

    fn go_on(self, step: CreationStep<E>) -> (next: WindowCreation<E>)
        ensures
            next == self.at(step),
    {
        WindowCreation { params: self.params, plan: self.plan, border: self.border, step }
    }

    fn go_on_if(self, result: Result<(), E>, step: CreationStep<E>) -> (next: WindowCreation<E>)
        ensures
            next == self.on_success(result, step),
    {
        match result {
            Ok(()) => self.go_on(step),
            Err(error) => self.go_on(CreationStep::Failed(error)),
        }
    }

    fn open_with(self, facts: PlacementFacts) -> (next: WindowCreation<E>)
        requires
            self.step is AskPlacement,
            self.accepts(CreationReply::Placement(Ok(facts))),
        ensures
            next == self.after(CreationReply::Placement(Ok(facts))),
    {
        let app_placed: bool = self.params.is_app_placed();
        let placement: WindowPlacement = retrieve_window_placement(
            facts.current,
            facts.given,
            facts.given_on_display,
            facts.default_bounds,
            &self.border,
            app_placed,
        );
        let action: OpenAction = open_action(&self.params, placement);
        self.go_on(CreationStep::Open(action))
    }

    fn can_open_with(&self, facts: &PlacementFacts) -> (ok: bool)
        requires
            self.step is AskPlacement,
        ensures
            ok == self.accepts(CreationReply::Placement(Ok(*facts))),
    {
        let app_placed: bool = self.params.is_app_placed();
        let bounds: Bounds = if app_placed || facts.given_on_display {
            facts.given
        } else {
            facts.default_bounds
        };
        if !has_window_rect(bounds, &self.border) {
            return false;
        }
        if !(self.params.show && app_placed) {
            return true;
        }
        let placement: WindowPlacement = retrieve_window_placement(
            facts.current,
            facts.given,
            facts.given_on_display,
            facts.default_bounds,
            &self.border,
            app_placed,
        );
        placement.normal_position.has_extent()
    }

    /// Whether [`WindowCreation::answer`] can be called.
    pub fn can_answer(&self, reply: &CreationReply<E>) -> (ok: bool)
        ensures
            ok == self.accepts(*reply),
    {
        match (&self.step, reply) {
            (CreationStep::Create, CreationReply::Created { inner, created }) => inner.is_some()
                || created.is_err(),
            (CreationStep::MeasureBorder, CreationReply::Border(Ok(rects))) =>
                WindowBorderOffset::is_measurable(rects.0, rects.1),
            (CreationStep::AskPlacement, CreationReply::Placement(Ok(facts))) =>
                self.can_open_with(facts),
            _ => true,
        }
    }

    /// Takes the reply to this step to the next one.
    pub fn answer(self, reply: CreationReply<E>) -> (next: WindowCreation<E>)
        requires
            self.accepts(reply),
        ensures
            next == self.after(reply),
    {
        match (&self.step, reply) {
            (CreationStep::DisableParent, CreationReply::Finished(_)) => self.go_on(
                CreationStep::FindDisplay,
            ),
            (CreationStep::FindDisplay, CreationReply::Finished(result)) => self.go_on_if(
                result,
                CreationStep::Create,
            ),
            (CreationStep::Create, CreationReply::Created { inner, created }) => {
                match creation_outcome(inner, created) {
                    Ok(_) => if self.params.is_drop_target() {
                        self.go_on(CreationStep::RegisterDropTarget)
                    } else {
                        self.go_on(CreationStep::DisableEffects)
                    },
                    Err(error) => self.go_on(CreationStep::Failed(error)),
                }
            },
            (CreationStep::RegisterDropTarget, CreationReply::Finished(result)) => self.go_on_if(
                result,
                CreationStep::Configure,
            ),
            (CreationStep::DisableEffects, CreationReply::Finished(_)) => self.go_on(
                CreationStep::Configure,
            ),
            (CreationStep::Configure, CreationReply::Finished(_)) => self.go_on(
                CreationStep::MeasureBorder,
            ),
            (CreationStep::MeasureBorder, CreationReply::Border(Ok((window_rect, client_rect)))) => {
                let mut border: WindowBorderOffset = WindowBorderOffset::default();
                border.update(window_rect, client_rect);
                WindowCreation {
                    params: self.params,
                    plan: self.plan,
                    border,
                    step: CreationStep::AskPlacement,
                }
            },
            (CreationStep::MeasureBorder, CreationReply::Border(Err(error))) => self.go_on(
                CreationStep::Failed(error),
            ),
            (CreationStep::AskPlacement, CreationReply::Placement(Ok(facts))) => self.open_with(
                facts,
            ),
            (CreationStep::AskPlacement, CreationReply::Placement(Err(error))) => self.go_on(
                CreationStep::Failed(error),
            ),
            (CreationStep::Open(_), CreationReply::Finished(result)) => self.go_on_if(
                result,
                CreationStep::Done,
            ),
            _ => self,
        }
    }
}

/// Whether a reply is one to a step.
pub open spec fn is_reply_to<E>(step: CreationStep<E>, reply: CreationReply<E>) -> bool {
    match step {
        CreationStep::Create => reply is Created,
        CreationStep::MeasureBorder => reply is Border,
        CreationStep::AskPlacement => reply is Placement,
        CreationStep::Done | CreationStep::Failed(_) => false,
        _ => reply is Finished,
    }
}

/// The number of a step in the order of all.
pub open spec fn rank<E>(step: CreationStep<E>) -> int {
    match step {
        CreationStep::DisableParent => 0,
        CreationStep::FindDisplay => 1,
        CreationStep::Create => 2,
        CreationStep::RegisterDropTarget => 3,
        CreationStep::DisableEffects => 4,
        CreationStep::Configure => 5,
        CreationStep::MeasureBorder => 6,
        CreationStep::AskPlacement => 7,
        CreationStep::Open(_) => 8,
        CreationStep::Done => 9,
        CreationStep::Failed(_) => 10,
    }
}

/// The number of the step that comes after so many replies where nothing fails: a dialog begins
/// with its parent, all others with the display; after the creation either a target of drags is
/// registered or the effects are disabled.
pub open spec fn rank_after(params: WindowParams, replies: int) -> int {
    let passed = if params.kind == crate::window_plan::WindowKind::Dialog {
        replies
    } else {
        replies + 1
    };
    if passed < 3 {
        passed
    } else if passed == 3 && params.takes_drags() {
        3
    } else {
        passed + 1
    }
}

/// The error that makes bringing up a window fail with a reply to a step, if any.
pub open spec fn failure<E>(step: CreationStep<E>, reply: CreationReply<E>) -> Option<E> {
    match (step, reply) {
        (CreationStep::FindDisplay, CreationReply::Finished(Err(error))) => Some(error),
        (CreationStep::Create, CreationReply::Created { inner: Some(Err(error)), .. }) => Some(
            error,
        ),
        (CreationStep::Create, CreationReply::Created { created: Err(error), .. }) => Some(error),
        (CreationStep::RegisterDropTarget, CreationReply::Finished(Err(error))) => Some(error),
        (CreationStep::MeasureBorder, CreationReply::Border(Err(error))) => Some(error),
        (CreationStep::AskPlacement, CreationReply::Placement(Err(error))) => Some(error),
        (CreationStep::Open(_), CreationReply::Finished(Err(error))) => Some(error),
        _ => None,
    }
}

/// Whether bringing up a window leads through these states, each reply being one to its step.
pub open spec fn is_creation<E>(
    states: Seq<WindowCreation<E>>,
    replies: Seq<CreationReply<E>>,
    disable_direct_composition: bool,
) -> bool {
    &&& states.len() == replies.len() + 1
    &&& states[0].is_start(disable_direct_composition)
    &&& forall|i: int|
        0 <= i < replies.len() ==> is_reply_to(states[i].step, #[trigger] replies[i])
            && states[i].accepts(replies[i]) && states[i + 1] == states[i].after(replies[i])
}

/// The first error that a window cannot do without ends bringing it up and is the one that is
/// told; nothing else does.
pub proof fn law_first_failure_is_told<E>(state: WindowCreation<E>, reply: CreationReply<E>)
    requires
        is_reply_to(state.step, reply),
        state.accepts(reply),
    ensures
        match failure(state.step, reply) {
            Some(error) => state.after(reply).step == CreationStep::Failed(error),
            None => !(state.after(reply).step is Failed),
        },
{
}

/// A window is brought up in one order, and with the parameters and the plan that it was begun
/// with: after so many replies it is at the step that the order has there, or has failed.
pub proof fn law_window_comes_up_in_order<E>(
    states: Seq<WindowCreation<E>>,
    replies: Seq<CreationReply<E>>,
    disable_direct_composition: bool,
    i: int,
)
    requires
        is_creation(states, replies, disable_direct_composition),
        0 <= i < states.len(),
    ensures
        states[i].params == states[0].params,
        states[i].plan == states[0].plan,
        states[i].step is Failed || rank(states[i].step) == rank_after(states[0].params, i),
        i < replies.len() ==> !(states[i].step is Failed || states[i].step is Done),
    decreases i,
{
    if i > 0 {
        law_window_comes_up_in_order(states, replies, disable_direct_composition, i - 1);
        assert(is_reply_to(states[i - 1].step, replies[i - 1]));
        if i < replies.len() {
            assert(is_reply_to(states[i].step, replies[i]));
        }
    }
}

/// A window that is brought up is up, or has failed, after as many replies as there are steps,
/// and not before.
pub proof fn law_window_comes_up<E>(
    states: Seq<WindowCreation<E>>,
    replies: Seq<CreationReply<E>>,
    disable_direct_composition: bool,
)
    requires
        is_creation(states, replies, disable_direct_composition),
    ensures
        ({
            let steps: int = if states[0].plan.modal {
                8
            } else {
                7
            };
            &&& replies.len() <= steps
            &&& states.last().step is Done <==> replies.len() == steps && !(
            states.last().step is Failed)
        }),
{
    law_window_comes_up_in_order(
        states,
        replies,
        disable_direct_composition,
        replies.len() as int,
    );
    if replies.len() > 0 {
        law_window_comes_up_in_order(
            states,
            replies,
            disable_direct_composition,
            replies.len() - 1,
        );
    }
}

/// Whatever the system says, an overlay is never registered as a target of drags: where it would
/// be, its frame, with its shadow, and its animation are disabled.
pub proof fn law_overlay_is_never_registered<E>(state: WindowCreation<E>, reply: CreationReply<E>)
    requires
        state.params.kind == crate::window_plan::WindowKind::Overlay,
        !(state.step is RegisterDropTarget),
        is_reply_to(state.step, reply),
        state.accepts(reply),
    ensures
        !(state.after(reply).step is RegisterDropTarget),
        state.step is Create && failure(state.step, reply) is None ==> state.after(
            reply,
        ).step is DisableEffects,
{
}

/// A reply to another step changes nothing, and a window that is up, or has failed, stays so.
pub proof fn law_other_replies_change_nothing<E>(state: WindowCreation<E>, reply: CreationReply<E>)
    requires
        !is_reply_to(state.step, reply),
    ensures
        state.after(reply) == state,
{
}

/// Nothing but the step changes with a reply, and the border once it was measured.
pub proof fn law_parameters_stay<E>(state: WindowCreation<E>, reply: CreationReply<E>)
    ensures
        state.after(reply).params == state.params,
        state.after(reply).plan == state.plan,
        !(state.step is MeasureBorder) ==> state.after(reply).border == state.border,
{
}

/// The border is how much wider and higher the window rectangle is than the client rectangle.
pub proof fn law_border_is_measured<E>(
    state: WindowCreation<E>,
    window_rect: Rect,
    client_rect: Rect,
)
    requires
        state.step is MeasureBorder,
        state.accepts(CreationReply::Border(Ok((window_rect, client_rect)))),
    ensures
        ({
            let border = state.after(CreationReply::Border(Ok((window_rect, client_rect)))).border;
            &&& client_rect.right - client_rect.left + border.width_offset == window_rect.right
                - window_rect.left
            &&& client_rect.bottom - client_rect.top + border.height_offset == window_rect.bottom
                - window_rect.top
        }),
{
}

/// A window opens with the client area that was given where the application places it or where
/// that lies on the display, and with the default one otherwise, framed by the border that was
/// measured; how it opens follows from its parameters.
pub proof fn law_window_opens_with_its_bounds<E>(state: WindowCreation<E>, facts: PlacementFacts)
    requires
        state.step is AskPlacement,
        state.accepts(CreationReply::Placement(Ok(facts))),
    ensures
        ({
            let bounds = if !state.params.focus || state.params.kind is Overlay
                || facts.given_on_display {
                facts.given
            } else {
                facts.default_bounds
            };
            state.after(CreationReply::Placement(Ok(facts))).step == CreationStep::<E>::Open(
                crate::window_plan::opening_of(
                    state.params,
                    crate::window_plan::placement_around(facts.current, bounds, state.border),
                ),
            )
        }),
{
}

/// A dialog begins with its parent and every other window with the display, none with a border.
pub proof fn law_window_begins<E>(state: WindowCreation<E>, disable_direct_composition: bool)
    requires
        state.is_start(disable_direct_composition),
    ensures
        state.params.kind is Dialog <==> state.step is DisableParent,
        !(state.params.kind is Dialog) <==> state.step is FindDisplay,
        state.border.width_offset == 0,
        state.border.height_offset == 0,
        state.plan.is_for(state.params, disable_direct_composition),
{
}

/// Every reply is accepted but a created window without its state and numbers that are no machine
/// integers.
pub proof fn law_replies_are_accepted<E>(
    state: WindowCreation<E>,
    reply: CreationReply<E>,
    facts: PlacementFacts,
)
    ensures
        !(state.step is Create || state.step is MeasureBorder || state.step is AskPlacement)
            ==> state.accepts(reply),
        reply is Finished ==> state.accepts(reply),
        reply matches CreationReply::Border(Err(_)) ==> state.accepts(reply),
        reply matches CreationReply::Placement(Err(_)) ==> state.accepts(reply),
        state.step is Create ==> (state.accepts(reply) <==> !(reply matches CreationReply::Created {
            inner: None,
            created: Ok(_),
        })),
        state.step is MeasureBorder ==> (reply matches CreationReply::Border(Ok(rects)) ==> (
        state.accepts(reply) <==> crate::geometry::border_fits(rects.0, rects.1))),
        state.step is AskPlacement && reply == CreationReply::<E>::Placement(Ok(facts)) ==> {
            let app_placed = !state.params.focus || state.params.kind is Overlay;
            let bounds = if app_placed || facts.given_on_display {
                facts.given
            } else {
                facts.default_bounds
            };
            state.accepts(reply) <==> {
                &&& crate::geometry::window_rect_fits(bounds, state.border)
                &&& state.params.show && app_placed ==> crate::geometry::resize_fits(
                    bounds,
                    state.border,
                )
            }
        },
{
}

} // verus!
