//! What a drag session does: at its source and at its target.

use crate::geometry::Point;
use smallvec::SmallVec;
use vstd::prelude::*;

verus! {

/// The paths that a drag brings into a window, in a [`SmallVec`]: most drags bring one.
#[verifier::external_body]
pub struct ExternalPaths {
    paths: SmallVec<[String; 2]>,
}

/// The texts of the paths, in order.
pub uninterp spec fn path_texts(paths: ExternalPaths) -> Seq<Seq<char>>;

impl View for ExternalPaths {
    type V = Seq<Seq<char>>;

    open spec fn view(&self) -> Seq<Seq<char>> {
        path_texts(*self)
    }
}

/// Calls [`SmallVec::new`]: the list is empty.
#[verifier::external_body]
fn empty_paths() -> (paths: ExternalPaths)
    ensures
        path_texts(paths) == Seq::<Seq<char>>::empty(),
{
    ExternalPaths { paths: SmallVec::new() }
}

/// Calls [`SmallVec::push`]: the path comes after all others.
#[verifier::external_body]
fn push_path(paths: &mut ExternalPaths, path: String)
    ensures
        path_texts(*final(paths)) == path_texts(*old(paths)).push(path@),
{
    paths.paths.push(path)
}

/// Calls [`SmallVec::as_slice`]: the paths, in order.
#[verifier::external_body]
fn paths_slice(paths: &ExternalPaths) -> (slice: &[String])
    ensures
        slice@.map_values(|path: String| path@) == path_texts(*paths),
{
    paths.paths.as_slice()
}

impl ExternalPaths {
    /// How many paths there are.
    pub fn len(&self) -> (count: usize)
        ensures
            count == self@.len(),
    {
        let slice = paths_slice(self);
        assert(slice@.map_values(|path: String| path@).len() == slice@.len());
        slice.len()
    }

    /// The path at a place in the order.
    pub fn get(&self, index: usize) -> (path: Option<&String>)
        ensures
            path is Some <==> index < self@.len(),
            path matches Some(found) ==> found@ == self@[index as int],
    {
        let slice = paths_slice(self);
        assert(slice@.map_values(|path: String| path@).len() == slice@.len());
        if index < slice.len() {
            assert(slice@.map_values(|path: String| path@)[index as int]
                == slice@[index as int]@);
            Some(&slice[index])
        } else {
            None
        }
    }
}

/// What a window is told of a drag. Positions are in device pixels of the client area.
pub enum FileDropEvent {
    Entered { position: Point, paths: ExternalPaths },
    Pending { position: Point },
    Submit { position: Point },
    Exited,
    SessionMoved { position: Point },
    Ended,
}

/// What a drop would do, as the target says.
#[derive(Clone, Copy, Debug, PartialEq, Eq, Structural)]
pub enum DropEffect {
    Nothing,
    Copy,
}

/// What a drag that enters a window brings.
#[derive(Clone, Copy, Debug, PartialEq, Eq, Structural)]
pub enum DragOffer {
    /// Files.
    Files,
    /// A drag that this application started for itself.
    AppPrivate,
    /// Nothing that the window takes.
    Foreign,
}

/// What becomes of a drag that enters a window.
pub struct DragEnterOutcome {
    pub effect: DropEffect,
    /// The paths of the event that the window gets, if it gets one.
    pub entered: Option<ExternalPaths>,
    /// Whether the system's drag image is shown over the window.
    pub show_drag_image: bool,
}

/// The texts of names, where there are any.
pub open spec fn texts_of(names: Option<Vec<String>>) -> Option<Seq<Seq<char>>> {
    match names {
        Some(names) => Some(names@.map_values(|name: String| name@)),
        None => None,
    }
}

/// The paths that a window hears of when a drag enters it, if it hears of the drag.
pub open spec fn entering_paths(
    offer: DragOffer,
    files: Option<Seq<Seq<char>>>,
) -> Option<Seq<Seq<char>>> {
    match offer {
        DragOffer::Files => files,
        DragOffer::AppPrivate => Some(Seq::empty()),
        DragOffer::Foreign => None,
    }
}

impl DragEnterOutcome {
    /// Whether this is what becomes of a drag with an offer and the names of its files.
    pub open spec fn is_for(self, offer: DragOffer, files: Option<Seq<Seq<char>>>) -> bool {
        &&& self.effect == (if offer is Foreign {
            DropEffect::Nothing
        } else {
            DropEffect::Copy
        })
        &&& match entering_paths(offer, files) {
            Some(paths) => self.entered matches Some(entered) && entered@ == paths,
            None => self.entered is None,
        }
        &&& self.show_drag_image == !(offer is Files && files is None)
    }
}

/// What a drag brings: files come first.
pub open spec fn offer_of(has_files: bool, is_private: bool) -> DragOffer {
    if has_files {
        DragOffer::Files
    } else if is_private {
        DragOffer::AppPrivate
    } else {
        DragOffer::Foreign
    }
}

/// What a drag brings, by whether its data object has files and whether it has the format of
/// this application's private drags: files come first.
pub fn drag_offer(has_files: bool, is_private: bool) -> (offer: DragOffer)
    ensures
        offer == offer_of(has_files, is_private),
{
    if has_files {
        DragOffer::Files
    } else if is_private {
        DragOffer::AppPrivate
    } else {
        DragOffer::Foreign
    }
}

/// Takes up a drag that enters a window. `files` are the names of the dragged files, where they
/// could be read; they matter for an offer of files only.
///
/// A private drag brings no paths, but the empty list still reaches the window, which restores
/// its own drag on it. Where the files of a drag cannot be read, nothing follows.
pub fn drag_enter(offer: DragOffer, files: Option<Vec<String>>) -> (outcome: DragEnterOutcome)
    ensures
        outcome.is_for(offer, texts_of(files)),
        match (offer, files) {
            (DragOffer::Foreign, _) => {
                &&& outcome.effect == DropEffect::Nothing
                &&& outcome.entered is None
                &&& outcome.show_drag_image
            },
            (DragOffer::AppPrivate, _) => {
                &&& outcome.effect == DropEffect::Copy
                &&& outcome.entered matches Some(paths) && paths@ == Seq::<Seq<char>>::empty()
                &&& outcome.show_drag_image
            },
            (DragOffer::Files, Some(names)) => {
                &&& outcome.effect == DropEffect::Copy
                &&& outcome.entered matches Some(paths) && paths@ == names@.map_values(
                    |name: String| name@,
                )
                &&& outcome.show_drag_image
            },
            (DragOffer::Files, None) => {
                &&& outcome.effect == DropEffect::Copy
                &&& outcome.entered is None
                &&& !outcome.show_drag_image
            },
        },
{
    match offer {
        DragOffer::Foreign => DragEnterOutcome {
            effect: DropEffect::Nothing,
            entered: None,
            show_drag_image: true,
        },
        DragOffer::AppPrivate => DragEnterOutcome {
            effect: DropEffect::Copy,
            entered: Some(empty_paths()),
            show_drag_image: true,
        },
        DragOffer::Files => match files {
            Some(names) => {
                let mut paths: ExternalPaths = empty_paths();
                let mut i: usize = 0;
                while i < names.len()
                    invariant
                        i <= names@.len(),
                        paths@ == names@.take(i as int).map_values(|name: String| name@),
                    decreases names.len() - i,
                {
                    push_path(&mut paths, names[i].clone());
                    i = i + 1;
                    assert(paths@ =~= names@.take(i as int).map_values(|name: String| name@));
                }
                assert(names@.take(i as int) =~= names@);
                DragEnterOutcome {
                    effect: DropEffect::Copy,
                    entered: Some(paths),
                    show_drag_image: true,
                }
            },
            None => DragEnterOutcome {
                effect: DropEffect::Copy,
                entered: None,
                show_drag_image: false,
            },
        },
    }
}

/// A call that the system makes while a drag is over a window, and at its end.
#[derive(Clone, Copy, Debug, PartialEq, Eq, Structural)]
pub enum DropTargetCall {
    Over,
    Leave,
    Drop,
}

/// What answers a call, with the pointer at `position`: the effect, where the call asks for one,
/// and the event for the window.
pub open spec fn target_answer(call: DropTargetCall, position: Point) -> (
    Option<DropEffect>,
    FileDropEvent,
) {
    match call {
        DropTargetCall::Over => (Some(DropEffect::Copy), FileDropEvent::Pending { position }),
        DropTargetCall::Leave => (None, FileDropEvent::Exited),
        DropTargetCall::Drop => (Some(DropEffect::Copy), FileDropEvent::Submit { position }),
    }
}

/// What answers a call, with the pointer at `position`: the effect, where the call asks for one,
/// and the event for the window.
pub fn drop_target_event(call: DropTargetCall, position: Point) -> (answer: (
    Option<DropEffect>,
    FileDropEvent,
))
    ensures
        answer == target_answer(call, position),
        answer == (match call {
            DropTargetCall::Over => (
                Some(DropEffect::Copy),
                FileDropEvent::Pending { position },
            ),
            DropTargetCall::Leave => (None, FileDropEvent::Exited),
            DropTargetCall::Drop => (Some(DropEffect::Copy), FileDropEvent::Submit { position }),
        }),
{
    match call {
        DropTargetCall::Over => (Some(DropEffect::Copy), FileDropEvent::Pending { position }),
        DropTargetCall::Leave => (None, FileDropEvent::Exited),
        DropTargetCall::Drop => (Some(DropEffect::Copy), FileDropEvent::Submit { position }),
    }
}

/// How a drag goes on, as its source says.
#[derive(Clone, Copy, Debug, PartialEq, Eq, Structural)]
pub enum ContinueDrag {
    /// The drag is called off.
    Cancel,
    /// The drag is dropped where it is.
    Drop,
    /// The drag goes on: the window hears of the pointer, and its pending tasks run, as the
    /// loop that owns the thread would not run them before the drop.
    Continue,
}

/// How a drag goes on, by whether escape is pressed and by the key state, whose lowest bit is
/// the left button.
pub open spec fn verdict_on(escape_pressed: bool, key_state: u32) -> ContinueDrag {
    if escape_pressed {
        ContinueDrag::Cancel
    } else if key_state % 2 == 0 {
        ContinueDrag::Drop
    } else {
        ContinueDrag::Continue
    }
}

/// How a drag goes on, by whether escape is pressed and by the key state, whose lowest bit is
/// the left button.
pub fn query_continue_drag(escape_pressed: bool, key_state: u32) -> (verdict: ContinueDrag)
    ensures
        verdict == verdict_on(escape_pressed, key_state),
        verdict == (if escape_pressed {
            ContinueDrag::Cancel
        } else if key_state % 2 == 0 {
            ContinueDrag::Drop
        } else {
            ContinueDrag::Continue
        }),
{
    assert((key_state & 1 == 1) == (key_state % 2 != 0)) by (bit_vector);
    if escape_pressed {
        ContinueDrag::Cancel
    } else if !(key_state & 1 == 1) {
        ContinueDrag::Drop
    } else {
        ContinueDrag::Continue
    }
}

/// The part of a drag session that its source remembers.
#[derive(Clone, Copy, Debug, PartialEq, Eq, Structural)]
pub struct DragSession {
    /// The pointer position that was told last, in device pixels of the screen.
    pub last_cursor: Option<Point>,
}

/// What is told of a pointer position, given the one that was told last: nothing where the
/// position is unknown or the same.
pub open spec fn told_position(last: Option<Point>, cursor: Option<Point>) -> Option<Point> {
    if cursor is None || cursor == last {
        None
    } else {
        cursor
    }
}

impl DragSession {
    /// The session after a pointer position was taken up.
    pub open spec fn after_move(self, cursor: Option<Point>) -> DragSession {
        DragSession {
            last_cursor: if cursor is Some {
                cursor
            } else {
                self.last_cursor
            },
        }
    }

    /// A session of which nothing was told.
    pub fn new() -> (session: DragSession)
        ensures
            session.last_cursor is None,
    {
        DragSession { last_cursor: None }
    }

    /// Forgets the last session.
    pub fn begin(&mut self)
        ensures
            final(self).last_cursor is None,
    {
        self.last_cursor = None;
    }

    /// Takes up the pointer position, where it could be read, and says which one to tell.
    pub fn moved(&mut self, cursor: Option<Point>) -> (told: Option<Point>)
        ensures
            told == told_position(old(self).last_cursor, cursor),
            *final(self) == old(self).after_move(cursor),
            final(self).last_cursor == (if told is Some {
                told
            } else {
                old(self).last_cursor
            }),
    {
        match cursor {
            Some(point) => {
                if let Some(last) = self.last_cursor {
                    if last == point {
                        return None;
                    }
                }
                self.last_cursor = Some(point);
                Some(point)
            },
            None => None,
        }
    }
}

/// All that is told over a sequence of pointer positions.
pub open spec fn told_positions(last: Option<Point>, cursors: Seq<Option<Point>>) -> Seq<Point>
    decreases cursors.len(),
{
    if cursors.len() == 0 {
        seq![]
    } else {
        match told_position(last, cursors.first()) {
            Some(point) => seq![point] + told_positions(Some(point), cursors.drop_first()),
            None => told_positions(last, cursors.drop_first()),
        }
    }
}

/// A window never hears of the same position twice in a row, nor, at first, of the one it heard
/// of last.
pub proof fn law_positions_are_told_once(last: Option<Point>, cursors: Seq<Option<Point>>)
    ensures
        ({
            let told = told_positions(last, cursors);
            &&& told.len() > 0 ==> Some(told[0]) != last
            &&& forall|i: int| 0 < i < told.len() ==> #[trigger] told[i] != told[i - 1]
        }),
    decreases cursors.len(),
{
    if cursors.len() > 0 {
        let next = told_position(last, cursors.first());
        let rest = cursors.drop_first();
        match next {
            Some(point) => {
                law_positions_are_told_once(Some(point), rest);
                let later = told_positions(Some(point), rest);
                let told = seq![point] + later;
                assert forall|i: int| 0 < i < told.len() implies #[trigger] told[i] != told[i
                    - 1] by {
                    assert(told[i] == later[i - 1]);
                    if i > 1 {
                        assert(told[i - 1] == later[i - 2]);
                        assert(later[i - 1] != later[i - 1 - 1]);
                    }
                }
            },
            None => {
                law_positions_are_told_once(last, rest);
            },
        }
    }
}

/// The last position that could be read is the last one that the window heard of.
pub proof fn law_last_position_is_told(last: Option<Point>, cursors: Seq<Option<Point>>)
    requires
        cursors.len() > 0,
        cursors.last() is Some,
    ensures
        ({
            let told = told_positions(last, cursors);
            if told.len() > 0 {
                told.last() == cursors.last()->0
            } else {
                last == cursors.last()
            }
        }),
    decreases cursors.len(),
{
    let next = told_position(last, cursors.first());
    let rest = cursors.drop_first();
    let last = if next is Some {
        next
    } else {
        last
    };
    if rest.len() > 0 {
        law_last_position_is_told(last, rest);
    } else {
        assert(told_positions(last, rest) =~= seq![]);
    }
}

/// What an application that has registered this format for private drags takes a drag for, by
/// the formats that the data object of the drag serves.
pub open spec fn seen_as(formats: Seq<(u16, Seq<u8>)>, private_format: Option<u16>) -> DragOffer {
    offer_of(
        crate::drag_data::payload_for(
            formats,
            Some(crate::drag_data::content_of(crate::drag_data::CF_HDROP)),
        ) is Some,
        private_format matches Some(format) && crate::drag_data::payload_for(
            formats,
            Some(crate::drag_data::content_of(format)),
        ) is Some,
    )
}

/// A private drag is taken by the windows of the application that started it, and by those of no
/// application with another format.
pub proof fn law_private_drag_stays_in_the_application(format: u16, other: Option<u16>)
    requires
        format != crate::drag_data::CF_HDROP,
        other != Some(format),
    ensures
        seen_as(seq![(format, crate::drag_data::private_drag_bytes())], Some(format))
            == DragOffer::AppPrivate,
        seen_as(seq![(format, crate::drag_data::private_drag_bytes())], other)
            == DragOffer::Foreign,
{
    reveal_with_fuel(crate::drag_data::served, 2);
}

/// A drag of files is taken for one by every application.
pub proof fn law_file_drag_is_taken_everywhere(
    formats: Seq<(u16, Seq<u8>)>,
    paths: Seq<crate::drag_data::DragPath>,
    private_format: Option<u16>,
)
    requires
        crate::drag_data::offers_files(formats, paths),
    ensures
        seen_as(formats, private_format) == DragOffer::Files,
{
}

/// A drag with files is one of files, whatever else it has. One without is private exactly where
/// it has the private format.
pub proof fn law_files_come_first(has_files: bool, is_private: bool)
    ensures
        offer_of(has_files, is_private) == DragOffer::Files <==> has_files,
        offer_of(has_files, is_private) == DragOffer::AppPrivate <==> !has_files && is_private,
        offer_of(has_files, is_private) == DragOffer::Foreign <==> !has_files && !is_private,
{
}

/// A window hears of a drag of files with all their names in order, of a private drag with no
/// name, and of no other; nor of files that could not be read. A drop would copy unless the drag
/// is foreign, and the drag image is shown unless files could not be read.
pub proof fn law_window_hears_of_what_it_takes(
    outcome: DragEnterOutcome,
    offer: DragOffer,
    files: Option<Seq<Seq<char>>>,
)
    requires
        outcome.is_for(offer, files),
    ensures
        outcome.effect == DropEffect::Nothing <==> offer == DragOffer::Foreign,
        outcome.effect == DropEffect::Copy <==> offer != DragOffer::Foreign,
        outcome.entered is Some <==> offer == DragOffer::AppPrivate || (offer == DragOffer::Files
            && files is Some),
        outcome.entered matches Some(paths) ==> {
            &&& offer == DragOffer::AppPrivate ==> paths@.len() == 0
            &&& offer == DragOffer::Files ==> {
                &&& paths@.len() == files->0.len()
                &&& forall|i: int| 0 <= i < paths@.len() ==> #[trigger] paths@[i] == files->0[i]
            }
        },
        !outcome.show_drag_image <==> offer == DragOffer::Files && files is None,
{
}

/// The names of files are handed on as they are.
pub proof fn law_names_are_handed_on(names: Vec<String>)
    ensures
        texts_of(None) is None,
        texts_of(Some(names)) matches Some(texts) && texts.len() == names@.len() && forall|i: int|
            0 <= i < texts.len() ==> #[trigger] texts[i] == names@[i]@,
{
}

/// While a drag is over a window, and when it is dropped there, the window hears where it is, and
/// a drop copies. When the drag leaves, the window hears that it is gone.
pub proof fn law_target_answers_with_the_position(position: Point, other: Point)
    ensures
        target_answer(DropTargetCall::Over, position).0 == Some(DropEffect::Copy),
        target_answer(DropTargetCall::Drop, position).0 == Some(DropEffect::Copy),
        target_answer(DropTargetCall::Over, position).1 == (FileDropEvent::Pending { position }),
        target_answer(DropTargetCall::Drop, position).1 == (FileDropEvent::Submit { position }),
        target_answer(DropTargetCall::Leave, position) == target_answer(
            DropTargetCall::Leave,
            other,
        ),
        target_answer(DropTargetCall::Leave, position).1 == FileDropEvent::Exited,
        target_answer(DropTargetCall::Leave, position).0 is None,
{
}

/// Escape calls a drag off whatever the keys are. Otherwise the drag goes on exactly while the
/// left button is down, whatever other keys are.
pub proof fn law_drag_goes_on_while_the_button_is_down(key_state: u32, escape_pressed: bool)
    ensures
        verdict_on(escape_pressed, key_state) == ContinueDrag::Cancel <==> escape_pressed,
        verdict_on(escape_pressed, key_state) == ContinueDrag::Continue <==> !escape_pressed
            && key_state & 1 == 1,
        verdict_on(escape_pressed, key_state) == ContinueDrag::Drop <==> !escape_pressed
            && key_state & 1 == 0,
{
    assert(key_state & 1 == key_state % 2) by (bit_vector);
}

/// A position that could be read is told exactly where it is not the one that was told last, and
/// as it is.
pub proof fn law_new_position_is_told(last: Option<Point>, point: Point)
    ensures
        told_position(last, None) is None,
        told_position(last, Some(point)) is None <==> last == Some(point),
        told_position(last, Some(point)) matches Some(told) ==> told == point,
{
}

/// A session remembers every position that could be read, told or not, so the same one is not
/// told again; one that could not be read changes nothing.
pub proof fn law_read_position_is_remembered(session: DragSession, point: Point)
    ensures
        session.after_move(Some(point)).last_cursor == Some(point),
        session.after_move(None) == session,
        told_position(session.after_move(Some(point)).last_cursor, Some(point)) is None,
{
}

} // verus!
