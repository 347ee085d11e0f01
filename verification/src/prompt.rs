//! The dialog that asks a question with buttons.

use vstd::prelude::*;

verus! {

/// How grave a question is.
#[derive(Clone, Copy, Debug, PartialEq, Eq, Structural)]
pub enum PromptLevel {
    Info,
    Warning,
    Critical,
}

/// A button of the dialog, with its label.
pub enum PromptButton {
    Confirm(String),
    Cancel(String),
    Other(String),
}

/// What the dialog looks like: its title and the resource of its icon.
#[derive(Clone, Copy, Debug)]
pub struct PromptStyle {
    pub title: &'static str,
    pub icon: u16,
}

/// The id that the system gives to the button that confirms.
pub const IDOK: i32 = 1;

/// The id that the system gives to the button that cancels.
pub const IDCANCEL: i32 = 2;

pub const TD_WARNING_ICON: u16 = 65535;

pub const TD_ERROR_ICON: u16 = 65534;

pub const TD_INFORMATION_ICON: u16 = 65533;

/// The title of the dialog of a level.
pub open spec fn title_of(level: PromptLevel) -> Seq<char> {
    match level {
        PromptLevel::Info => "Info"@,
        PromptLevel::Warning => "Warning"@,
        PromptLevel::Critical => "Critical"@,
    }
}

/// The icon of the dialog of a level.
pub open spec fn icon_of(level: PromptLevel) -> u16 {
    match level {
        PromptLevel::Info => TD_INFORMATION_ICON,
        PromptLevel::Warning => TD_WARNING_ICON,
        PromptLevel::Critical => TD_ERROR_ICON,
    }
}

/// What the dialog of a level looks like.
pub fn prompt_style(level: PromptLevel) -> (style: PromptStyle)
    ensures
        style.title@ == title_of(level),
        style.icon == icon_of(level),
        match level {
            PromptLevel::Info => style.title@ == "Info"@ && style.icon == TD_INFORMATION_ICON,
            PromptLevel::Warning => style.title@ == "Warning"@ && style.icon == TD_WARNING_ICON,
            PromptLevel::Critical => style.title@ == "Critical"@ && style.icon == TD_ERROR_ICON,
        },
{
    match level {
        PromptLevel::Info => PromptStyle { title: "Info", icon: TD_INFORMATION_ICON },
        PromptLevel::Warning => PromptStyle { title: "Warning", icon: TD_WARNING_ICON },
        PromptLevel::Critical => PromptStyle { title: "Critical", icon: TD_ERROR_ICON },
    }
}

impl PromptButton {
    /// The text on the button.
    pub open spec fn text(self) -> Seq<char> {
        match self {
            PromptButton::Confirm(label) => label@,
            PromptButton::Cancel(label) => label@,
            PromptButton::Other(label) => label@,
        }
    }

    /// The text on the button.
    pub fn label(&self) -> (label: &String)
        ensures
            label@ == self.text(),
    {
        match self {
            PromptButton::Confirm(label) => label,
            PromptButton::Cancel(label) => label,
            PromptButton::Other(label) => label,
        }
    }
}

/// The id of a button, which stands at a place in the order of all. The low positive numbers
/// are taken for known buttons, so the others count down from minus one.
pub open spec fn button_id(button: PromptButton, index: int) -> int {
    match button {
        PromptButton::Confirm(_) => IDOK as int,
        PromptButton::Cancel(_) => IDCANCEL as int,
        PromptButton::Other(_) => -index - 1,
    }
}

/// Whether `ids` are the ids of buttons, in order.
pub open spec fn are_button_ids(buttons: Seq<PromptButton>, ids: Seq<i32>) -> bool {
    &&& ids.len() == buttons.len()
    &&& forall|i: int| 0 <= i < buttons.len() ==> #[trigger] ids[i] == button_id(buttons[i], i)
}

/// The first place of an id, if it has one.
pub open spec fn is_answer(ids: Seq<i32>, clicked: i32, answer: Option<usize>) -> bool {
    match answer {
        Some(index) => {
            &&& index < ids.len()
            &&& ids[index as int] == clicked
            &&& forall|i: int| 0 <= i < index ==> ids[i] != clicked
        },
        None => !ids.contains(clicked),
    }
}

/// Whether there are few enough buttons for each to have an id.
pub open spec fn ids_fit(buttons: Seq<PromptButton>) -> bool {
    buttons.len() <= 0x8000_0000
}

/// Whether [`button_ids`] can be called.
pub fn has_button_ids(buttons: &Vec<PromptButton>) -> (ok: bool)
    ensures
        ok == ids_fit(buttons@),
{
    buttons.len() <= 0x8000_0000
}

/// The ids of the buttons of a dialog, in order.
pub fn button_ids(buttons: &Vec<PromptButton>) -> (ids: Vec<i32>)
    requires
        ids_fit(buttons@),
    ensures
        are_button_ids(buttons@, ids@),
{
    let mut ids: Vec<i32> = Vec::new();
    let mut index: usize = 0;
    while index < buttons.len()
        invariant
            index <= buttons@.len(),
            buttons@.len() <= 0x8000_0000,
            ids@.len() == index,
            forall|i: int| 0 <= i < index ==> #[trigger] ids@[i] == button_id(buttons@[i], i),
        decreases buttons.len() - index,
    {
        let id: i32 = match &buttons[index] {
            PromptButton::Confirm(_) => IDOK,
            PromptButton::Cancel(_) => IDCANCEL,
            PromptButton::Other(_) => -(index as i32) - 1,
        };
        ids.push(id);
        index = index + 1;
    }
    ids
}

/// The place of the button with the id that the dialog ended with, if there is one.
pub fn clicked_button(ids: &Vec<i32>, clicked: i32) -> (answer: Option<usize>)
    ensures
        is_answer(ids@, clicked, answer),
{
    let mut index: usize = 0;
    while index < ids.len()
        invariant
            index <= ids@.len(),
            forall|i: int| 0 <= i < index ==> ids@[i] != clicked,
        decreases ids.len() - index,
    {
        if ids[index] == clicked {
            return Some(index);
        }
        index = index + 1;
    }
    None
}

/// A click on a button that is not a known one is answered with the place of that button.
pub proof fn law_click_is_answered_with_its_button(
    buttons: Seq<PromptButton>,
    ids: Seq<i32>,
    index: usize,
    answer: Option<usize>,
)
    requires
        are_button_ids(buttons, ids),
        index < buttons.len(),
        buttons[index as int] is Other,
        is_answer(ids, ids[index as int], answer),
    ensures
        answer == Some(index),
{
    assert(ids[index as int] == -index - 1);
    match answer {
        Some(found) => {
            assert(ids[found as int] == button_id(buttons[found as int], found as int));
            if index < found {
                assert(ids[index as int] != ids[index as int]);
            }
        },
        None => {
            assert(ids.contains(ids[index as int]));
        },
    }
}

/// A click on a known button is answered with the first button of that kind.
pub proof fn law_known_button_is_answered(
    buttons: Seq<PromptButton>,
    ids: Seq<i32>,
    index: int,
    answer: Option<usize>,
)
    requires
        are_button_ids(buttons, ids),
        0 <= index < buttons.len(),
        !(buttons[index] is Other),
        is_answer(ids, ids[index], answer),
    ensures
        answer matches Some(found) && found <= index && (buttons[found as int] is Confirm
            <==> buttons[index] is Confirm) && (buttons[found as int] is Cancel
            <==> buttons[index] is Cancel),
{
    assert(ids[index] == button_id(buttons[index], index));
    assert(ids.contains(ids[index]));
    if let Some(found) = answer {
        assert(ids[found as int] == button_id(buttons[found as int], found as int));
    }
}

/// A dialog that could not be shown ends with zero, which is no answer.
pub proof fn law_failed_dialog_is_no_answer(
    buttons: Seq<PromptButton>,
    ids: Seq<i32>,
    answer: Option<usize>,
)
    requires
        are_button_ids(buttons, ids),
        is_answer(ids, 0, answer),
    ensures
        answer is None,
{
    if let Some(found) = answer {
        assert(ids[found as int] == button_id(buttons[found as int], found as int));
    }
}

/// The dialogs of different levels have different titles and icons: the name of the level, and
/// the icon of an information, a warning or an error.
pub proof fn law_levels_are_told_apart(left: PromptLevel, right: PromptLevel)
    ensures
        title_of(left) == title_of(right) ==> left == right,
        icon_of(left) == icon_of(right) ==> left == right,
        title_of(left) == "Info"@ <==> left is Info,
        title_of(left) == "Warning"@ <==> left is Warning,
        title_of(left) == "Critical"@ <==> left is Critical,
        icon_of(left) == 65533 <==> left is Info,
        icon_of(left) == 65535 <==> left is Warning,
        icon_of(left) == 65534 <==> left is Critical,
{
    reveal_strlit("Info");
    reveal_strlit("Warning");
    reveal_strlit("Critical");
    assert("Info"@.len() == 4 && "Warning"@.len() == 7 && "Critical"@.len() == 8);
}

/// The text on a button is its label, whatever button it is.
pub proof fn law_button_shows_its_label(label: String)
    ensures
        PromptButton::Confirm(label).text() == label@,
        PromptButton::Cancel(label).text() == label@,
        PromptButton::Other(label).text() == label@,
{
}

/// Each button has an id in its place: one that confirms has 1 and one that cancels 2; any other
/// has a negative one of its own, which tells its place.
pub proof fn law_ids_are_told_apart(buttons: Seq<PromptButton>, ids: Seq<i32>, i: int, j: int)
    requires
        are_button_ids(buttons, ids),
        0 <= i < buttons.len(),
        0 <= j < buttons.len(),
    ensures
        ids.len() == buttons.len(),
        ids[i] == 1 <==> buttons[i] is Confirm,
        ids[i] == 2 <==> buttons[i] is Cancel,
        ids[i] < 0 <==> buttons[i] is Other,
        buttons[i] is Other ==> ids[i] + i == -1,
        buttons[i] is Other && ids[i] == ids[j] ==> i == j,
{
    assert(ids[i] == button_id(buttons[i], i));
    assert(ids[j] == button_id(buttons[j], j));
}

/// A click is answered exactly where its id is among the ids, and then with the first place that
/// has it.
pub proof fn law_answer_is_the_first_place(ids: Seq<i32>, clicked: i32, answer: Option<usize>)
    requires
        is_answer(ids, clicked, answer),
    ensures
        answer is None <==> (forall|i: int| 0 <= i < ids.len() ==> #[trigger] ids[i] != clicked),
        answer matches Some(index) ==> {
            &&& index < ids.len()
            &&& ids[index as int] == clicked
            &&& forall|i: int| 0 <= i < ids.len() && ids[i] == clicked ==> index <= i
        },
{
    if answer is None {
        assert forall|i: int| 0 <= i < ids.len() implies #[trigger] ids[i] != clicked by {
            assert(ids.contains(ids[i]));
        }
    }
}

/// There are few enough buttons unless there are more than half of the numbers of an `i32`.
pub proof fn law_buttons_are_few_enough(buttons: Seq<PromptButton>)
    ensures
        ids_fit(buttons) <==> buttons.len() <= 2_147_483_648,
{
}

} // verus!
