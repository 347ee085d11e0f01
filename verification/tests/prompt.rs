use gpui_windows::prompt::{
    button_ids, clicked_button, has_button_ids, prompt_style, PromptButton, PromptLevel, IDCANCEL, IDOK,
};

fn other(label: &str) -> PromptButton {
    PromptButton::Other(label.to_string())
}

fn buttons() -> Vec<PromptButton> {
    vec![
        other("Save"),
        PromptButton::Confirm("Yes".to_string()),
        other("Discard"),
        PromptButton::Cancel("No".to_string()),
        PromptButton::Confirm("Also yes".to_string()),
    ]
}

#[test]
fn ids_of_buttons() {
    assert!(has_button_ids(&buttons()));
    assert_eq!(button_ids(&buttons()), vec![-1, 1, -3, 2, 1]);
    assert_eq!(button_ids(&vec![]), Vec::<i32>::new());
}

#[test]
fn clicks_are_answered() {
    let ids = button_ids(&buttons());
    assert_eq!(clicked_button(&ids, -1), Some(0));
    assert_eq!(clicked_button(&ids, -3), Some(2));
    assert_eq!(clicked_button(&ids, IDOK), Some(1));
    assert_eq!(clicked_button(&ids, IDCANCEL), Some(3));
    assert_eq!(clicked_button(&ids, 0), None);
    assert_eq!(clicked_button(&ids, -2), None);
}

#[test]
fn closing_a_dialog_without_cancel_is_no_answer() {
    let ids = button_ids(&vec![other("a"), other("b")]);
    assert_eq!(clicked_button(&ids, IDCANCEL), None);
}

#[test]
fn labels_are_the_texts() {
    let labels: Vec<String> = buttons().iter().map(|button| button.label().clone()).collect();
    assert_eq!(labels, vec!["Save", "Yes", "Discard", "No", "Also yes"]);
}

#[test]
fn levels_have_titles_and_icons() {
    let styles = [
        (PromptLevel::Info, "Info", 65533),
        (PromptLevel::Warning, "Warning", 65535),
        (PromptLevel::Critical, "Critical", 65534),
    ];
    for (level, title, icon) in styles {
        let style = prompt_style(level);
        assert_eq!(style.title, title);
        assert_eq!(style.icon, icon);
    }
}
