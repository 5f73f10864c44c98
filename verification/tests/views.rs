use fui::feeders::FeederAny;
use fui::views::autocomplete::AcOutcome;
use fui::views::multiselect::MsOutcome;
use fui::views::{Autocomplete, InputEvent, Multiselect};

fn fruit_feeder() -> FeederAny {
    FeederAny::List(vec!["apple".to_string(), "apricot".to_string()])
}

fn type_text(ac: &mut Autocomplete, text: &str) {
    for c in text.chars() {
        assert_eq!(ac.on_event(InputEvent::Char(c)), AcOutcome::Consumed);
    }
}

fn type_into_picker(ms: &mut Multiselect, text: &str) {
    for c in text.chars() {
        assert_eq!(ms.on_event(InputEvent::Char(c)), MsOutcome::Consumed);
    }
}

#[test]
fn autocomplete_submit_needs_a_candidate() {
    let mut ac = Autocomplete::new(fruit_feeder());
    type_text(&mut ac, "apri");
    assert_eq!(ac.on_event(InputEvent::Enter), AcOutcome::Ignored);
    type_text(&mut ac, "cot");
    assert_eq!(
        ac.on_event(InputEvent::Enter),
        AcOutcome::Submitted("apricot".to_string())
    );
}

#[test]
fn autocomplete_submit_anything_always_submits() {
    let mut ac = Autocomplete::new(fruit_feeder()).submit_anything();
    type_text(&mut ac, "pear");
    assert_eq!(
        ac.on_event(InputEvent::Enter),
        AcOutcome::Submitted("pear".to_string())
    );
}

#[test]
fn autocomplete_backspace_refreshes_window() {
    let mut ac = Autocomplete::new(fruit_feeder());
    type_text(&mut ac, "apricot");
    assert_eq!(ac.on_event(InputEvent::Backspace), AcOutcome::Consumed);
    assert_eq!(ac.get_value(), "aprico");
    assert_eq!(ac.on_event(InputEvent::Enter), AcOutcome::Ignored);
}

#[test]
fn autocomplete_clear_input_resets_text() {
    let mut ac = Autocomplete::new(fruit_feeder());
    type_text(&mut ac, "app");
    assert_eq!(ac.on_event(InputEvent::ClearInput), AcOutcome::Consumed);
    assert_eq!(ac.get_value(), "");
}

#[test]
fn autocomplete_selection_mirrors_into_text() {
    let mut ac = Autocomplete::new(fruit_feeder());
    assert_eq!(ac.on_event(InputEvent::SelectDown), AcOutcome::Consumed);
    assert_eq!(ac.get_value(), "apricot");
    assert_eq!(ac.on_event(InputEvent::SelectUp), AcOutcome::Consumed);
    assert_eq!(ac.get_value(), "apple");
}

#[test]
fn autocomplete_initial_value_is_kept() {
    let ac = Autocomplete::new(fruit_feeder()).value("apple");
    assert_eq!(ac.get_value(), "apple");
    assert!(ac.is_value_from_select("apple"));
    assert!(!ac.is_value_from_select("pear"));
}

#[test]
fn multiselect_rejects_duplicate_by_default() {
    let mut ms = Multiselect::new(fruit_feeder());
    type_into_picker(&mut ms, "apple");
    assert_eq!(
        ms.on_event(InputEvent::Enter),
        MsOutcome::Selected("apple".to_string())
    );
    assert_eq!(ms.on_event(InputEvent::Enter), MsOutcome::Consumed);
    assert_eq!(ms.get_selected_items(), vec!["apple".to_string()]);
}

#[test]
fn multiselect_redundant_selection_allows_duplicates() {
    let mut ms = Multiselect::new(fruit_feeder()).redundant_selection();
    type_into_picker(&mut ms, "apple");
    assert_eq!(
        ms.on_event(InputEvent::Enter),
        MsOutcome::Selected("apple".to_string())
    );
    assert_eq!(
        ms.on_event(InputEvent::Enter),
        MsOutcome::Selected("apple".to_string())
    );
    assert_eq!(
        ms.get_selected_items(),
        vec!["apple".to_string(), "apple".to_string()]
    );
}

#[test]
fn multiselect_free_form_needs_select_anything() {
    let mut strict = Multiselect::new(fruit_feeder());
    type_into_picker(&mut strict, "pear");
    assert_eq!(strict.on_event(InputEvent::Enter), MsOutcome::Consumed);
    assert_eq!(strict.get_selected_items(), Vec::<String>::new());

    let mut free = Multiselect::new(fruit_feeder()).select_anything();
    type_into_picker(&mut free, "pear");
    assert_eq!(
        free.on_event(InputEvent::Enter),
        MsOutcome::Selected("pear".to_string())
    );
}

#[test]
fn multiselect_empty_text_is_never_selected() {
    let mut ms = Multiselect::new(fruit_feeder()).select_anything();
    assert_eq!(ms.on_event(InputEvent::Enter), MsOutcome::Consumed);
    assert_eq!(ms.get_selected_items(), Vec::<String>::new());
}

#[test]
fn multiselect_deselects_highlighted_entry() {
    let mut ms = Multiselect::new(fruit_feeder());
    ms.select_items(vec!["apple".to_string(), "apricot".to_string()]);
    assert!(ms.is_value_selected("apple"));
    assert_eq!(ms.on_event(InputEvent::FocusSelected), MsOutcome::Consumed);
    assert_eq!(
        ms.on_event(InputEvent::Enter),
        MsOutcome::Deselected("apple".to_string())
    );
    assert_eq!(ms.get_selected_items(), vec!["apricot".to_string()]);
    assert!(!ms.is_value_selected("apple"));
}

#[test]
fn multiselect_deselect_on_empty_list_is_a_no_op() {
    let mut ms = Multiselect::new(fruit_feeder());
    assert_eq!(ms.on_event(InputEvent::FocusSelected), MsOutcome::Consumed);
    assert_eq!(ms.on_event(InputEvent::Enter), MsOutcome::Consumed);
}

#[test]
fn multiselect_navigation_moves_highlight_only() {
    let mut ms = Multiselect::new(fruit_feeder());
    ms.select_items(vec!["a".to_string(), "b".to_string(), "c".to_string()]);
    assert_eq!(ms.on_event(InputEvent::FocusSelected), MsOutcome::Consumed);
    assert_eq!(ms.on_event(InputEvent::SelectDown), MsOutcome::Consumed);
    assert_eq!(
        ms.on_event(InputEvent::Enter),
        MsOutcome::Deselected("b".to_string())
    );
    assert_eq!(ms.get_selected_items(), vec!["a".to_string(), "c".to_string()]);
}
