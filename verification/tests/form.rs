use fui::fields::{Checkbox, FieldAny, Multiselect, Text};
use fui::feeders::FeederAny;
use fui::form::{FormFocus, FormOutcome, FormView};
use fui::validators::{Required, ValidatorAny};
use fui::views::InputEvent;
use fui::Value;

fn name_and_verbose_form() -> FormView {
    FormView::new()
        .field(FieldAny::Text(
            Text::new("name").validator(ValidatorAny::Required(Required)),
        ))
        .field(FieldAny::Checkbox(Checkbox::new("verbose").initial(true)))
}

fn type_into_field(form: &mut FormView, idx: usize, text: &str) {
    form.set_focus(FormFocus::Field(idx));
    for c in text.chars() {
        assert_eq!(form.on_event(InputEvent::Char(c)), FormOutcome::Consumed);
    }
}

#[test]
fn form_round_trip_collects_typed_values() {
    let mut form = name_and_verbose_form();
    type_into_field(&mut form, 0, "Alice");
    form.set_focus(FormFocus::Submit);
    match form.on_event(InputEvent::Enter) {
        FormOutcome::Submitted(data) => {
            assert_eq!(
                data,
                vec![
                    ("name".to_string(), Value::Str("Alice".to_string())),
                    ("verbose".to_string(), Value::Bool(true)),
                ]
            );
        }
        other => panic!("expected a submit, got {:?}", other),
    }
}

#[test]
fn form_reports_required_field() {
    let mut form = name_and_verbose_form();
    assert_eq!(
        form.validate(),
        Err(vec![("name".to_string(), "Field is required".to_string())])
    );
    form.set_focus(FormFocus::Submit);
    assert_eq!(form.on_event(InputEvent::Enter), FormOutcome::Consumed);
    assert_eq!(form.error_at(0), "Field is required");
    assert_eq!(form.error_at(1), "");
}

#[test]
fn form_validate_is_idempotent() {
    let mut form = name_and_verbose_form();
    type_into_field(&mut form, 0, "Bob");
    let first = form.validate();
    let second = form.validate();
    assert_eq!(first, second);
}

#[test]
fn form_error_is_cleared_after_correction() {
    let mut form = name_and_verbose_form();
    form.set_focus(FormFocus::Submit);
    assert_eq!(form.on_event(InputEvent::Enter), FormOutcome::Consumed);
    assert_eq!(form.error_at(0), "Field is required");
    type_into_field(&mut form, 0, "Eve");
    form.set_focus(FormFocus::Submit);
    match form.on_event(InputEvent::Enter) {
        FormOutcome::Submitted(data) => {
            assert_eq!(data[0], ("name".to_string(), Value::Str("Eve".to_string())));
        }
        other => panic!("expected a submit, got {:?}", other),
    }
}

#[test]
fn form_cancel_skips_validation() {
    let mut form = name_and_verbose_form();
    form.set_focus(FormFocus::Cancel);
    assert_eq!(form.on_event(InputEvent::Enter), FormOutcome::Cancelled);
    assert_eq!(form.error_at(0), "");
}

#[test]
fn form_submit_shortcut_submits_from_anywhere() {
    let mut form = name_and_verbose_form();
    type_into_field(&mut form, 0, "Mallory");
    assert!(matches!(
        form.on_event(InputEvent::SubmitShortcut),
        FormOutcome::Submitted(_)
    ));
}

#[test]
fn form_checkbox_toggles_on_enter() {
    let mut form = name_and_verbose_form();
    type_into_field(&mut form, 0, "Ada");
    form.set_focus(FormFocus::Field(1));
    assert_eq!(form.on_event(InputEvent::Enter), FormOutcome::Consumed);
    match form.validate() {
        Ok(data) => assert_eq!(data[1], ("verbose".to_string(), Value::Bool(false))),
        Err(e) => panic!("unexpected errors {:?}", e),
    }
}

#[test]
fn form_multiselect_field_round_trips_items() {
    let feeder = FeederAny::List(vec!["a".to_string(), "b".to_string()]);
    let form = FormView::new().field(FieldAny::Multiselect(
        Multiselect::new("tags", feeder).initial(vec!["a".to_string(), "b".to_string()]),
    ));
    assert_eq!(form.raw_value_at(0), "a,b");
    match form.validate() {
        Ok(data) => assert_eq!(
            data,
            vec![(
                "tags".to_string(),
                Value::List(vec!["a".to_string(), "b".to_string()])
            )]
        ),
        Err(e) => panic!("unexpected errors {:?}", e),
    }
}

#[test]
fn form_multiselect_blank_initial_selects_nothing() {
    let feeder = FeederAny::List(vec!["a".to_string()]);
    let form = FormView::new().field(FieldAny::Multiselect(
        Multiselect::new("tags", feeder).initial(vec![" ".to_string()]),
    ));
    assert_eq!(form.raw_value_at(0), "");
}

#[test]
fn form_text_initial_fills_the_widget() {
    let form = FormView::new().field(FieldAny::Text(Text::new("name").initial("Ada")));
    assert_eq!(form.raw_value_at(0), "Ada");
}

#[test]
fn form_autocomplete_initial_fills_the_widget() {
    let feeder = FeederAny::List(vec!["apple".to_string(), "apricot".to_string()]);
    let form = FormView::new().field(FieldAny::Autocomplete(
        fui::fields::Autocomplete::new("fruit", feeder).initial("apple"),
    ));
    assert_eq!(form.raw_value_at(0), "apple");
}

#[test]
fn form_annotation_pads_label_and_shows_help() {
    let form = FormView::new().field(FieldAny::Text(Text::new("ab").help("help")));
    assert_eq!(form.annotation_at(0), format!("{:20}: {}", "ab", "help"));
}
