use fui::fields::{FieldAny, Text};
use fui::form::{FormFocus, FormOutcome, FormView};
use fui::validators::{Required, ValidatorAny};
use fui::views::InputEvent;
use fui::{FlowStage, Fui, Value};

fn greet_fui() -> Fui {
    Fui::new().action(
        "greet",
        FormView::new().field(FieldAny::Text(
            Text::new("name").validator(ValidatorAny::Required(Required)),
        )),
    )
}

fn submit_text(form: &mut FormView, idx: usize, text: &str) -> FormOutcome {
    form.set_focus(FormFocus::Field(idx));
    for c in text.chars() {
        form.on_event(InputEvent::Char(c));
    }
    form.set_focus(FormFocus::Submit);
    form.on_event(InputEvent::Enter)
}

#[test]
fn flow_runs_handler_exactly_once() {
    let mut fui = greet_fui();
    let mut handled: Vec<Vec<(String, Value)>> = Vec::new();

    // The action picker: typing a known description and submitting it.
    let mut picker = fui.picker_form();
    let picked = submit_text(&mut picker, 0, "greet");
    let chosen = match picked {
        FormOutcome::Submitted(data) => {
            assert_eq!(data.len(), 1);
            assert_eq!(data[0].0, "action");
            match &data[0].1 {
                Value::Str(s) => s.clone(),
                other => panic!("expected a string, got {:?}", other),
            }
        }
        other => panic!("expected a submit, got {:?}", other),
    };

    let stage = fui.on_action_picked(FlowStage::PickingAction, chosen.as_str());
    assert_eq!(stage, FlowStage::FillingForm(0));

    // The chosen action's form.
    let idx = match stage {
        FlowStage::FillingForm(i) => i,
        other => panic!("expected a form stage, got {:?}", other),
    };
    let outcome = submit_text(fui.form_mut(idx), 0, "Bob");
    let stage = match outcome {
        FormOutcome::Submitted(data) => {
            handled.push(data);
            fui.on_form_submitted(FlowStage::FillingForm(idx))
        }
        other => panic!("expected a submit, got {:?}", other),
    };
    assert_eq!(stage, FlowStage::Done(0));

    assert_eq!(
        handled,
        vec![vec![("name".to_string(), Value::Str("Bob".to_string()))]]
    );
}

#[test]
fn flow_picker_refuses_unknown_description() {
    let fui = greet_fui();
    let mut picker = fui.picker_form();
    let outcome = submit_text(&mut picker, 0, "shout");
    assert_eq!(outcome, FormOutcome::Consumed);
    assert_eq!(picker.error_at(0), "Value must be one of options");
    assert_eq!(
        fui.on_action_picked(FlowStage::PickingAction, "shout"),
        FlowStage::PickingAction
    );
}

#[test]
fn flow_cancel_skips_the_handler() {
    let fui = greet_fui();
    assert_eq!(fui.on_pick_cancel(FlowStage::PickingAction), FlowStage::Cancelled);
    assert_eq!(fui.on_form_cancel(FlowStage::FillingForm(0)), FlowStage::Cancelled);
}

#[test]
fn flow_form_with_invalid_data_stays_open() {
    let mut fui = greet_fui();
    let outcome = submit_text(fui.form_mut(0), 0, "");
    assert_eq!(outcome, FormOutcome::Consumed);
}

#[test]
fn fui_counts_its_actions() {
    let fui = greet_fui();
    assert_eq!(fui.action_count(), 1);
}
