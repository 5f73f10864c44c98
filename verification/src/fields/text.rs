//! A plain text field.

use vstd::prelude::*;

use crate::fields::{
    annotation_of, chain_exact, chain_outcome, chain_post, label_with_help_layout, res_view,
    run_validators, widget_wf, Field, FieldWidget, ValueWidget, WidgetManager,
};
use crate::{Value, ValueRepr};

verus! {

/// Convenient wrapper around `Field<TextManager, String>`.
pub struct Text;

impl Text {
    /// Creates a new `Field<TextManager, String>` with empty initial text.
    pub fn new(label: &str) -> (r: Field<TextManager, String>)
        ensures
            r.label_view() == label@,
            r.help_view() == Seq::<char>::empty(),
            r.initial_view()@ == Seq::<char>::empty(),
            r.validators_view() == Seq::<crate::validators::ValidatorAny>::empty(),
            r.manager_view() == TextManager,
    {
        Field::new(label, TextManager, String::new())
    }
}

/// Bridges a text field to an editable text line.
#[derive(Clone)]
pub struct TextManager;

impl WidgetManager for TextManager {
    open spec fn owns(&self, v: ValueWidget) -> bool {
        v matches ValueWidget::Edit(_)
    }

    open spec fn build_pre(&self, initial: Seq<char>) -> bool {
        true
    }

    open spec fn built(&self, initial: Seq<char>, v: ValueWidget) -> bool {
        v matches ValueWidget::Edit(s) && s@ == initial
    }

    open spec fn paints_errors(&self) -> bool {
        true
    }

    fn build_value_view(&self, value: &str) -> (v: ValueWidget) {
        ValueWidget::Edit(value.to_owned())
    }

    fn build_widget(&self, label: &str, help: &str, initial: &str) -> (w: FieldWidget) {
        let view = self.build_value_view(initial);
        label_with_help_layout(view, label, help)
    }

    fn get_value(&self, w: &FieldWidget) -> (r: String) {
        match &w.value {
            ValueWidget::Edit(s) => s.clone(),
            _ => {
                proof {
                    assert(false);
                }
                String::new()
            },
        }
    }

    fn set_error(&self, w: &mut FieldWidget, error: &str) {
        w.error = error.to_owned();
    }
}

/// What validating a raw string against a text field's chain gives: the
/// first failing validator's message, or the string itself as the value.
pub open spec fn text_outcome(
    vs: Seq<crate::validators::ValidatorAny>,
    raw: Seq<char>,
) -> Result<ValueRepr, Seq<char>> {
    match chain_outcome(vs, raw) {
        Some(e) => Err(e),
        None => Ok(ValueRepr::Str(raw)),
    }
}

impl Field<TextManager, String> {
    /// Builds the widget representing this field.
    pub fn build_widget(&self) -> (w: FieldWidget)
        ensures
            self.manager_view().owns(w.value),
            widget_wf(w.value),
            self.manager_view().built(self.initial_view()@, w.value),
            w.annotation@ == annotation_of(self.label_view(), self.help_view()),
            w.error@ == Seq::<char>::empty(),
    {
        self.widget_manager.build_widget(self.label.as_str(), self.help.as_str(), self.initial.as_str())
    }

    /// Validates `data` with the field's validator chain; acceptance turns
    /// the raw string into a string value.
    pub fn validate(&self, data: &str) -> (r: Result<Value, String>)
        ensures
            chain_exact(self.validators_view()) ==> res_view(r) == text_outcome(
                self.validators_view(),
                data@,
            ),
            r matches Ok(v) ==> v@ == ValueRepr::Str(data@) && chain_post(
                self.validators_view(),
                data@,
                None,
            ),
            r matches Err(e) ==> chain_post(self.validators_view(), data@, Some(e@)),
    {
        match run_validators(&self.validators, data) {
            Some(e) => Err(e),
            None => Ok(Value::Str(data.to_owned())),
        }
    }
}

impl<W> Field<W, String> {
    /// Sets the initial value of the field.
    pub fn initial(self, initial: &str) -> (r: Self)
        ensures
            r.initial_view()@ == initial@,
            r.label_view() == self.label_view(),
            r.help_view() == self.help_view(),
            r.validators_view() == self.validators_view(),
            r.manager_view() == self.manager_view(),
    {
        Field {
            label: self.label,
            help: self.help,
            initial: initial.to_owned(),
            validators: self.validators,
            widget_manager: self.widget_manager,
        }
    }
}

} // verus!
