//! A text field whose widget offers live-filtered completion candidates.

use vstd::prelude::*;

use crate::feeders::FeederAny;
use crate::fields::{
    annotation_of, chain_exact, chain_post, label_with_help_layout, res_view, run_validators,
    text::text_outcome, widget_wf, Field, FieldWidget, ValueWidget, WidgetManager,
};
use crate::views;
use crate::{Value, ValueRepr};

verus! {

/// Convenient wrapper around `Field<AutocompleteManager, String>`.
pub struct Autocomplete;

impl Autocomplete {
    /// Creates a new `Field<AutocompleteManager, String>` over `feeder`,
    /// with empty initial text.
    pub fn new(label: &str, feeder: FeederAny) -> (r: Field<AutocompleteManager, String>)
        ensures
            r.label_view() == label@,
            r.help_view() == Seq::<char>::empty(),
            r.initial_view()@ == Seq::<char>::empty(),
            r.validators_view() == Seq::<crate::validators::ValidatorAny>::empty(),
            r.manager_view().feeder_view() == feeder,
    {
        Field::new(label, AutocompleteManager(feeder), String::new())
    }
}

/// Bridges a text field to an autocomplete widget fed by a [`FeederAny`].
#[derive(Clone)]
pub struct AutocompleteManager(FeederAny);

impl AutocompleteManager {
    /// The feeder handed to every widget this manager builds.
    pub closed spec fn feeder_view(&self) -> FeederAny {
        self.0
    }
}

impl WidgetManager for AutocompleteManager {
    open spec fn owns(&self, v: ValueWidget) -> bool {
        v matches ValueWidget::Auto(_)
    }

    open spec fn build_pre(&self, initial: Seq<char>) -> bool {
        true
    }

    open spec fn built(&self, initial: Seq<char>, v: ValueWidget) -> bool {
        v matches ValueWidget::Auto(a) && a.text_view() == initial
    }

    open spec fn paints_errors(&self) -> bool {
        true
    }

    fn build_value_view(&self, value: &str) -> (v: ValueWidget) {
        ValueWidget::Auto(views::Autocomplete::new(self.0.clone()).value(value))
    }

    fn build_widget(&self, label: &str, help: &str, initial: &str) -> (w: FieldWidget) {
        let view = self.build_value_view(initial);
        label_with_help_layout(view, label, help)
    }

    fn get_value(&self, w: &FieldWidget) -> (r: String) {
        match &w.value {
            ValueWidget::Auto(a) => a.get_value(),
            _ => {
                proof {
                    assert(false);
                }
                String::new()
            },
        }
    }

    fn set_error(&self, w: &mut FieldWidget, error: &str) {
        w.error = error.to_owned();
    }
}

impl Field<AutocompleteManager, String> {
    /// Builds the widget representing this field.
    pub fn build_widget(&self) -> (w: FieldWidget)
        ensures
            self.manager_view().owns(w.value),
            widget_wf(w.value),
            self.manager_view().built(self.initial_view()@, w.value),
            w.annotation@ == annotation_of(self.label_view(), self.help_view()),
            w.error@ == Seq::<char>::empty(),
    {
        self.widget_manager.build_widget(
            self.label.as_str(),
            self.help.as_str(),
            self.initial.as_str(),
        )
    }

    /// Validates `data` with the field's validator chain; acceptance turns
    /// the raw string into a string value.
    pub fn validate(&self, data: &str) -> (r: Result<Value, String>)
        ensures
            chain_exact(self.validators_view()) ==> res_view(r) == text_outcome(
                self.validators_view(),
                data@,
            ),
            r matches Ok(v) ==> v@ == ValueRepr::Str(data@) && chain_post(
                self.validators_view(),
                data@,
                None,
            ),
            r matches Err(e) ==> chain_post(self.validators_view(), data@, Some(e@)),
    {
        match run_validators(&self.validators, data) {
            Some(e) => Err(e),
            None => Ok(Value::Str(data.to_owned())),
        }
    }
}

} // verus!
