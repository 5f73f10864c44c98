//! A boolean field rendered as a checkbox.

use vstd::prelude::*;

use crate::fields::{
    annotation_of, label_with_help_layout, res_view, widget_wf, Field, FieldWidget, ValueWidget,
    WidgetManager,
};
use crate::utils::str_eq;
use crate::{Value, ValueRepr};

verus! {

/// Convenient wrapper around `Field<CheckboxManager, bool>`.
pub struct Checkbox;

impl Checkbox {
    /// Creates a new `Field<CheckboxManager, bool>`, initially unchecked.
    pub fn new(label: &str) -> (r: Field<CheckboxManager, bool>)
        ensures
            r.label_view() == label@,
            r.help_view() == Seq::<char>::empty(),
            r.initial_view() == false,
            r.validators_view() == Seq::<crate::validators::ValidatorAny>::empty(),
            r.manager_view() == CheckboxManager,
    {
        Field::new(label, CheckboxManager, false)
    }
}

/// Bridges a boolean field to a checkbox widget.  Its raw value is the
/// literal `true` or `false`.
#[derive(Clone)]
pub struct CheckboxManager;

impl WidgetManager for CheckboxManager {
    open spec fn owns(&self, v: ValueWidget) -> bool {
        v matches ValueWidget::Check(_)
    }

    open spec fn build_pre(&self, initial: Seq<char>) -> bool {
        initial == "true"@ || initial == "false"@
    }

    open spec fn built(&self, initial: Seq<char>, v: ValueWidget) -> bool {
        v matches ValueWidget::Check(b) && b == (initial == "true"@)
    }

    open spec fn paints_errors(&self) -> bool {
        false
    }

    fn build_value_view(&self, value: &str) -> (v: ValueWidget) {
        if str_eq(value, "true") {
            ValueWidget::Check(true)
        } else {
            ValueWidget::Check(false)
        }
    }

    fn build_widget(&self, label: &str, help: &str, initial: &str) -> (w: FieldWidget) {
        let checkbox = self.build_value_view(initial);
        label_with_help_layout(checkbox, label, help)
    }

    fn get_value(&self, w: &FieldWidget) -> (r: String) {
        match &w.value {
            ValueWidget::Check(b) => if *b {
                "true".to_owned()
            } else {
                "false".to_owned()
            },
            _ => {
                proof {
                    assert(false);
                }
                String::new()
            },
        }
    }

    fn set_error(&self, w: &mut FieldWidget, error: &str) {
        // no operation, a checkbox is always valid
    }
}

/// What validating a raw string of a checkbox field gives: the parsed
/// boolean, or the internal parse-error message for any other string.
pub open spec fn checkbox_outcome(raw: Seq<char>) -> Result<ValueRepr, Seq<char>> {
    if raw == "true"@ {
        Ok(ValueRepr::Bool(true))
    } else if raw == "false"@ {
        Ok(ValueRepr::Bool(false))
    } else {
        Err(bool_err_msg())
    }
}

/// Message reported when a checkbox's raw value is not a boolean literal;
/// a programming error of the embedding, not a validation failure.
pub open spec fn bool_err_msg() -> Seq<char> {
    "Value can't be converted to bool"@
}

impl Field<CheckboxManager, bool> {
    /// Builds the widget representing this field.
    pub fn build_widget(&self) -> (w: FieldWidget)
        ensures
            self.manager_view().owns(w.value),
            widget_wf(w.value),
            w.value matches ValueWidget::Check(b) && b == self.initial_view(),
            w.annotation@ == annotation_of(self.label_view(), self.help_view()),
            w.error@ == Seq::<char>::empty(),
    {
        let initial = if self.initial {
            "true"
        } else {
            "false"
        };
        let w = self.widget_manager.build_widget(self.label.as_str(), self.help.as_str(), initial);
        proof {
            reveal_strlit("true");
            reveal_strlit("false");
            assert("true"@.len() == 4);
            assert("false"@.len() == 5);
            assert("true"@ != "false"@);
        }
        w
    }

    /// Parses `data` as a boolean; the field's validators are not run.
    pub fn validate(&self, data: &str) -> (r: Result<Value, String>)
        ensures
            res_view(r) == checkbox_outcome(data@),
    {
        if str_eq(data, "true") {
            Ok(Value::Bool(true))
        } else if str_eq(data, "false") {
            Ok(Value::Bool(false))
        } else {
            Err("Value can't be converted to bool".to_owned())
        }
    }
}

impl<W> Field<W, bool> {
    /// Sets the initial value of the field.
    pub fn initial(self, value: bool) -> (r: Self)
        ensures
            r.initial_view() == value,
            r.label_view() == self.label_view(),
            r.help_view() == self.help_view(),
            r.validators_view() == self.validators_view(),
            r.manager_view() == self.manager_view(),
    {
        Field {
            label: self.label,
            help: self.help,
            initial: value,
            validators: self.validators,
            widget_manager: self.widget_manager,
        }
    }
}

} // verus!
