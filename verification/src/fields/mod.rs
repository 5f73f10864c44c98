//! Form building blocks: typed, validated, labelled fields and the widget
//! state they are rendered into.

use vstd::prelude::*;
use vstd::string::StrSliceExecFns;
use vstd::string::StringExecFns;

use crate::utils::push_char;
use crate::validators::{Validator, ValidatorAny};
use crate::views;
use crate::{Value, ValueRepr};

pub mod autocomplete;
pub mod checkbox;
pub mod multiselect;
pub mod text;

pub use autocomplete::{Autocomplete, AutocompleteManager};
pub use checkbox::{Checkbox, CheckboxManager};
pub use multiselect::{Multiselect, MultiselectManager};
pub use text::{Text, TextManager};

verus! {

/// The value-bearing inner widget of a field.
pub enum ValueWidget {
    /// An editable text line.
    Edit(String),
    /// A checkbox.
    Check(bool),
    /// An autocomplete widget.
    Auto(views::Autocomplete),
    /// A multiselect widget.
    Multi(views::Multiselect),
}

/// The labelled widget subtree of one field: an annotation line, the
/// value-bearing widget, and an error line.
pub struct FieldWidget {
    /// The label/help annotation line.
    pub annotation: String,
    /// The value-bearing widget.
    pub value: ValueWidget,
    /// The error line painted after a failed submit.
    pub error: String,
}

/// The raw string value a widget currently holds: the text of an edit
/// line, `true`/`false` for a checkbox, the typed text of an autocomplete,
/// the comma-joined chosen items of a multiselect.
pub open spec fn widget_value(v: ValueWidget) -> Seq<char> {
    match v {
        ValueWidget::Edit(s) => s@,
        ValueWidget::Check(b) => if b {
            "true"@
        } else {
            "false"@
        },
        ValueWidget::Auto(a) => a.text_view(),
        ValueWidget::Multi(m) => crate::fields::multiselect::join_comma(m.selected_view()),
    }
}

/// The inner widget's own invariant.
pub open spec fn widget_wf(v: ValueWidget) -> bool {
    match v {
        ValueWidget::Edit(_) => true,
        ValueWidget::Check(_) => true,
        ValueWidget::Auto(a) => a.wf(),
        ValueWidget::Multi(m) => m.wf(),
    }
}

/// Covers communication from `Field` to `Widget`.
///
/// A manager builds the widget subtree for a field, reads the current raw
/// value back out of it, and paints an error message into it.
pub trait WidgetManager: Sized {
    /// Whether `v` is a value widget of this manager's kind.
    spec fn owns(&self, v: ValueWidget) -> bool;

    /// Which initial raw values a widget can be built from.
    spec fn build_pre(&self, initial: Seq<char>) -> bool;

    /// How a freshly built widget relates to the initial raw value.
    spec fn built(&self, initial: Seq<char>, v: ValueWidget) -> bool;

    /// Whether this manager paints error messages (a checkbox is always
    /// valid and has no error slot).
    spec fn paints_errors(&self) -> bool;

    /// Builds a `value` view.
    fn build_value_view(&self, value: &str) -> (v: ValueWidget)
        requires
            self.build_pre(value@),
        ensures
            self.owns(v),
            widget_wf(v),
            self.built(value@, v),
    ;

    /// Builds the container view with placeholders for help, value and
    /// error.
    fn build_widget(&self, label: &str, help: &str, initial: &str) -> (w: FieldWidget)
        requires
            self.build_pre(initial@),
        ensures
            self.owns(w.value),
            widget_wf(w.value),
            self.built(initial@, w.value),
            w.annotation@ == annotation_of(label@, help@),
            w.error@ == Seq::<char>::empty(),
    ;

    /// Gets the current raw value from a widget.
    fn get_value(&self, w: &FieldWidget) -> (r: String)
        requires
            self.owns(w.value),
        ensures
            r@ == widget_value(w.value),
    ;

    /// Sets the error line of a widget; an empty message clears it.
    fn set_error(&self, w: &mut FieldWidget, error: &str)
        requires
            self.owns(old(w).value),
        ensures
            final(w).value == old(w).value,
            final(w).annotation == old(w).annotation,
            final(w).error@ == if self.paints_errors() {
                error@
            } else {
                old(w).error@
            },
    ;
}

/// `n` spaces.
pub open spec fn spaces(n: int) -> Seq<char> {
    Seq::new(n as nat, |i: int| ' ')
}

/// The label, right-padded with spaces to twenty characters.
pub open spec fn padded_label(label: Seq<char>) -> Seq<char> {
    if label.len() >= 20 {
        label
    } else {
        label + spaces(20 - label.len())
    }
}

/// The annotation line of a field: the padded label, and `: help` when a
/// help text is set.
pub open spec fn annotation_of(label: Seq<char>, help: Seq<char>) -> Seq<char> {
    if help.len() > 0 {
        padded_label(label) + ": "@ + help
    } else {
        padded_label(label)
    }
}

/// Renders the annotation line of a field.
pub fn format_annotation(label: &str, help: &str) -> (r: String)
    ensures
        r@ == annotation_of(label@, help@),
{
    let mut r = label.to_owned();
    let n = label.unicode_len();
    proof {
        assert(r@ =~= label@ + spaces(0));
    }
    let mut i: usize = n;
    while i < 20
        invariant
            n == label@.len(),
            n <= i,
            i <= 20 || i == n,
            r@ == label@ + spaces(i - n),
        decreases 20 - i,
    {
        push_char(&mut r, ' ');
        proof {
            assert(spaces(i + 1 - n) =~= spaces(i - n).push(' '));
            assert(r@ =~= label@ + spaces(i + 1 - n));
        }
        i = i + 1;
    }
    proof {
        assert(r@ =~= padded_label(label@));
    }
    if !help.is_empty() {
        r.append(": ");
        r.append(help);
        proof {
            assert(r@ =~= annotation_of(label@, help@));
        }
    }
    r
}

/// Widget layout where `label` and `help` are in the same line, followed
/// by the value widget and an empty error line.
pub fn label_with_help_layout(view: ValueWidget, label: &str, help: &str) -> (w: FieldWidget)
    ensures
        w.value == view,
        w.annotation@ == annotation_of(label@, help@),
        w.error@ == Seq::<char>::empty(),
{
    let text = format_annotation(label, help);
    FieldWidget { annotation: text, value: view, error: String::new() }
}

/// Whether every validator of the list gives an answer that is a pure
/// function of the input.
pub open spec fn chain_exact(vs: Seq<ValidatorAny>) -> bool {
    forall|i: int| 0 <= i < vs.len() ==> vs[i].exact()
}

/// The first failing validator's message, or `None` when the chain
/// accepts; meaningful when `chain_exact` holds.
pub open spec fn chain_outcome(vs: Seq<ValidatorAny>, data: Seq<char>) -> Option<Seq<char>>
    decreases vs.len(),
{
    if vs.len() == 0 {
        None
    } else {
        match vs[0].outcome(data) {
            Some(e) => Some(e),
            None => chain_outcome(vs.drop_first(), data),
        }
    }
}

/// Relation every answer of `run_validators` satisfies: acceptance means
/// every validator accepted; a reported message comes from the first
/// failing validator, every validator before it having accepted.
pub open spec fn chain_post(vs: Seq<ValidatorAny>, data: Seq<char>, r: Option<Seq<char>>) -> bool {
    match r {
        Some(e) => exists|i: int|
            #![auto]
            0 <= i < vs.len() && vs[i].post(data, Some(e)) && forall|j: int|
                0 <= j < i ==> vs[j].post(data, None),
        None => forall|i: int| #![auto] 0 <= i < vs.len() ==> vs[i].post(data, None),
    }
}

/// Runs a validator chain over `data`: the first failing validator
/// short-circuits with its message.
pub(crate) fn run_validators(vs: &Vec<ValidatorAny>, data: &str) -> (r: Option<String>)
    ensures
        chain_post(vs@, data@, r.deep_view()),
        chain_exact(vs@) ==> r.deep_view() == chain_outcome(vs@, data@),
{
    let n = vs.len();
    let mut i: usize = 0;
    proof {
        assert(vs@.skip(0) =~= vs@);
    }
    while i < n
        invariant
            n == vs@.len(),
            i <= n,
            chain_exact(vs@) ==> chain_outcome(vs@, data@) == chain_outcome(
                vs@.skip(i as int),
                data@,
            ),
            forall|j: int| #![auto] 0 <= j < i ==> vs@[j].post(data@, None),
            forall|j: int| 0 <= j < i ==> vs@[j].exact() ==> vs@[j].outcome(data@) is None,
        decreases n - i,
    {
        let res = vs[i].validate(data);
        proof {
            assert(vs@.skip(i as int)[0] == vs@[i as int]);
            assert(vs@.skip(i as int).drop_first() =~= vs@.skip(i + 1));
        }
        match res {
            Some(e) => {
                return Some(e);
            },
            None => {},
        }
        i = i + 1;
    }
    proof {
        assert(vs@.skip(n as int) =~= Seq::<ValidatorAny>::empty());
    }
    None
}

/// The mathematical value of a field's validation result.
pub open spec fn res_view(r: Result<Value, String>) -> Result<ValueRepr, Seq<char>> {
    match r {
        Ok(v) => Ok(v@),
        Err(e) => Err(e@),
    }
}

/// Building block for forms which stores typed configuration and the
/// widget manager of one field.
pub struct Field<W, T> {
    label: String,
    help: String,
    initial: T,
    validators: Vec<ValidatorAny>,
    widget_manager: W,
}

impl<W, T> Field<W, T> {
    /// The field's label.
    pub closed spec fn label_view(&self) -> Seq<char> {
        self.label@
    }

    /// The field's help text.
    pub closed spec fn help_view(&self) -> Seq<char> {
        self.help@
    }

    /// The field's initial typed value.
    pub closed spec fn initial_view(&self) -> T {
        self.initial
    }

    /// The field's ordered validator list.
    pub closed spec fn validators_view(&self) -> Seq<ValidatorAny> {
        self.validators@
    }

    /// The field's widget manager.
    pub closed spec fn manager_view(&self) -> W {
        self.widget_manager
    }

    /// Creates a new `Field` with given `label`, `widget_manager`,
    /// `initial`.
    pub fn new(label: &str, widget_manager: W, initial: T) -> (r: Self)
        ensures
            r.label_view() == label@,
            r.help_view() == Seq::<char>::empty(),
            r.initial_view() == initial,
            r.validators_view() == Seq::<ValidatorAny>::empty(),
            r.manager_view() == widget_manager,
    {
        Field {
            label: label.to_owned(),
            help: String::new(),
            initial,
            validators: Vec::new(),
            widget_manager,
        }
    }

    /// Sets the help message for the field.
    pub fn help(self, msg: &str) -> (r: Self)
        ensures
            r.help_view() == msg@,
            r.label_view() == self.label_view(),
            r.initial_view() == self.initial_view(),
            r.validators_view() == self.validators_view(),
            r.manager_view() == self.manager_view(),
    {
        Field {
            label: self.label,
            help: msg.to_owned(),
            initial: self.initial,
            validators: self.validators,
            widget_manager: self.widget_manager,
        }
    }

    /// Appends a validator.
    pub fn validator(self, validator: ValidatorAny) -> (r: Self)
        ensures
            r.validators_view() == self.validators_view().push(validator),
            r.label_view() == self.label_view(),
            r.help_view() == self.help_view(),
            r.initial_view() == self.initial_view(),
            r.manager_view() == self.manager_view(),
    {
        let mut validators = self.validators;
        validators.push(validator);
        Field {
            label: self.label,
            help: self.help,
            initial: self.initial,
            validators,
            widget_manager: self.widget_manager,
        }
    }
}

/// One form field of any of the library's kinds; what a form stores.
pub enum FieldAny {
    /// A plain text field.
    Text(Field<TextManager, String>),
    /// A boolean field.
    Checkbox(Field<CheckboxManager, bool>),
    /// A text field with completion.
    Autocomplete(Field<AutocompleteManager, String>),
    /// A list-of-strings field.
    Multiselect(Field<MultiselectManager, Vec<String>>),
}

impl FieldAny {
    /// The field's label, the key of its value in submitted data.
    pub open spec fn label_view(&self) -> Seq<char> {
        match self {
            FieldAny::Text(f) => f.label_view(),
            FieldAny::Checkbox(f) => f.label_view(),
            FieldAny::Autocomplete(f) => f.label_view(),
            FieldAny::Multiselect(f) => f.label_view(),
        }
    }

    /// The field's help text.
    pub open spec fn help_view(&self) -> Seq<char> {
        match self {
            FieldAny::Text(f) => f.help_view(),
            FieldAny::Checkbox(f) => f.help_view(),
            FieldAny::Autocomplete(f) => f.help_view(),
            FieldAny::Multiselect(f) => f.help_view(),
        }
    }

    /// The raw string form of the field's initial typed value.
    pub open spec fn initial_raw(&self) -> Seq<char> {
        match self {
            FieldAny::Text(f) => f.initial_view()@,
            FieldAny::Checkbox(f) => if f.initial_view() {
                "true"@
            } else {
                "false"@
            },
            FieldAny::Autocomplete(f) => f.initial_view()@,
            FieldAny::Multiselect(f) => multiselect::join_comma(f.initial_view().deep_view()),
        }
    }

    /// How a freshly built widget relates to the field's configuration.
    pub open spec fn builds(&self, w: FieldWidget) -> bool {
        &&& match self {
            FieldAny::Text(f) => f.manager_view().built(self.initial_raw(), w.value),
            FieldAny::Checkbox(f) => f.manager_view().built(self.initial_raw(), w.value),
            FieldAny::Autocomplete(f) => f.manager_view().built(self.initial_raw(), w.value),
            FieldAny::Multiselect(f) => f.manager_view().built(self.initial_raw(), w.value),
        }
        &&& w.annotation@ == annotation_of(self.label_view(), self.help_view())
        &&& w.error@ == Seq::<char>::empty()
    }

    /// Whether `w` is a widget of this field's kind.
    pub open spec fn owns_widget(&self, w: FieldWidget) -> bool {
        match self {
            FieldAny::Text(f) => f.manager_view().owns(w.value),
            FieldAny::Checkbox(f) => f.manager_view().owns(w.value),
            FieldAny::Autocomplete(f) => f.manager_view().owns(w.value),
            FieldAny::Multiselect(f) => f.manager_view().owns(w.value),
        }
    }

    /// Whether this field's validation is a pure function of the raw
    /// value: true unless a validator asks the filesystem.
    pub open spec fn exact(&self) -> bool {
        match self {
            FieldAny::Text(f) => chain_exact(f.validators_view()),
            FieldAny::Checkbox(_) => true,
            FieldAny::Autocomplete(f) => chain_exact(f.validators_view()),
            FieldAny::Multiselect(f) => chain_exact(f.validators_view()),
        }
    }

    /// The validation result, meaningful when `exact()` holds.
    pub open spec fn spec_validate(&self, raw: Seq<char>) -> Result<ValueRepr, Seq<char>> {
        match self {
            FieldAny::Text(f) => text::text_outcome(f.validators_view(), raw),
            FieldAny::Checkbox(_) => checkbox::checkbox_outcome(raw),
            FieldAny::Autocomplete(f) => text::text_outcome(f.validators_view(), raw),
            FieldAny::Multiselect(f) => multiselect::multiselect_outcome(f.validators_view(), raw),
        }
    }

    /// Relation every validation result satisfies: an accepted value is
    /// the typed form of the raw string, a rejection carries some
    /// validator's message.
    pub open spec fn validate_post(&self, raw: Seq<char>, r: Result<ValueRepr, Seq<char>>) -> bool {
        match self {
            FieldAny::Text(f) => match r {
                Ok(v) => v == ValueRepr::Str(raw) && chain_post(f.validators_view(), raw, None),
                Err(e) => chain_post(f.validators_view(), raw, Some(e)),
            },
            FieldAny::Checkbox(_) => r == checkbox::checkbox_outcome(raw),
            FieldAny::Autocomplete(f) => match r {
                Ok(v) => v == ValueRepr::Str(raw) && chain_post(f.validators_view(), raw, None),
                Err(e) => chain_post(f.validators_view(), raw, Some(e)),
            },
            FieldAny::Multiselect(f) => match r {
                Ok(v) => v == ValueRepr::List(multiselect::split_comma(raw)) && forall|k: int|
                    #![auto]
                    0 <= k < multiselect::split_comma(raw).len() ==> chain_post(
                        f.validators_view(),
                        multiselect::split_comma(raw)[k],
                        None,
                    ),
                Err(e) => exists|k: int|
                    0 <= k < multiselect::split_comma(raw).len() && chain_post(
                        f.validators_view(),
                        multiselect::split_comma(raw)[k],
                        Some(e),
                    ),
            },
        }
    }

    /// Whether this field's widget has an error slot.
    pub open spec fn paints_errors(&self) -> bool {
        !(self matches FieldAny::Checkbox(_))
    }

    /// Builds the widget representing this field.
    pub fn build_widget(&self) -> (w: FieldWidget)
        ensures
            self.owns_widget(w),
            widget_wf(w.value),
            self.builds(w),
            w.error@ == Seq::<char>::empty(),
    {
        match self {
            FieldAny::Text(f) => f.build_widget(),
            FieldAny::Checkbox(f) => {
                let w = f.build_widget();
                proof {
                    reveal_strlit("true");
                    reveal_strlit("false");
                    assert("true"@.len() == 4);
                    assert("false"@.len() == 5);
                }
                w
            },
            FieldAny::Autocomplete(f) => f.build_widget(),
            FieldAny::Multiselect(f) => f.build_widget(),
        }
    }

    /// Validates a raw string, producing a typed value or the first
    /// failing validator's message.
    pub fn validate(&self, data: &str) -> (r: Result<Value, String>)
        ensures
            self.validate_post(data@, res_view(r)),
            self.exact() ==> res_view(r) == self.spec_validate(data@),
    {
        match self {
            FieldAny::Text(f) => f.validate(data),
            FieldAny::Checkbox(f) => f.validate(data),
            FieldAny::Autocomplete(f) => f.validate(data),
            FieldAny::Multiselect(f) => f.validate(data),
        }
    }

    /// Gets the field's label.
    pub fn get_label(&self) -> (r: &str)
        ensures
            r@ == self.label_view(),
    {
        match self {
            FieldAny::Text(f) => f.label.as_str(),
            FieldAny::Checkbox(f) => f.label.as_str(),
            FieldAny::Autocomplete(f) => f.label.as_str(),
            FieldAny::Multiselect(f) => f.label.as_str(),
        }
    }

    /// Reads the current raw value out of this field's widget.
    pub fn widget_value_of(&self, w: &FieldWidget) -> (r: String)
        requires
            self.owns_widget(*w),
        ensures
            r@ == widget_value(w.value),
    {
        match self {
            FieldAny::Text(f) => f.widget_manager.get_value(w),
            FieldAny::Checkbox(f) => f.widget_manager.get_value(w),
            FieldAny::Autocomplete(f) => f.widget_manager.get_value(w),
            FieldAny::Multiselect(f) => f.widget_manager.get_value(w),
        }
    }

    /// Paints an error message into this field's widget; an empty message
    /// clears the slot.
    pub fn set_widget_error(&self, w: &mut FieldWidget, error: &str)
        requires
            self.owns_widget(*old(w)),
        ensures
            final(w).value == old(w).value,
            final(w).annotation == old(w).annotation,
            final(w).error@ == if self.paints_errors() {
                error@
            } else {
                old(w).error@
            },
    {
        match self {
            FieldAny::Text(f) => f.widget_manager.set_error(w, error),
            FieldAny::Checkbox(f) => f.widget_manager.set_error(w, error),
            FieldAny::Autocomplete(f) => f.widget_manager.set_error(w, error),
            FieldAny::Multiselect(f) => f.widget_manager.set_error(w, error),
        }
    }
}

/// How a value widget reacts to one forwarded input event.
pub open spec fn widget_event_post(
    pre: ValueWidget,
    post: ValueWidget,
    event: views::InputEvent,
    consumed: bool,
) -> bool {
    match pre {
        ValueWidget::Edit(s) => match event {
            views::InputEvent::Char(c) => post matches ValueWidget::Edit(t) && t@ == s@.push(c)
                && consumed,
            views::InputEvent::Backspace => post matches ValueWidget::Edit(t) && t@ == (if s@.len()
                > 0 {
                s@.drop_last()
            } else {
                s@
            }) && consumed,
            _ => post == pre && !consumed,
        },
        ValueWidget::Check(b) => match event {
            views::InputEvent::Char(c) => if c == ' ' {
                post == ValueWidget::Check(!b) && consumed
            } else {
                post == pre && !consumed
            },
            views::InputEvent::Enter => post == ValueWidget::Check(!b) && consumed,
            _ => post == pre && !consumed,
        },
        ValueWidget::Auto(a) => post matches ValueWidget::Auto(a2) && exists|r: views::autocomplete::AcOutcome|
            #![auto]
            views::Autocomplete::event_post(a, a2, event, r) && consumed == !(r is Ignored),
        ValueWidget::Multi(m) => post matches ValueWidget::Multi(m2) && exists|r: views::multiselect::MsOutcome|
            #![auto]
            views::Multiselect::event_post(m, m2, event, r) && consumed == !(r is Ignored),
    }
}

/// Forwards one input event to a value widget, as the event loop does to
/// the focused field of a form: an edit line takes typing, a checkbox
/// toggles on the submit key or space, the composite widgets handle the
/// event themselves.
pub fn value_widget_event(v: &mut ValueWidget, event: views::InputEvent) -> (consumed: bool)
    requires
        widget_wf(*old(v)),
    ensures
        widget_wf(*final(v)),
        widget_event_post(*old(v), *final(v), event, consumed),
{
    match v {
        ValueWidget::Edit(s) => match event {
            views::InputEvent::Char(c) => {
                push_char(s, c);
                true
            },
            views::InputEvent::Backspace => {
                let n = s.as_str().unicode_len();
                if n > 0 {
                    let shorter = s.as_str().substring_char(0, n - 1).to_owned();
                    proof {
                        assert(shorter@ =~= old(v)->Edit_0@.drop_last());
                    }
                    *s = shorter;
                }
                true
            },
            _ => false,
        },
        ValueWidget::Check(b) => match event {
            views::InputEvent::Char(c) => {
                if c == ' ' {
                    *b = !*b;
                    true
                } else {
                    false
                }
            },
            views::InputEvent::Enter => {
                *b = !*b;
                true
            },
            _ => false,
        },
        ValueWidget::Auto(a) => {
            let ghost pre = *a;
            let outcome = a.on_event(event);
            let consumed = !matches!(outcome, crate::views::autocomplete::AcOutcome::Ignored);
            proof {
                assert(views::Autocomplete::event_post(pre, *a, event, outcome));
            }
            consumed
        },
        ValueWidget::Multi(m) => {
            let ghost pre = *m;
            let outcome = m.on_event(event);
            let consumed = !matches!(outcome, crate::views::multiselect::MsOutcome::Ignored);
            proof {
                assert(views::Multiselect::event_post(pre, *m, event, outcome));
            }
            consumed
        },
    }
}

} // verus!
