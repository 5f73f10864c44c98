//! The form container: an ordered set of fields, their widgets, and the
//! submit/cancel protocol.

use vstd::prelude::*;

use crate::fields::{
    value_widget_event, widget_event_post, widget_value, widget_wf, FieldAny, FieldWidget,
};
use crate::views::InputEvent;
use crate::{Value, ValueRepr};

verus! {

/// Which part of the form has input focus: one of the fields, or one of
/// the two buttons.
#[derive(Clone, Copy, Debug, PartialEq, Eq, Structural)]
pub enum FormFocus {
    /// The field at this position.
    Field(usize),
    /// The cancel button.
    Cancel,
    /// The submit button.
    Submit,
}

/// How the form answered an input event.
#[derive(Debug, PartialEq)]
pub enum FormOutcome {
    /// Validation succeeded: the submit follow-up carries the data.
    Submitted(Vec<(String, Value)>),
    /// The event was handled; nothing to report.
    Consumed,
    /// The cancel follow-up should run.
    Cancelled,
    /// The event was not handled.
    Ignored,
}

/// The mathematical value of a collected data map.
pub open spec fn data_pairs_view(d: Seq<(String, Value)>) -> Seq<(Seq<char>, ValueRepr)> {
    Seq::new(d.len(), |i: int| (d[i].0@, d[i].1@))
}

/// The mathematical value of a collected error map.
pub open spec fn error_pairs_view(e: Seq<(String, String)>) -> Seq<(Seq<char>, Seq<char>)> {
    Seq::new(e.len(), |i: int| (e[i].0@, e[i].1@))
}

/// The message stored under `label`, or the empty string when there is
/// none; the first match counts.
pub open spec fn lookup_err(errors: Seq<(Seq<char>, Seq<char>)>, label: Seq<char>) -> Seq<char>
    decreases errors.len(),
{
    if errors.len() == 0 {
        Seq::empty()
    } else if errors[0].0 == label {
        errors[0].1
    } else {
        lookup_err(errors.drop_first(), label)
    }
}

/// Finds the message stored under `label`, or the empty string.
fn lookup_error(errors: &Vec<(String, String)>, label: &str) -> (r: String)
    ensures
        r@ == lookup_err(error_pairs_view(errors@), label@),
{
    let n = errors.len();
    let mut j: usize = 0;
    proof {
        assert(error_pairs_view(errors@).skip(0) =~= error_pairs_view(errors@));
    }
    while j < n
        invariant
            n == errors@.len(),
            j <= n,
            lookup_err(error_pairs_view(errors@), label@) == lookup_err(
                error_pairs_view(errors@).skip(j as int),
                label@,
            ),
        decreases n - j,
    {
        proof {
            assert(error_pairs_view(errors@).skip(j as int)[0] == error_pairs_view(errors@)[
                j as int]);
            assert(error_pairs_view(errors@).skip(j as int).drop_first() =~= error_pairs_view(
                errors@,
            ).skip(j + 1));
        }
        if crate::utils::str_eq(errors[j].0.as_str(), label) {
            return errors[j].1.clone();
        }
        j = j + 1;
    }
    proof {
        assert(error_pairs_view(errors@).skip(n as int) =~= Seq::<(Seq<char>, Seq<char>)>::empty());
    }
    String::new()
}

/// A container composing an ordered sequence of fields with the parallel
/// sequence of their rendered widgets, plus a cancel and a submit button.
pub struct FormView {
    fields: Vec<FieldAny>,
    widgets: Vec<FieldWidget>,
    focus: FormFocus,
}

impl FormView {
    /// The form's fields, in declaration order.
    pub closed spec fn fields_view(&self) -> Seq<FieldAny> {
        self.fields@
    }

    /// The fields' widgets, index-aligned with `fields_view`.
    pub closed spec fn widgets_view(&self) -> Seq<FieldWidget> {
        self.widgets@
    }

    /// Which part of the form has input focus.
    pub closed spec fn focus_view(&self) -> FormFocus {
        self.focus
    }

    /// The form's invariant: widgets and fields are index-aligned and each
    /// widget is of its field's kind.
    pub open spec fn wf(&self) -> bool {
        &&& self.widgets_view().len() == self.fields_view().len()
        &&& forall|i: int|
            #![auto]
            0 <= i < self.fields_view().len() ==> self.fields_view()[i].owns_widget(
                self.widgets_view()[i],
            )
        &&& forall|i: int|
            #![auto]
            0 <= i < self.fields_view().len() ==> widget_wf(self.widgets_view()[i].value)
    }

    /// The raw value the widget of field `i` currently holds.
    pub open spec fn raw_at(&self, i: int) -> Seq<char> {
        widget_value(self.widgets_view()[i].value)
    }

    /// Whether every field's validation is a pure function of its raw
    /// value.
    pub open spec fn all_exact(&self) -> bool {
        forall|i: int| #![auto] 0 <= i < self.fields_view().len() ==> self.fields_view()[i].exact()
    }

    /// The label-to-value map collected over the first `n` fields, in
    /// declaration order; meaningful when `all_exact()` holds.
    pub open spec fn spec_data(&self, n: int) -> Seq<(Seq<char>, ValueRepr)>
        decreases n,
    {
        if n <= 0 {
            Seq::empty()
        } else {
            let prev = self.spec_data(n - 1);
            match self.fields_view()[n - 1].spec_validate(self.raw_at(n - 1)) {
                Ok(v) => prev.push((self.fields_view()[n - 1].label_view(), v)),
                Err(_) => prev,
            }
        }
    }

    /// The label-to-message map collected over the first `n` fields.
    pub open spec fn spec_errors(&self, n: int) -> Seq<(Seq<char>, Seq<char>)>
        decreases n,
    {
        if n <= 0 {
            Seq::empty()
        } else {
            let prev = self.spec_errors(n - 1);
            match self.fields_view()[n - 1].spec_validate(self.raw_at(n - 1)) {
                Ok(_) => prev,
                Err(e) => prev.push((self.fields_view()[n - 1].label_view(), e)),
            }
        }
    }

    /// What `validate` returns, when every field is exact: the full data
    /// map if no field fails, else the error map.
    pub open spec fn spec_validate_form(&self) -> Result<
        Seq<(Seq<char>, ValueRepr)>,
        Seq<(Seq<char>, Seq<char>)>,
    > {
        let n = self.fields_view().len() as int;
        if self.spec_errors(n).len() == 0 {
            Ok(self.spec_data(n))
        } else {
            Err(self.spec_errors(n))
        }
    }

    /// Creates an empty form.
    pub fn new() -> (r: Self)
        ensures
            r.wf(),
            r.fields_view() == Seq::<FieldAny>::empty(),
            r.widgets_view() == Seq::<FieldWidget>::empty(),
            r.focus_view() == FormFocus::Field(0),
    {
        FormView { fields: Vec::new(), widgets: Vec::new(), focus: FormFocus::Field(0) }
    }

    /// Appends a field and its freshly built widget to the form.
    pub fn field(self, field: FieldAny) -> (r: Self)
        requires
            self.wf(),
        ensures
            r.wf(),
            r.fields_view() == self.fields_view().push(field),
            r.widgets_view().len() == self.widgets_view().len() + 1,
            forall|i: int|
                #![auto]
                0 <= i < self.widgets_view().len() ==> r.widgets_view()[i] == self.widgets_view()[i],
            field.builds(r.widgets_view().last()),
            r.widgets_view().last().error@ == Seq::<char>::empty(),
            r.focus_view() == self.focus_view(),
    {
        let widget = field.build_widget();
        let mut fields = self.fields;
        let mut widgets = self.widgets;
        fields.push(field);
        widgets.push(widget);
        FormView { fields, widgets, focus: self.focus }
    }

    /// Reads every field's current raw value and runs its validator
    /// chain; returns the ordered label-to-value map when all fields
    /// accept, else the label-to-message map of the failing fields.
    #[verifier::rlimit(80)]
    pub fn validate(&self) -> (r: Result<Vec<(String, Value)>, Vec<(String, String)>>)
        requires
            self.wf(),
        ensures
            self.all_exact() ==> match r {
                Ok(d) => self.spec_validate_form() matches Ok(sd) && data_pairs_view(d@) == sd,
                Err(e) => self.spec_validate_form() matches Err(se) && error_pairs_view(e@) == se,
            },
            r matches Ok(d) ==> d@.len() == self.fields_view().len() && forall|i: int|
                #![trigger d@[i]]
                0 <= i < d@.len() ==> d@[i].0@ == self.fields_view()[i].label_view()
                    && self.fields_view()[i].validate_post(self.raw_at(i), Ok(d@[i].1@)),
            r matches Err(e) ==> e@.len() >= 1 && forall|j: int|
                #![trigger e@[j]]
                0 <= j < e@.len() ==> exists|i: int|
                    #![trigger self.fields_view()[i]]
                    0 <= i < self.fields_view().len() && e@[j].0@ == self.fields_view()[
                        i].label_view() && self.fields_view()[i].validate_post(
                        self.raw_at(i),
                        Err(e@[j].1@),
                    ),
    {
        let n = self.fields.len();
        let mut data: Vec<(String, Value)> = Vec::new();
        let mut errors: Vec<(String, String)> = Vec::new();
        let mut i: usize = 0;
        while i < n
            invariant
                self.wf(),
                n == self.fields@.len(),
                i <= n,
                self.all_exact() ==> data_pairs_view(data@) == self.spec_data(i as int),
                self.all_exact() ==> error_pairs_view(errors@) == self.spec_errors(i as int),
                errors@.len() == 0 ==> data@.len() == i,
                data@.len() <= i,
                forall|j: int|
                    #![trigger data@[j]]
                    0 <= j < data@.len() ==> exists|k: int|
                        #![trigger self.fields_view()[k]]
                        0 <= k < i && data@[j].0@ == self.fields_view()[k].label_view()
                            && self.fields_view()[k].validate_post(self.raw_at(k), Ok(data@[j].1@)),
                errors@.len() == 0 ==> forall|j: int|
                    #![trigger data@[j]]
                    0 <= j < data@.len() ==> data@[j].0@ == self.fields_view()[j].label_view()
                        && self.fields_view()[j].validate_post(self.raw_at(j), Ok(data@[j].1@)),
                forall|j: int|
                    #![trigger errors@[j]]
                    0 <= j < errors@.len() ==> exists|k: int|
                        #![trigger self.fields_view()[k]]
                        0 <= k < i && errors@[j].0@ == self.fields_view()[k].label_view()
                            && self.fields_view()[k].validate_post(
                            self.raw_at(k),
                            Err(errors@[j].1@),
                        ),
            decreases n - i,
        {
            let value = self.fields[i].widget_value_of(&self.widgets[i]);
            let label = self.fields[i].get_label();
            let ghost data_prev = data@;
            let ghost errors_prev = errors@;
            match self.fields[i].validate(value.as_str()) {
                Ok(v) => {
                    data.push((label.to_owned(), v));
                    proof {
                        assert(data_pairs_view(data@) =~= data_pairs_view(data_prev).push(
                            (self.fields_view()[i as int].label_view(), data@.last().1@),
                        ));
                        assert(error_pairs_view(errors@) =~= error_pairs_view(errors_prev));
                        assert(data@.last().0@ == self.fields_view()[i as int].label_view());
                        assert(self.fields_view()[i as int].validate_post(
                            self.raw_at(i as int),
                            Ok(data@.last().1@),
                        ));
                        assert(forall|j: int| 0 <= j < data_prev.len() ==> data@[j] == data_prev[j]);
                    }
                },
                Err(e) => {
                    errors.push((label.to_owned(), e));
                    proof {
                        assert(error_pairs_view(errors@) =~= error_pairs_view(errors_prev).push(
                            (self.fields_view()[i as int].label_view(), errors@.last().1@),
                        ));
                        assert(data_pairs_view(data@) =~= data_pairs_view(data_prev));
                        assert(errors@.last().0@ == self.fields_view()[i as int].label_view());
                        assert(self.fields_view()[i as int].validate_post(
                            self.raw_at(i as int),
                            Err(errors@.last().1@),
                        ));
                        assert(forall|j: int|
                            0 <= j < errors_prev.len() ==> errors@[j] == errors_prev[j]);
                    }
                },
            }
            i = i + 1;
        }
        if errors.is_empty() {
            Ok(data)
        } else {
            Err(errors)
        }
    }

    /// On a failed submit the error slots were painted from a set of
    /// messages of failing fields: each entry names a field and carries a
    /// message its validation can report for the current raw value; each
    /// painting field's slot shows the message stored under its label, or
    /// is cleared when the set holds none; a checkbox's slot stays.
    pub open spec fn painted_from(
        pre: FormView,
        post: FormView,
        errs: Seq<(Seq<char>, Seq<char>)>,
    ) -> bool {
        &&& errs.len() >= 1
        &&& forall|j: int|
            #![trigger errs[j]]
            0 <= j < errs.len() ==> exists|i: int|
                #![trigger pre.fields_view()[i]]
                0 <= i < pre.fields_view().len() && errs[j].0 == pre.fields_view()[i].label_view()
                    && pre.fields_view()[i].validate_post(pre.raw_at(i), Err(errs[j].1))
        &&& forall|i: int|
            #![auto]
            0 <= i < post.widgets_view().len() ==> post.widgets_view()[i].error@ == (
            if pre.fields_view()[i].paints_errors() {
                lookup_err(errs, pre.fields_view()[i].label_view())
            } else {
                pre.widgets_view()[i].error@
            })
    }

    /// What handling a submit request does: on success the widgets stay
    /// untouched and the data map is reported; on failure each failing
    /// field's widget is annotated with its message and each accepting
    /// field's error slot is cleared.
    pub open spec fn submit_post(pre: FormView, post: FormView, r: FormOutcome) -> bool {
        &&& post.fields_view() == pre.fields_view()
        &&& post.focus_view() == pre.focus_view()
        &&& post.widgets_view().len() == pre.widgets_view().len()
        &&& forall|i: int|
            #![auto]
            0 <= i < pre.widgets_view().len() ==> post.widgets_view()[i].value
                == pre.widgets_view()[i].value && post.widgets_view()[i].annotation
                == pre.widgets_view()[i].annotation
        &&& match r {
            FormOutcome::Submitted(d) => {
                &&& post.widgets_view() == pre.widgets_view()
                &&& d@.len() == pre.fields_view().len()
                &&& forall|i: int|
                    #![trigger d@[i]]
                    0 <= i < d@.len() ==> d@[i].0@ == pre.fields_view()[i].label_view()
                        && pre.fields_view()[i].validate_post(pre.raw_at(i), Ok(d@[i].1@))
                &&& pre.all_exact() ==> (pre.spec_validate_form() matches Ok(sd)
                    && data_pairs_view(d@) == sd)
            },
            FormOutcome::Consumed => {
                &&& exists|errs: Seq<(Seq<char>, Seq<char>)>|
                    #![auto]
                    FormView::painted_from(pre, post, errs)
                &&& pre.all_exact() ==> (pre.spec_validate_form() matches Err(se) && forall|i: int|
                    #![auto]
                    0 <= i < post.widgets_view().len() ==> post.widgets_view()[i].error@ == (
                    if pre.fields_view()[i].paints_errors() {
                        lookup_err(se, pre.fields_view()[i].label_view())
                    } else {
                        pre.widgets_view()[i].error@
                    }))
            },
            _ => false,
        }
    }

    /// Handles a submit request: validates, and either reports the data
    /// or paints the error messages in place.
    pub fn event_submit(&mut self) -> (r: FormOutcome)
        requires
            old(self).wf(),
        ensures
            final(self).wf(),
            FormView::submit_post(*old(self), *final(self), r),
    {
        let outcome = self.validate();
        match outcome {
            Ok(data_map) => FormOutcome::Submitted(data_map),
            Err(errors) => {
                let n = self.fields.len();
                let mut i: usize = 0;
                while i < n
                    invariant
                        old(self).wf(),
                        self.fields == old(self).fields,
                        self.focus == old(self).focus,
                        n == self.fields@.len(),
                        i <= n,
                        self.widgets@.len() == old(self).widgets@.len(),
                        forall|j: int|
                            #![auto]
                            0 <= j < self.widgets@.len() ==> self.widgets@[j].value == old(
                                self,
                            ).widgets@[j].value && self.widgets@[j].annotation == old(
                                self,
                            ).widgets@[j].annotation,
                        forall|j: int|
                            #![auto]
                            i <= j < self.widgets@.len() ==> self.widgets@[j] == old(self).widgets@[
                                j],
                        forall|j: int|
                            #![auto]
                            0 <= j < i ==> self.widgets@[j].error@ == (
                            if old(self).fields_view()[j].paints_errors() {
                                lookup_err(
                                    error_pairs_view(errors@),
                                    old(self).fields_view()[j].label_view(),
                                )
                            } else {
                                old(self).widgets_view()[j].error@
                            }),
                    decreases n - i,
                {
                    let e = lookup_error(&errors, self.fields[i].get_label());
                    self.fields[i].set_widget_error(&mut self.widgets[i], e.as_str());
                    i = i + 1;
                }
                proof {
                    assert(FormView::painted_from(*old(self), *self, error_pairs_view(errors@)));
                }
                FormOutcome::Consumed
            },
        }
    }

    /// Handles a cancel request: the cancel follow-up runs, nothing is
    /// validated.
    pub fn event_cancel(&mut self) -> (r: FormOutcome)
        ensures
            *final(self) == *old(self),
            r == FormOutcome::Cancelled,
    {
        FormOutcome::Cancelled
    }

    /// The number of fields of the form.
    pub fn field_count(&self) -> (r: usize)
        ensures
            r == self.fields_view().len(),
    {
        self.fields.len()
    }

    /// The annotation line of field `i`.
    pub fn annotation_at(&self, i: usize) -> (r: String)
        requires
            i < self.widgets_view().len(),
        ensures
            r@ == self.widgets_view()[i as int].annotation@,
    {
        self.widgets[i].annotation.clone()
    }

    /// The error line of field `i`.
    pub fn error_at(&self, i: usize) -> (r: String)
        requires
            i < self.widgets_view().len(),
        ensures
            r@ == self.widgets_view()[i as int].error@,
    {
        self.widgets[i].error.clone()
    }

    /// The raw value the widget of field `i` currently holds.
    pub fn raw_value_at(&self, i: usize) -> (r: String)
        requires
            self.wf(),
            i < self.widgets_view().len(),
        ensures
            r@ == self.raw_at(i as int),
    {
        self.fields[i].widget_value_of(&self.widgets[i])
    }

    /// Moves the form's input focus.
    pub fn set_focus(&mut self, focus: FormFocus)
        ensures
            final(self).fields_view() == old(self).fields_view(),
            final(self).widgets_view() == old(self).widgets_view(),
            final(self).focus_view() == focus,
    {
        self.focus = focus;
    }

    /// Handles one input event: the submit key acts as the focused button,
    /// the submit shortcut always submits, everything else reaches the
    /// focused field's widget.
    pub fn on_event(&mut self, event: InputEvent) -> (r: FormOutcome)
        requires
            old(self).wf(),
        ensures
            final(self).wf(),
            match event {
                InputEvent::Enter => match old(self).focus_view() {
                    FormFocus::Cancel => r == FormOutcome::Cancelled && *final(self) == *old(self),
                    FormFocus::Submit => FormView::submit_post(*old(self), *final(self), r),
                    FormFocus::Field(_) => r == FormOutcome::Consumed || r == FormOutcome::Ignored,
                },
                InputEvent::SubmitShortcut => FormView::submit_post(*old(self), *final(self), r),
                _ => r == FormOutcome::Consumed || r == FormOutcome::Ignored,
            },
            match event {
                InputEvent::Enter => old(self).focus_view() matches FormFocus::Field(_)
                    ==> FormView::forward_post(*old(self), *final(self), event),
                InputEvent::SubmitShortcut => true,
                _ => FormView::forward_post(*old(self), *final(self), event),
            },
    {
        match event {
            InputEvent::Enter => {
                match self.focus {
                    FormFocus::Cancel => self.event_cancel(),
                    FormFocus::Submit => self.event_submit(),
                    FormFocus::Field(_) => self.forward_to_focused(event),
                }
            },
            InputEvent::SubmitShortcut => self.event_submit(),
            _ => self.forward_to_focused(event),
        }
    }

    /// What forwarding an event to the focused field does: that field's
    /// widget reacts to it, every other part of the form stays as it was.
    pub open spec fn forward_post(pre: FormView, post: FormView, event: InputEvent) -> bool {
        &&& post.fields_view() == pre.fields_view()
        &&& post.focus_view() == pre.focus_view()
        &&& post.widgets_view().len() == pre.widgets_view().len()
        &&& match pre.focus_view() {
            FormFocus::Field(i) => if i < pre.widgets_view().len() {
                &&& (widget_event_post(
                    pre.widgets_view()[i as int].value,
                    post.widgets_view()[i as int].value,
                    event,
                    true,
                ) || widget_event_post(
                    pre.widgets_view()[i as int].value,
                    post.widgets_view()[i as int].value,
                    event,
                    false,
                ))
                &&& forall|j: int|
                    #![auto]
                    0 <= j < pre.widgets_view().len() && j != i ==> post.widgets_view()[j]
                        == pre.widgets_view()[j]
            } else {
                post.widgets_view() == pre.widgets_view()
            },
            _ => post.widgets_view() == pre.widgets_view(),
        }
    }

    /// Forwards an input event to the focused field's widget, if there is
    /// one.
    fn forward_to_focused(&mut self, event: InputEvent) -> (r: FormOutcome)
        requires
            old(self).wf(),
        ensures
            final(self).wf(),
            FormView::forward_post(*old(self), *final(self), event),
            r == FormOutcome::Consumed || r == FormOutcome::Ignored,
    {
        match self.focus {
            FormFocus::Field(i) => {
                if i < self.widgets.len() {
                    let consumed = value_widget_event(&mut self.widgets[i].value, event);
                    if consumed {
                        FormOutcome::Consumed
                    } else {
                        FormOutcome::Ignored
                    }
                } else {
                    FormOutcome::Ignored
                }
            },
            _ => FormOutcome::Ignored,
        }
    }
}

/// Law: validating a form is a pure function of its current widget state,
/// so validating twice without an intervening widget mutation gives the
/// same answer both times.  It holds of forms whose validators answer
/// without asking the filesystem; `validate`'s contract ties each call's
/// answer to `spec_validate_form`, of which this is the uniqueness.
pub proof fn lemma_validate_idempotent(
    f: FormView,
    r1: Result<Seq<(Seq<char>, ValueRepr)>, Seq<(Seq<char>, Seq<char>)>>,
    r2: Result<Seq<(Seq<char>, ValueRepr)>, Seq<(Seq<char>, Seq<char>)>>,
)
    requires
        f.all_exact(),
        r1 == f.spec_validate_form(),
        r2 == f.spec_validate_form(),
    ensures
        r1 == r2,
{
}

} // verus!
