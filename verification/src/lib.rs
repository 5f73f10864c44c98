//! Form-based user interfaces for terminal programs.
//!
//! A program declares a list of named actions, each backed by a form of
//! typed fields (text, checkbox, autocomplete, multiselect).  The library
//! models the widget state of every field, validates submitted values and
//! hands the resulting structured data to the action's handler.

use vstd::prelude::*;

pub mod feeders;
pub mod fields;
pub mod form;
pub mod utils;
pub mod validators;
pub mod views;

verus! {

/// A typed value produced by a submitted form field: a string, a boolean
/// or a list of strings.
#[derive(Clone, Debug, PartialEq)]
pub enum Value {
    Str(String),
    Bool(bool),
    List(Vec<String>),
}

/// Mathematical model of a [`Value`].
pub enum ValueRepr {
    Str(Seq<char>),
    Bool(bool),
    List(Seq<Seq<char>>),
}

impl View for Value {
    type V = ValueRepr;

    open spec fn view(&self) -> ValueRepr {
        match self {
            Value::Str(s) => ValueRepr::Str(s@),
            Value::Bool(b) => ValueRepr::Bool(*b),
            Value::List(items) => ValueRepr::List(items.deep_view()),
        }
    }
}

/// One stage of the top-level flow: pick an action, fill its form, then
/// either the handler runs or the user cancelled.
#[derive(Clone, Copy, Debug, PartialEq, Eq, Structural)]
pub enum FlowStage {
    /// The action picker is on screen.
    PickingAction,
    /// The form of the action at this index is on screen.
    FillingForm(usize),
    /// The form of the action at this index was submitted: its handler is
    /// to run exactly once with the validated data.
    Done(usize),
    /// The user cancelled; no handler runs.
    Cancelled,
}

/// The position of the first occurrence of `d` in `descs`, or the length
/// when there is none.
pub open spec fn first_index_of(descs: Seq<Seq<char>>, d: Seq<char>) -> int
    decreases descs.len(),
{
    if descs.len() == 0 {
        0
    } else if descs[0] == d {
        0
    } else {
        1 + first_index_of(descs.drop_first(), d)
    }
}

/// Whether `d` occurs in `descs`.
pub open spec fn has_desc(descs: Seq<Seq<char>>, d: Seq<char>) -> bool {
    exists|i: int| 0 <= i < descs.len() && descs[i] == d
}

proof fn lemma_first_index(descs: Seq<Seq<char>>, d: Seq<char>, i: int)
    requires
        0 <= i < descs.len(),
        descs[i] == d,
        forall|j: int| 0 <= j < i ==> descs[j] != d,
    ensures
        first_index_of(descs, d) == i,
    decreases descs.len(),
{
    if descs[0] == d {
        assert(i == 0);
    } else {
        assert(i >= 1);
        assert(descs.drop_first()[i - 1] == d);
        assert(forall|j: int| 0 <= j < i - 1 ==> descs.drop_first()[j] != d);
        lemma_first_index(descs.drop_first(), d, i - 1);
    }
}

/// Copies a list of strings.
fn copy_strings(v: &Vec<String>) -> (r: Vec<String>)
    ensures
        r.deep_view() == v.deep_view(),
{
    let n = v.len();
    let mut out: Vec<String> = Vec::new();
    let mut i: usize = 0;
    while i < n
        invariant
            n == v@.len(),
            i <= n,
            out@.len() == i,
            forall|j: int| 0 <= j < i ==> out@[j] == v@[j],
        decreases n - i,
    {
        out.push(v[i].clone());
        i = i + 1;
    }
    proof {
        assert(out.deep_view() =~= v.deep_view());
    }
    out
}

/// Top level building block: gathers the program's actions, each a
/// description and a form.  The handler of each action stays with the
/// embedding program, at the same index.
pub struct Fui {
    descs: Vec<String>,
    forms: Vec<form::FormView>,
}

impl Fui {
    /// The action descriptions, in registration order.
    pub closed spec fn descs_view(&self) -> Seq<Seq<char>> {
        self.descs.deep_view()
    }

    /// The action forms, index-aligned with `descs_view`.
    pub closed spec fn forms_view(&self) -> Seq<form::FormView> {
        self.forms@
    }

    /// The invariant: one form per description, each well formed.
    pub open spec fn wf(&self) -> bool {
        &&& self.descs_view().len() == self.forms_view().len()
        &&& forall|i: int|
            #![auto]
            0 <= i < self.forms_view().len() ==> self.forms_view()[i].wf()
    }

    /// Creates a new `Fui` with empty actions.
    pub fn new() -> (r: Self)
        ensures
            r.wf(),
            r.descs_view() == Seq::<Seq<char>>::empty(),
    {
        let r = Fui { descs: Vec::new(), forms: Vec::new() };
        proof {
            assert(r.descs_view() =~= Seq::<Seq<char>>::empty());
        }
        r
    }

    /// Defines an action by providing its description and form.
    pub fn action(self, desc: &str, form: form::FormView) -> (r: Self)
        requires
            self.wf(),
            form.wf(),
        ensures
            r.wf(),
            r.descs_view() == self.descs_view().push(desc@),
            r.forms_view() == self.forms_view().push(form),
    {
        let mut descs = self.descs;
        let mut forms = self.forms;
        let ghost old_descs = descs.deep_view();
        descs.push(desc.to_owned());
        forms.push(form);
        let r = Fui { descs, forms };
        proof {
            assert(r.descs_view() =~= old_descs.push(desc@));
        }
        r
    }

    /// The number of configured actions.
    pub fn action_count(&self) -> (r: usize)
        ensures
            r == self.descs_view().len(),
    {
        self.descs.len()
    }

    /// Builds the action picker: a form with one autocomplete field
    /// labelled `action`, fed by the descriptions and checked by a
    /// one-of-them validator, so arbitrary text cannot pick a nonexistent
    /// action.
    pub fn picker_form(&self) -> (r: form::FormView)
        ensures
            r.wf(),
            r.all_exact(),
            r.fields_view().len() == 1,
            r.fields_view()[0] matches fields::FieldAny::Autocomplete(f) && f.label_view()
                == "action"@ && f.validators_view().len() == 1 && (f.validators_view()[0] matches
            validators::ValidatorAny::OneOf(o) && o.0.deep_view() == self.descs_view()),
    {
        let field = fields::Autocomplete::new("action", feeders::FeederAny::List(copy_strings(&self.descs)))
            .help("Pick action")
            .validator(validators::ValidatorAny::OneOf(validators::OneOf(copy_strings(&self.descs))));
        let r = form::FormView::new().field(fields::FieldAny::Autocomplete(field));
        proof {
            assert(r.fields_view()[0] matches fields::FieldAny::Autocomplete(f) && f.validators_view()[0]
                matches validators::ValidatorAny::OneOf(_));
        }
        r
    }

    /// The index of the first action whose description equals `desc`.
    pub fn action_index(&self, desc: &str) -> (r: Option<usize>)
        ensures
            match r {
                Some(i) => has_desc(self.descs_view(), desc@) && i == first_index_of(
                    self.descs_view(),
                    desc@,
                ) && i < self.descs_view().len() && self.descs_view()[i as int] == desc@,
                None => !has_desc(self.descs_view(), desc@),
            },
    {
        let n = self.descs.len();
        let mut i: usize = 0;
        while i < n
            invariant
                n == self.descs@.len(),
                i <= n,
                forall|j: int| 0 <= j < i ==> self.descs.deep_view()[j] != desc@,
            decreases n - i,
        {
            if utils::str_eq(self.descs[i].as_str(), desc) {
                proof {
                    assert(self.descs_view()[i as int] == desc@);
                    lemma_first_index(self.descs_view(), desc@, i as int);
                }
                return Some(i);
            }
            i = i + 1;
        }
        None
    }

    /// Picker stage, a description submitted: the flow moves to that
    /// action's form, or stays at the picker for an unknown description.
    pub fn on_action_picked(&self, stage: FlowStage, submitted: &str) -> (r: FlowStage)
        requires
            stage == FlowStage::PickingAction,
        ensures
            r == if has_desc(self.descs_view(), submitted@) {
                FlowStage::FillingForm(first_index_of(self.descs_view(), submitted@) as usize)
            } else {
                FlowStage::PickingAction
            },
    {
        match self.action_index(submitted) {
            Some(i) => FlowStage::FillingForm(i),
            None => FlowStage::PickingAction,
        }
    }

    /// Picker stage, the user cancelled: the flow ends, no handler runs.
    pub fn on_pick_cancel(&self, stage: FlowStage) -> (r: FlowStage)
        requires
            stage == FlowStage::PickingAction,
        ensures
            r == FlowStage::Cancelled,
    {
        FlowStage::Cancelled
    }

    /// Form stage, valid data submitted: the flow is done and the
    /// action's handler is to run exactly once with the data.
    pub fn on_form_submitted(&self, stage: FlowStage) -> (r: FlowStage)
        requires
            stage matches FlowStage::FillingForm(i) && i < self.forms_view().len(),
        ensures
            r == FlowStage::Done(stage->FillingForm_0),
    {
        match stage {
            FlowStage::FillingForm(i) => FlowStage::Done(i),
            _ => {
                proof {
                    assert(false);
                }
                FlowStage::Cancelled
            },
        }
    }

    /// Form stage, the user cancelled: the flow ends, no handler runs.
    /// (Returning to the picker instead would be a product change.)
    pub fn on_form_cancel(&self, stage: FlowStage) -> (r: FlowStage)
        requires
            stage matches FlowStage::FillingForm(_),
        ensures
            r == FlowStage::Cancelled,
    {
        FlowStage::Cancelled
    }

    /// Borrows the form of action `i`, to drive its events.
    pub fn form_mut(&mut self, i: usize) -> (r: &mut form::FormView)
        requires
            old(self).wf(),
            i < old(self).forms_view().len(),
        ensures
            *r == old(self).forms_view()[i as int],
            final(self).forms_view() == old(self).forms_view().update(i as int, *final(r)),
            final(self).descs_view() == old(self).descs_view(),
    {
        &mut self.forms[i]
    }
}

} // verus!
