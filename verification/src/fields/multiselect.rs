//! A list-of-strings field rendered as a multiselect widget.
//!
//! The field's raw value is the comma-joined form of the chosen items, so
//! items must not themselves contain commas.

use vstd::prelude::*;
use vstd::string::StrSliceExecFns;
use vstd::string::StringExecFns;

use crate::feeders::FeederAny;
use crate::fields::{
    annotation_of, chain_exact, chain_outcome, chain_post, label_with_help_layout, res_view,
    run_validators, widget_wf, Field, FieldWidget, ValueWidget, WidgetManager,
};
use crate::utils::{all_whitespace, is_blank, push_char};
use crate::validators::ValidatorAny;
use crate::views;
use crate::{Value, ValueRepr};

verus! {

/// The comma-joined form of a list of items.
pub open spec fn join_comma(items: Seq<Seq<char>>) -> Seq<char>
    decreases items.len(),
{
    if items.len() == 0 {
        Seq::empty()
    } else if items.len() == 1 {
        items[0]
    } else {
        items[0] + seq![','] + join_comma(items.drop_first())
    }
}

/// The comma-separated parts of a string; the empty string has one empty
/// part, like `str::split`.
pub open spec fn split_comma(s: Seq<char>) -> Seq<Seq<char>>
    decreases s.len(),
{
    if s.len() == 0 {
        seq![Seq::<char>::empty()]
    } else {
        let rest = split_comma(s.drop_first());
        if s[0] == ',' {
            seq![Seq::<char>::empty()] + rest
        } else {
            seq![seq![s[0]] + rest[0]] + rest.drop_first()
        }
    }
}

proof fn lemma_split_comma_nonempty(s: Seq<char>)
    ensures
        split_comma(s).len() >= 1,
    decreases s.len(),
{
    if s.len() > 0 {
        lemma_split_comma_nonempty(s.drop_first());
    }
}

proof fn lemma_join_comma_push(items: Seq<Seq<char>>, x: Seq<char>)
    ensures
        join_comma(items.push(x)) == if items.len() == 0 {
            x
        } else {
            join_comma(items) + seq![','] + x
        },
    decreases items.len(),
{
    if items.len() == 0 {
        assert(items.push(x)[0] == x);
        assert(join_comma(items.push(x)) == x);
    } else {
        assert(items.push(x)[0] == items[0]);
        assert(items.push(x).drop_first() =~~= items.drop_first().push(x));
        lemma_join_comma_push(items.drop_first(), x);
        if items.len() == 1 {
            assert(join_comma(items.push(x)) =~~= join_comma(items) + seq![','] + x);
        } else {
            assert(join_comma(items.push(x)) =~~= join_comma(items) + seq![','] + x);
        }
    }
}

/// Joins items with commas, the inverse of [`split_comma_vec`] for items
/// free of commas.
pub fn join_comma_strs(items: &Vec<String>) -> (r: String)
    ensures
        r@ == join_comma(items.deep_view()),
{
    let mut r = String::new();
    let n = items.len();
    let mut i: usize = 0;
    while i < n
        invariant
            n == items@.len(),
            i <= n,
            r@ == join_comma(items.deep_view().take(i as int)),
        decreases n - i,
    {
        proof {
            assert(items.deep_view().take(i + 1) =~~= items.deep_view().take(i as int).push(
                items.deep_view()[i as int],
            ));
            lemma_join_comma_push(items.deep_view().take(i as int), items.deep_view()[i as int]);
        }
        if i > 0 {
            push_char(&mut r, ',');
        }
        r.append(items[i].as_str());
        proof {
            assert(r@ =~~= join_comma(items.deep_view().take(i + 1)));
        }
        i = i + 1;
    }
    proof {
        assert(items.deep_view().take(n as int) =~~= items.deep_view());
    }
    r
}

/// The parts of `parts` with `prefix` prepended to the first one.
spec fn shift_first(parts: Seq<Seq<char>>, prefix: Seq<char>) -> Seq<Seq<char>> {
    seq![prefix + parts[0]] + parts.drop_first()
}

/// Splits `s` at commas, like `str::split(',')`.
pub fn split_comma_vec(s: &str) -> (r: Vec<String>)
    ensures
        r.deep_view() == split_comma(s@),
        r@.len() >= 1,
{
    let n = s.unicode_len();
    let mut out: Vec<String> = Vec::new();
    let mut cur = String::new();
    let mut i: usize = 0;
    proof {
        lemma_split_comma_nonempty(s@);
        assert(s@.skip(0) =~~= s@);
        assert(split_comma(s@) =~~= out.deep_view() + shift_first(split_comma(s@.skip(0)), cur@));
    }
    while i < n
        invariant
            n == s@.len(),
            i <= n,
            split_comma(s@) == out.deep_view() + shift_first(split_comma(s@.skip(i as int)), cur@),
        decreases n - i,
    {
        let c = s.get_char(i);
        proof {
            lemma_split_comma_nonempty(s@.skip(i + 1));
            assert(s@.skip(i as int)[0] == s@[i as int]);
            assert(s@.skip(i as int).drop_first() =~~= s@.skip(i + 1));
            assert(s@.skip(i as int).len() > 0);
        }
        if c == ',' {
            out.push(cur);
            cur = String::new();
            proof {
                assert(split_comma(s@) =~~= out.deep_view() + shift_first(
                    split_comma(s@.skip(i + 1)),
                    cur@,
                ));
            }
        } else {
            push_char(&mut cur, c);
            proof {
                assert(split_comma(s@) =~~= out.deep_view() + shift_first(
                    split_comma(s@.skip(i + 1)),
                    cur@,
                ));
            }
        }
        i = i + 1;
    }
    proof {
        assert(s@.skip(n as int) =~~= Seq::<char>::empty());
    }
    out.push(cur);
    proof {
        assert(out.deep_view() =~~= split_comma(s@));
    }
    out
}

/// Convenient wrapper around `Field<MultiselectManager, Vec<String>>`.
pub struct Multiselect;

impl Multiselect {
    /// Creates a new `Field<MultiselectManager, Vec<String>>` over
    /// `feeder`, with no items initially chosen.
    pub fn new(label: &str, feeder: FeederAny) -> (r: Field<MultiselectManager, Vec<String>>)
        ensures
            r.label_view() == label@,
            r.help_view() == Seq::<char>::empty(),
            r.initial_view()@.len() == 0,
            r.validators_view() == Seq::<ValidatorAny>::empty(),
            r.manager_view().feeder_view() == feeder,
    {
        let mngr = MultiselectManager { feeder };
        Field::new(label, mngr, Vec::new())
    }
}

/// Bridges a list field to a multiselect widget fed by a [`FeederAny`].
#[derive(Clone)]
pub struct MultiselectManager {
    feeder: FeederAny,
}

impl MultiselectManager {
    /// The feeder handed to every widget this manager builds.
    pub closed spec fn feeder_view(&self) -> FeederAny {
        self.feeder
    }
}

impl WidgetManager for MultiselectManager {
    open spec fn owns(&self, v: ValueWidget) -> bool {
        v matches ValueWidget::Multi(_)
    }

    open spec fn build_pre(&self, initial: Seq<char>) -> bool {
        true
    }

    open spec fn built(&self, initial: Seq<char>, v: ValueWidget) -> bool {
        v matches ValueWidget::Multi(m) && m.selected_view() == if is_blank(initial) {
            Seq::<Seq<char>>::empty()
        } else {
            split_comma(initial)
        }
    }

    open spec fn paints_errors(&self) -> bool {
        true
    }

    fn build_value_view(&self, value: &str) -> (v: ValueWidget) {
        let mut widget = views::Multiselect::new(self.feeder.clone());
        if !all_whitespace(value) {
            let items = split_comma_vec(value);
            widget.select_items(items);
            proof {
                assert(widget.selected_view() =~~= split_comma(value@));
            }
        }
        ValueWidget::Multi(widget)
    }

    fn build_widget(&self, label: &str, help: &str, initial: &str) -> (w: FieldWidget) {
        let view = self.build_value_view(initial);
        label_with_help_layout(view, label, help)
    }

    fn get_value(&self, w: &FieldWidget) -> (r: String) {
        match &w.value {
            ValueWidget::Multi(m) => {
                let items = m.get_selected_items();
                join_comma_strs(&items)
            },
            _ => {
                proof {
                    assert(false);
                }
                String::new()
            },
        }
    }

    fn set_error(&self, w: &mut FieldWidget, error: &str) {
        w.error = error.to_owned();
    }
}

/// The first failing (item, validator) pair's message over all parts of a
/// list field's raw value, items outermost; meaningful when the chain is
/// exact.
pub open spec fn multi_chain_outcome(vs: Seq<ValidatorAny>, items: Seq<Seq<char>>) -> Option<
    Seq<char>,
>
    decreases items.len(),
{
    if items.len() == 0 {
        None
    } else {
        match chain_outcome(vs, items[0]) {
            Some(e) => Some(e),
            None => multi_chain_outcome(vs, items.drop_first()),
        }
    }
}

/// What validating a raw string of a list field gives: the items between
/// commas, each run through the validator chain.
pub open spec fn multiselect_outcome(vs: Seq<ValidatorAny>, raw: Seq<char>) -> Result<
    ValueRepr,
    Seq<char>,
> {
    match multi_chain_outcome(vs, split_comma(raw)) {
        Some(e) => Err(e),
        None => Ok(ValueRepr::List(split_comma(raw))),
    }
}

impl Field<MultiselectManager, Vec<String>> {
    /// Builds the widget representing this field, with the initial items
    /// already chosen.
    pub fn build_widget(&self) -> (w: FieldWidget)
        ensures
            self.manager_view().owns(w.value),
            widget_wf(w.value),
            self.manager_view().built(join_comma(self.initial_view().deep_view()), w.value),
            w.annotation@ == annotation_of(self.label_view(), self.help_view()),
            w.error@ == Seq::<char>::empty(),
    {
        let initial = join_comma_strs(&self.initial);
        self.widget_manager.build_widget(self.label.as_str(), self.help.as_str(), initial.as_str())
    }

    /// Splits `data` at commas and validates each item with the field's
    /// chain; acceptance turns the items into a list value.
    pub fn validate(&self, data: &str) -> (r: Result<Value, String>)
        ensures
            chain_exact(self.validators_view()) ==> res_view(r) == multiselect_outcome(
                self.validators_view(),
                data@,
            ),
            r matches Ok(v) ==> v@ == ValueRepr::List(split_comma(data@)) && forall|k: int|
                #![auto]
                0 <= k < split_comma(data@).len() ==> chain_post(
                    self.validators_view(),
                    split_comma(data@)[k],
                    None,
                ),
            r matches Err(e) ==> exists|k: int|
                0 <= k < split_comma(data@).len() && chain_post(
                    self.validators_view(),
                    split_comma(data@)[k],
                    Some(e@),
                ),
    {
        let items = split_comma_vec(data);
        let n = items.len();
        let mut k: usize = 0;
        proof {
            assert(items.deep_view().skip(0) =~= items.deep_view());
        }
        while k < n
            invariant
                n == items@.len(),
                items.deep_view() == split_comma(data@),
                k <= n,
                chain_exact(self.validators_view()) ==> multi_chain_outcome(
                    self.validators_view(),
                    items.deep_view(),
                ) == multi_chain_outcome(self.validators_view(), items.deep_view().skip(k as int)),
                forall|j: int|
                    #![auto]
                    0 <= j < k ==> chain_post(
                        self.validators_view(),
                        items.deep_view()[j],
                        None,
                    ),
            decreases n - k,
        {
            proof {
                assert(items.deep_view().skip(k as int)[0] == items.deep_view()[k as int]);
                assert(items.deep_view().skip(k as int).drop_first() =~~= items.deep_view().skip(
                    k + 1,
                ));
            }
            match run_validators(&self.validators, items[k].as_str()) {
                Some(e) => {
                    return Err(e);
                },
                None => {},
            }
            k = k + 1;
        }
        proof {
            assert(items.deep_view().skip(n as int) =~~= Seq::<Seq<char>>::empty());
        }
        Ok(Value::List(items))
    }
}

impl<W> Field<W, Vec<String>> {
    /// Sets the initial value of the field.
    pub fn initial(self, initial: Vec<String>) -> (r: Self)
        ensures
            r.initial_view()@ == initial@,
            r.label_view() == self.label_view(),
            r.help_view() == self.help_view(),
            r.validators_view() == self.validators_view(),
            r.manager_view() == self.manager_view(),
    {
        Field {
            label: self.label,
            help: self.help,
            initial,
            validators: self.validators,
            widget_manager: self.widget_manager,
        }
    }
}

} // verus!
