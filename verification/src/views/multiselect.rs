//! The multiselect widget: a candidate picker (an [`Autocomplete`]) beside
//! a list of already-chosen items, supporting select and deselect.

use vstd::prelude::*;

use crate::feeders::FeederAny;
use crate::views::autocomplete::{AcOutcome, Autocomplete};
use crate::views::InputEvent;

verus! {

/// Which pane of the widget has input focus.
#[derive(Clone, Copy, Debug, PartialEq, Eq, Structural)]
pub enum MsFocus {
    /// The candidate picker.
    Options,
    /// The chosen-items list.
    Selected,
}

/// How the widget answered an input event.
#[derive(Clone, Debug, PartialEq)]
pub enum MsOutcome {
    /// The event was handled; nothing to report.
    Consumed,
    /// An item was moved into the chosen list.
    Selected(String),
    /// An item was removed from the chosen list.
    Deselected(String),
    /// The event was not handled.
    Ignored,
}

/// The state of a multiselect widget.
pub struct Multiselect {
    options: Autocomplete,
    selected: Vec<String>,
    selected_sel: usize,
    focus: MsFocus,
    select_anything: bool,
    redundant_selection: bool,
}

impl Multiselect {
    /// The candidate-picker pane.
    pub closed spec fn options_view(&self) -> Autocomplete {
        self.options
    }

    /// The chosen items, in insertion order.
    pub closed spec fn selected_view(&self) -> Seq<Seq<char>> {
        self.selected.deep_view()
    }

    /// The highlighted index of the chosen-items list.
    pub closed spec fn highlight(&self) -> int {
        self.selected_sel as int
    }

    /// Which pane has input focus.
    pub closed spec fn focus_view(&self) -> MsFocus {
        self.focus
    }

    /// Whether values outside the candidate list may be chosen.
    pub closed spec fn can_select_anything(&self) -> bool {
        self.select_anything
    }

    /// Whether one item may be chosen more than once.
    pub closed spec fn allows_redundant(&self) -> bool {
        self.redundant_selection
    }

    /// The widget's invariant: the picker is well formed and the highlight
    /// stays inside the chosen-items list.
    pub open spec fn wf(&self) -> bool {
        &&& self.options_view().wf()
        &&& (self.highlight() < self.selected_view().len() || (self.selected_view().len() == 0
            && self.highlight() == 0))
    }

    /// A new widget over `feeder`: empty choice list, focus on the picker,
    /// duplicates and free-form values refused.
    pub fn new(feeder: FeederAny) -> (r: Self)
        ensures
            r.wf(),
            r.selected_view() == Seq::<Seq<char>>::empty(),
            r.focus_view() == MsFocus::Options,
            !r.can_select_anything(),
            !r.allows_redundant(),
            r.options_view().text_view() == Seq::<char>::empty(),
    {
        Multiselect {
            options: Autocomplete::new(feeder),
            selected: Vec::new(),
            selected_sel: 0,
            focus: MsFocus::Options,
            select_anything: false,
            redundant_selection: false,
        }
    }

    /// Returns a vec with the selected items.
    pub fn get_selected_items(&self) -> (r: Vec<String>)
        ensures
            r.deep_view() == self.selected_view(),
    {
        let n = self.selected.len();
        let mut found: Vec<String> = Vec::new();
        let mut idx: usize = 0;
        while idx < n
            invariant
                n == self.selected@.len(),
                idx <= n,
                found@.len() == idx,
                forall|j: int| 0 <= j < idx ==> found@[j] == self.selected@[j],
            decreases n - idx,
        {
            found.push(self.selected[idx].clone());
            idx = idx + 1;
        }
        proof {
            assert(found.deep_view() =~= self.selected.deep_view());
        }
        found
    }

    /// Makes `items` selected, appended in order to the chosen list.
    pub fn select_items(&mut self, items: Vec<String>)
        requires
            old(self).wf(),
        ensures
            final(self).wf(),
            final(self).selected_view() == old(self).selected_view() + items.deep_view(),
            final(self).options_view() == old(self).options_view(),
            final(self).focus_view() == old(self).focus_view(),
            final(self).highlight() == old(self).highlight(),
            final(self).can_select_anything() == old(self).can_select_anything(),
            final(self).allows_redundant() == old(self).allows_redundant(),
    {
        let n = items.len();
        let ghost base = old(self).selected@;
        let mut idx: usize = 0;
        while idx < n
            invariant
                n == items@.len(),
                idx <= n,
                old(self).wf(),
                self.selected@.len() == base.len() + idx,
                forall|j: int| 0 <= j < base.len() ==> self.selected@[j] == base[j],
                forall|j: int| 0 <= j < idx ==> self.selected@[base.len() + j] == items@[j],
                self.options == old(self).options,
                self.focus == old(self).focus,
                self.selected_sel == old(self).selected_sel,
                self.select_anything == old(self).select_anything,
                self.redundant_selection == old(self).redundant_selection,
            decreases n - idx,
        {
            self.selected.push(items[idx].clone());
            idx = idx + 1;
        }
        proof {
            assert(self.selected.deep_view() =~= old(self).selected.deep_view()
                + items.deep_view());
        }
    }

    /// Checks if value is already selected.
    pub fn is_value_selected(&self, to_check: &str) -> (r: bool)
        ensures
            r == self.selected_view().contains(to_check@),
    {
        crate::views::is_value_from_select(&self.selected, to_check)
    }

    /// Allows submitting values outside of completion.
    pub fn select_anything(self) -> (r: Self)
        ensures
            r.can_select_anything(),
            r.allows_redundant() == self.allows_redundant(),
            r.selected_view() == self.selected_view(),
            r.options_view() == self.options_view(),
            r.focus_view() == self.focus_view(),
            r.highlight() == self.highlight(),
    {
        Multiselect {
            options: self.options,
            selected: self.selected,
            selected_sel: self.selected_sel,
            focus: self.focus,
            select_anything: true,
            redundant_selection: self.redundant_selection,
        }
    }

    /// Allows selecting a single item many times.
    pub fn redundant_selection(self) -> (r: Self)
        ensures
            r.allows_redundant(),
            r.can_select_anything() == self.can_select_anything(),
            r.selected_view() == self.selected_view(),
            r.options_view() == self.options_view(),
            r.focus_view() == self.focus_view(),
            r.highlight() == self.highlight(),
    {
        Multiselect {
            options: self.options,
            selected: self.selected,
            selected_sel: self.selected_sel,
            focus: self.focus,
            select_anything: self.select_anything,
            redundant_selection: true,
        }
    }

    /// Moves the picker's current text into the chosen list.
    fn select_item(&mut self) -> (r: String)
        requires
            old(self).wf(),
        ensures
            final(self).wf(),
            r@ == old(self).options_view().text_view(),
            final(self).selected_view() == old(self).selected_view().push(r@),
            final(self).options_view() == old(self).options_view(),
            final(self).focus_view() == old(self).focus_view(),
            final(self).highlight() == old(self).highlight(),
            final(self).can_select_anything() == old(self).can_select_anything(),
            final(self).allows_redundant() == old(self).allows_redundant(),
    {
        let selected_text = self.options.get_value();
        self.selected.push(selected_text.clone());
        proof {
            assert(self.selected.deep_view() =~= old(self).selected.deep_view().push(
                selected_text@,
            ));
        }
        selected_text
    }

    /// Whether an attempt to choose the picker's current text succeeds: the
    /// text is non-empty, it is free-form-allowed or a visible candidate,
    /// and it is not a refused duplicate.
    pub open spec fn select_allowed(&self) -> bool {
        &&& self.options_view().text_view().len() > 0
        &&& (self.can_select_anything() || self.options_view().items_view().contains(
            self.options_view().text_view(),
        ))
        &&& (self.allows_redundant() || !self.selected_view().contains(
            self.options_view().text_view(),
        ))
    }

    /// Returns the successfully selected item or `None`.
    fn try_select_item(&mut self) -> (r: Option<String>)
        requires
            old(self).wf(),
        ensures
            final(self).wf(),
            final(self).options_view() == old(self).options_view(),
            final(self).focus_view() == old(self).focus_view(),
            final(self).highlight() == old(self).highlight(),
            final(self).can_select_anything() == old(self).can_select_anything(),
            final(self).allows_redundant() == old(self).allows_redundant(),
            if old(self).select_allowed() {
                r matches Some(v) && v@ == old(self).options_view().text_view() && final(self).selected_view() == old(self).selected_view().push(v@)
            } else {
                r is None && final(self).selected_view() == old(self).selected_view()
            },
    {
        let typed_value = self.options.get_value();
        let from_select = self.options.is_value_from_select(typed_value.as_str());
        if !typed_value.as_str().is_empty() && (self.select_anything || from_select) {
            if !self.redundant_selection && self.is_value_selected(typed_value.as_str()) {
                None
            } else {
                Some(self.select_item())
            }
        } else {
            None
        }
    }

    /// Removes the highlighted entry of the chosen list, clamping the
    /// highlight to the shortened list.
    fn deselect_item(&mut self) -> (r: Option<String>)
        requires
            old(self).wf(),
        ensures
            final(self).wf(),
            final(self).options_view() == old(self).options_view(),
            final(self).focus_view() == old(self).focus_view(),
            final(self).can_select_anything() == old(self).can_select_anything(),
            final(self).allows_redundant() == old(self).allows_redundant(),
            if old(self).selected_view().len() > 0 {
                r matches Some(v) && v@ == old(self).selected_view()[old(self).highlight()]
                    && final(self).selected_view() == old(self).selected_view().remove(
                    old(self).highlight(),
                )
            } else {
                r is None && final(self).selected_view() == old(self).selected_view()
            },
    {
        if self.selected.len() > 0 {
            let idx = self.selected_sel;
            let item = self.selected.remove(idx);
            if self.selected_sel >= self.selected.len() && self.selected_sel > 0 {
                self.selected_sel = self.selected.len() - 1;
            }
            if self.selected.len() == 0 {
                self.selected_sel = 0;
            }
            proof {
                assert(self.selected.deep_view() =~= old(self).selected.deep_view().remove(
                    old(self).highlight(),
                ));
            }
            Some(item)
        } else {
            None
        }
    }

    /// What the submit key does with the picker focused: it moves the
    /// picker's text into the chosen list exactly when the rules allow it.
    pub open spec fn enter_on_options_post(pre: Multiselect, post: Multiselect, r: MsOutcome) -> bool {
        &&& post.focus_view() == pre.focus_view()
        &&& post.options_view() == pre.options_view()
        &&& if pre.select_allowed() {
            (r matches MsOutcome::Selected(v) && v@ == pre.options_view().text_view()
                && post.selected_view() == pre.selected_view().push(v@))
        } else {
            r == MsOutcome::Consumed && post.selected_view() == pre.selected_view()
        }
    }

    /// What the submit key does with the chosen list focused: it removes
    /// the highlighted entry, when there is one.
    pub open spec fn enter_on_selected_post(pre: Multiselect, post: Multiselect, r: MsOutcome) -> bool {
        &&& post.focus_view() == pre.focus_view()
        &&& post.options_view() == pre.options_view()
        &&& if pre.selected_view().len() > 0 {
            (r matches MsOutcome::Deselected(v) && v@ == pre.selected_view()[pre.highlight()]
                && post.selected_view() == pre.selected_view().remove(pre.highlight()))
        } else {
            r == MsOutcome::Consumed && post.selected_view() == pre.selected_view()
        }
    }

    /// How the widget reacts to one input event: the relation between the
    /// state before, the state after, and the answer.  The submit key
    /// chooses from the picker or removes from the chosen list, depending
    /// on which pane has focus; navigation moves the focused pane's
    /// highlight only; typing reaches the picker only.
    pub open spec fn event_post(pre: Multiselect, post: Multiselect, event: InputEvent, r: MsOutcome) -> bool {
        &&& post.can_select_anything() == pre.can_select_anything()
        &&& post.allows_redundant() == pre.allows_redundant()
        &&& match event {
            InputEvent::Enter => if pre.focus_view() == MsFocus::Options {
                Multiselect::enter_on_options_post(pre, post, r)
            } else {
                Multiselect::enter_on_selected_post(pre, post, r)
            },
            InputEvent::FocusOptions => r == MsOutcome::Consumed && post.focus_view()
                == MsFocus::Options && post.options_view() == pre.options_view()
                && post.selected_view() == pre.selected_view(),
            InputEvent::FocusSelected => r == MsOutcome::Consumed && post.focus_view()
                == MsFocus::Selected && post.options_view() == pre.options_view()
                && post.selected_view() == pre.selected_view(),
            InputEvent::SelectUp | InputEvent::SelectDown => post.selected_view()
                == pre.selected_view() && post.focus_view() == pre.focus_view() && if pre.focus_view()
                == MsFocus::Options {
                post.highlight() == pre.highlight() && exists|r2: AcOutcome|
                    #![auto]
                    Autocomplete::event_post(pre.options_view(), post.options_view(), event, r2)
                        && r == (if r2 is Ignored {
                        MsOutcome::Ignored
                    } else {
                        MsOutcome::Consumed
                    })
            } else {
                r == MsOutcome::Consumed && post.options_view() == pre.options_view()
                    && post.highlight() == (if event is SelectUp {
                    if pre.highlight() > 0 {
                        pre.highlight() - 1
                    } else {
                        0
                    }
                } else {
                    if pre.highlight() + 1 < pre.selected_view().len() {
                        pre.highlight() + 1
                    } else {
                        pre.highlight()
                    }
                })
            },
            InputEvent::Char(_) | InputEvent::Backspace | InputEvent::ClearInput => post.selected_view()
                == pre.selected_view() && post.focus_view() == pre.focus_view()
                && post.highlight() == pre.highlight() && if pre.focus_view()
                == MsFocus::Options {
                r == MsOutcome::Consumed && exists|r2: AcOutcome|
                    #![auto]
                    Autocomplete::event_post(pre.options_view(), post.options_view(), event, r2)
            } else {
                r == MsOutcome::Ignored && post.options_view() == pre.options_view()
            },
            InputEvent::SubmitShortcut => post == pre && r == MsOutcome::Ignored,
        }
    }

    /// Handles one input event, as the focused widget of the event loop.
    #[verifier::rlimit(100)]
    #[verifier::spinoff_prover]
    pub fn on_event(&mut self, event: InputEvent) -> (r: MsOutcome)
        requires
            old(self).wf(),
        ensures
            final(self).wf(),
            Multiselect::event_post(*old(self), *final(self), event, r),
    {
        match event {
            InputEvent::Enter => {
                if self.focus == MsFocus::Options {
                    match self.try_select_item() {
                        Some(v) => MsOutcome::Selected(v),
                        None => MsOutcome::Consumed,
                    }
                } else {
                    match self.deselect_item() {
                        Some(v) => MsOutcome::Deselected(v),
                        None => MsOutcome::Consumed,
                    }
                }
            },
            InputEvent::FocusOptions => {
                self.focus = MsFocus::Options;
                MsOutcome::Consumed
            },
            InputEvent::FocusSelected => {
                self.focus = MsFocus::Selected;
                MsOutcome::Consumed
            },
            InputEvent::SelectUp => {
                if self.focus == MsFocus::Selected {
                    if self.selected_sel > 0 {
                        self.selected_sel = self.selected_sel - 1;
                    }
                    MsOutcome::Consumed
                } else {
                    let outcome = self.options.on_event(event);
                    let forwarded = match outcome {
                        AcOutcome::Ignored => MsOutcome::Ignored,
                        _ => MsOutcome::Consumed,
                    };
                    proof {
                        assert(Autocomplete::event_post(
                            (*old(self)).options_view(),
                            (*self).options_view(),
                            event,
                            outcome,
                        ));
                        assert(exists|r2: AcOutcome|
                            #![auto]
                            Autocomplete::event_post(
                                (*old(self)).options_view(),
                                (*self).options_view(),
                                event,
                                r2,
                            ) && forwarded == (if r2 is Ignored {
                                MsOutcome::Ignored
                            } else {
                                MsOutcome::Consumed
                            }));
                    }
                    forwarded
                }
            },
            InputEvent::SelectDown => {
                if self.focus == MsFocus::Selected {
                    if self.selected.len() > 0 && self.selected_sel < self.selected.len() - 1 {
                        self.selected_sel = self.selected_sel + 1;
                    }
                    MsOutcome::Consumed
                } else {
                    let outcome = self.options.on_event(event);
                    let forwarded = match outcome {
                        AcOutcome::Ignored => MsOutcome::Ignored,
                        _ => MsOutcome::Consumed,
                    };
                    proof {
                        assert(Autocomplete::event_post(
                            (*old(self)).options_view(),
                            (*self).options_view(),
                            event,
                            outcome,
                        ));
                        assert(exists|r2: AcOutcome|
                            #![auto]
                            Autocomplete::event_post(
                                (*old(self)).options_view(),
                                (*self).options_view(),
                                event,
                                r2,
                            ) && forwarded == (if r2 is Ignored {
                                MsOutcome::Ignored
                            } else {
                                MsOutcome::Consumed
                            }));
                    }
                    forwarded
                }
            },
            InputEvent::Char(_) | InputEvent::Backspace | InputEvent::ClearInput => {
                if self.focus == MsFocus::Options {
                    let outcome = self.options.on_event(event);
                    proof {
                        assert(Autocomplete::event_post(
                            (*old(self)).options_view(),
                            (*self).options_view(),
                            event,
                            outcome,
                        ));
                        assert(exists|r2: AcOutcome|
                            #![auto]
                            Autocomplete::event_post(
                                (*old(self)).options_view(),
                                (*self).options_view(),
                                event,
                                r2,
                            ));
                    }
                    MsOutcome::Consumed
                } else {
                    MsOutcome::Ignored
                }
            },
            InputEvent::SubmitShortcut => MsOutcome::Ignored,
        }
    }
}

/// Law: with duplicates refused, submitting a picker value that is
/// already in the chosen list leaves the list unchanged, so the value
/// appears exactly once; with redundant selection allowed the same
/// submission appends it once more.  The hypotheses are the widget's
/// submit-event relation for the picker pane.
pub proof fn lemma_duplicate_selection(pre: Multiselect, post: Multiselect, r: MsOutcome)
    requires
        pre.focus_view() == MsFocus::Options,
        pre.selected_view().contains(pre.options_view().text_view()),
        Multiselect::event_post(pre, post, InputEvent::Enter, r),
    ensures
        !pre.allows_redundant() ==> post.selected_view() == pre.selected_view(),
        pre.allows_redundant() && pre.options_view().text_view().len() > 0 && (
        pre.can_select_anything() || pre.options_view().items_view().contains(
            pre.options_view().text_view(),
        )) ==> post.selected_view() == pre.selected_view().push(pre.options_view().text_view()),
{
}

} // verus!
