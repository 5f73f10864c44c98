//! The autocomplete widget: a text-entry line paired with a live-filtered
//! candidate list driven by a [`Feeder`].

use vstd::prelude::*;
use vstd::string::StrSliceExecFns;

use crate::feeders::{Feeder, FeederAny};
use crate::utils::push_char;
use crate::views::InputEvent;

verus! {

/// How the widget answered an input event: it consumed it, it consumed it
/// and submits a value, or it ignored it so the host toolkit may handle it
/// further.
#[derive(Clone, Debug, PartialEq)]
pub enum AcOutcome {
    Consumed,
    Submitted(String),
    Ignored,
}

/// The state of an autocomplete widget: the typed text, the visible window
/// of candidates for that text, the highlighted candidate, and whether
/// values outside the candidate list may be submitted.
pub struct Autocomplete {
    feeder: FeederAny,
    edit: String,
    items: Vec<String>,
    selection: usize,
    shown_count: u8,
    submit_anything: bool,
}

/// The candidate window `post.items` was freshly computed from `pre`'s
/// feeder for the text `text`, with the highlight reset.
pub open spec fn refreshed(pre: Autocomplete, post: Autocomplete, text: Seq<char>) -> bool {
    &&& post.text_view() == text
    &&& post.selection_view() == 0
    &&& post.items_view().len() <= pre.shown()
    &&& pre.feeder_view().query_post(text, 0, pre.shown(), post.items_view())
}

impl Autocomplete {
    /// The content of the text-entry line.
    pub closed spec fn text_view(&self) -> Seq<char> {
        self.edit@
    }

    /// The visible window of candidates.
    pub closed spec fn items_view(&self) -> Seq<Seq<char>> {
        self.items.deep_view()
    }

    /// The index of the highlighted candidate.
    pub closed spec fn selection_view(&self) -> int {
        self.selection as int
    }

    /// The size of the visible window.
    pub closed spec fn shown(&self) -> int {
        self.shown_count as int
    }

    /// Whether values outside the candidate list may be submitted.
    pub closed spec fn accepts_anything(&self) -> bool {
        self.submit_anything
    }

    /// The feeder the candidate window is computed from.
    pub closed spec fn feeder_view(&self) -> FeederAny {
        self.feeder
    }

    /// The widget's invariant: the window never exceeds its size and the
    /// highlight stays inside the window.
    pub open spec fn wf(&self) -> bool {
        &&& self.items_view().len() <= self.shown()
        &&& (self.selection_view() < self.items_view().len() || (self.items_view().len() == 0
            && self.selection_view() == 0))
    }

    /// A new widget over `feeder`, with empty text and the window already
    /// filled for it.
    pub fn new(feeder: FeederAny) -> (r: Autocomplete)
        ensures
            r.wf(),
            r.text_view() == Seq::<char>::empty(),
            r.feeder_view() == feeder,
            !r.accepts_anything(),
            r.shown() == 5,
            feeder.query_post(Seq::<char>::empty(), 0, 5, r.items_view()),
    {
        let shown_count: u8 = 5;
        let items = feeder.query("", 0, 5);
        proof {
            reveal_strlit("");
            assert(""@ =~= Seq::<char>::empty());
        }
        Autocomplete {
            feeder,
            edit: String::new(),
            items,
            selection: 0,
            shown_count,
            submit_anything: false,
        }
    }

    /// Get typed in value.
    pub fn get_value(&self) -> (r: String)
        ensures
            r@ == self.text_view(),
    {
        self.edit.clone()
    }

    /// Allow to submit values outside of completion.
    pub fn submit_anything(self) -> (r: Self)
        ensures
            r.accepts_anything(),
            r.text_view() == self.text_view(),
            r.items_view() == self.items_view(),
            r.selection_view() == self.selection_view(),
            r.shown() == self.shown(),
            r.feeder_view() == self.feeder_view(),
    {
        Autocomplete {
            feeder: self.feeder,
            edit: self.edit,
            items: self.items,
            selection: self.selection,
            shown_count: self.shown_count,
            submit_anything: true,
        }
    }

    /// Sets the text value and recomputes the candidate window for it.
    pub fn value(self, initial: &str) -> (r: Self)
        requires
            self.wf(),
        ensures
            r.wf(),
            refreshed(self, r, initial@),
            r.shown() == self.shown(),
            r.feeder_view() == self.feeder_view(),
            r.accepts_anything() == self.accepts_anything(),
    {
        let mut next = self;
        next.edit = initial.to_owned();
        next.refresh_listing();
        next
    }

    /// Recomputes the candidate window for the current text, synchronously;
    /// the window is never stale.
    fn refresh_listing(&mut self)
        ensures
            final(self).wf(),
            refreshed(*old(self), *final(self), old(self).text_view()),
            final(self).text_view() == old(self).text_view(),
            final(self).shown() == old(self).shown(),
            final(self).feeder_view() == old(self).feeder_view(),
            final(self).accepts_anything() == old(self).accepts_anything(),
    {
        let count = self.shown_count as usize;
        let items = self.feeder.query(self.edit.as_str(), 0, count);
        self.items = items;
        self.selection = 0;
    }

    /// Copy the highlighted candidate's text into the text-entry line.
    fn selection_to_edit(&mut self)
        requires
            old(self).wf(),
        ensures
            final(self).wf(),
            final(self).items_view() == old(self).items_view(),
            final(self).selection_view() == old(self).selection_view(),
            final(self).shown() == old(self).shown(),
            final(self).feeder_view() == old(self).feeder_view(),
            final(self).accepts_anything() == old(self).accepts_anything(),
            final(self).text_view() == if old(self).items_view().len() > 0 {
                old(self).items_view()[old(self).selection_view()]
            } else {
                old(self).text_view()
            },
    {
        if self.selection < self.items.len() {
            self.edit = self.items[self.selection].clone();
        }
    }

    /// Checks if value comes from completion.
    pub fn is_value_from_select(&self, to_check: &str) -> (r: bool)
        ensures
            r == self.items_view().contains(to_check@),
    {
        crate::views::is_value_from_select(&self.items, to_check)
    }

    /// How the widget reacts to one input event: the relation between the
    /// state before, the state after, and the answer.  Typing recomputes
    /// the window for the new text; moving the highlight mirrors the
    /// highlighted candidate into the text line; the submit key answers
    /// with the typed text exactly when submitting anything is allowed or
    /// the text equals a visible candidate, and is otherwise ignored.
    pub open spec fn event_post(pre: Autocomplete, post: Autocomplete, event: InputEvent, r: AcOutcome) -> bool {
        &&& post.shown() == pre.shown()
        &&& post.feeder_view() == pre.feeder_view()
        &&& post.accepts_anything() == pre.accepts_anything()
        &&& match event {
            InputEvent::Char(c) => refreshed(pre, post, pre.text_view().push(c)) && r
                == AcOutcome::Consumed,
            InputEvent::Backspace => refreshed(
                pre,
                post,
                if pre.text_view().len() > 0 {
                    pre.text_view().drop_last()
                } else {
                    pre.text_view()
                },
            ) && r == AcOutcome::Consumed,
            InputEvent::ClearInput => refreshed(pre, post, Seq::<char>::empty()) && r
                == AcOutcome::Consumed,
            InputEvent::SelectUp => post.items_view() == pre.items_view() && post.selection_view()
                == (if pre.selection_view() > 0 {
                pre.selection_view() - 1
            } else {
                0
            }) && post.text_view() == (if pre.items_view().len() > 0 {
                pre.items_view()[post.selection_view()]
            } else {
                pre.text_view()
            }) && r == AcOutcome::Consumed,
            InputEvent::SelectDown => post.items_view() == pre.items_view()
                && post.selection_view() == (if pre.selection_view() + 1 < pre.items_view().len() {
                pre.selection_view() + 1
            } else {
                pre.selection_view()
            }) && post.text_view() == (if pre.items_view().len() > 0 {
                pre.items_view()[post.selection_view()]
            } else {
                pre.text_view()
            }) && r == AcOutcome::Consumed,
            InputEvent::Enter => post == pre && if pre.accepts_anything()
                || pre.items_view().contains(pre.text_view()) {
                r matches AcOutcome::Submitted(v) && v@ == pre.text_view()
            } else {
                r == AcOutcome::Ignored
            },
            _ => post == pre && r == AcOutcome::Ignored,
        }
    }

    /// Handles one input event, as the focused widget of the event loop.
    pub fn on_event(&mut self, event: InputEvent) -> (r: AcOutcome)
        requires
            old(self).wf(),
        ensures
            final(self).wf(),
            Autocomplete::event_post(*old(self), *final(self), event, r),
    {
        match event {
            InputEvent::Char(c) => {
                push_char(&mut self.edit, c);
                self.refresh_listing();
                AcOutcome::Consumed
            },
            InputEvent::Backspace => {
                let n = self.edit.as_str().unicode_len();
                if n > 0 {
                    self.edit = self.edit.as_str().substring_char(0, n - 1).to_owned();
                    proof {
                        assert(self.edit@ =~= old(self).text_view().drop_last());
                    }
                }
                self.refresh_listing();
                AcOutcome::Consumed
            },
            InputEvent::ClearInput => {
                self.edit = String::new();
                self.refresh_listing();
                AcOutcome::Consumed
            },
            InputEvent::SelectUp => {
                if self.selection > 0 {
                    self.selection = self.selection - 1;
                }
                self.selection_to_edit();
                AcOutcome::Consumed
            },
            InputEvent::SelectDown => {
                if self.selection + 1 < self.items.len() {
                    self.selection = self.selection + 1;
                }
                self.selection_to_edit();
                AcOutcome::Consumed
            },
            InputEvent::Enter => {
                let to_submit = self.edit.clone();
                if !self.submit_anything {
                    let from_select = self.is_value_from_select(to_submit.as_str());
                    if !from_select {
                        return AcOutcome::Ignored;
                    }
                }
                AcOutcome::Submitted(to_submit)
            },
            _ => AcOutcome::Ignored,
        }
    }
}

} // verus!
