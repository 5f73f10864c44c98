//! Interactive composite widgets: an autocomplete (text entry plus
//! live-filtered candidate list) and a multiselect (candidate picker plus a
//! list of already-chosen items).
//!
//! The widgets are modelled by their state: the host toolkit owns
//! rendering and focus traversal, hands each input event to the focused
//! widget, and performs the follow-up action the widget answers with.

use vstd::prelude::*;

pub mod autocomplete;
pub mod multiselect;

pub use autocomplete::Autocomplete;
pub use multiselect::Multiselect;

verus! {

/// One input event handed to a widget by the event loop.
#[derive(Clone, Copy, Debug, PartialEq, Eq, Structural)]
pub enum InputEvent {
    /// A printable character was typed.
    Char(char),
    /// The character before the cursor was deleted.
    Backspace,
    /// The clear-input shortcut.
    ClearInput,
    /// Move the highlighted candidate up.
    SelectUp,
    /// Move the highlighted candidate down.
    SelectDown,
    /// The submit key.
    Enter,
    /// The submit-form shortcut.
    SubmitShortcut,
    /// Focus the candidate-picker pane of a multiselect.
    FocusOptions,
    /// Focus the chosen-items pane of a multiselect.
    FocusSelected,
}

/// Checks if `select` includes `to_check`.
pub fn is_value_from_select(select: &Vec<String>, to_check: &str) -> (r: bool)
    ensures
        r == select.deep_view().contains(to_check@),
{
    let n = select.len();
    let mut idx: usize = 0;
    while idx < n
        invariant
            n == select@.len(),
            idx <= n,
            forall|j: int| 0 <= j < idx ==> select.deep_view()[j] != to_check@,
        decreases n - idx,
    {
        if crate::utils::str_eq(select[idx].as_str(), to_check) {
            assert(select.deep_view()[idx as int] == to_check@);
            return true;
        }
        idx = idx + 1;
    }
    false
}

} // verus!
