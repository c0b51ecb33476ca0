//! Key handling of a search modal: a query input over a list of candidates
//! with one of them selected.

use vstd::prelude::*;
use crate::input::{TextInputState, is_edit_key, is_insert_key, key_edit};
use crate::input::key::{KeyCode, KeyEvent};

verus! {

/// How edits of the query relate to the selection.
#[derive(Debug, Clone, Copy, PartialEq, Eq, Structural)]
pub enum SearchMode {
    /// Filter narrows live; edits reset selection to 0.
    Live,
    /// Query commits on Enter; selection is independent of input edits.
    Deferred,
}

/// What a key did to the search modal.
#[derive(Debug, Clone, Copy, PartialEq, Eq, Structural)]
pub enum SearchKeyOutcome {
    /// The key did nothing.
    Ignored,
    Edited,
    Moved,
    Submit,
    Cancel,
}

/// The query input and the index of the selected candidate.
#[derive(Debug, Clone, PartialEq, Eq)]
pub struct SearchModalState {
    pub input: TextInputState,
    pub selected: usize,
}

/// The selection after clamping `selected` to a list of `max` candidates.
pub open spec fn clamped(selected: usize, max: usize) -> usize {
    if max == 0 {
        0
    } else if selected >= max {
        (max - 1) as usize
    } else {
        selected
    }
}

/// The outcome of `key` in a list of `max` candidates with `selected` selected.
pub open spec fn search_outcome(key: KeyEvent, selected: usize, max: usize) -> SearchKeyOutcome {
    match key.code {
        KeyCode::Esc => SearchKeyOutcome::Cancel,
        KeyCode::Enter => SearchKeyOutcome::Submit,
        KeyCode::Up => if selected == 0 {
            SearchKeyOutcome::Ignored
        } else {
            SearchKeyOutcome::Moved
        },
        KeyCode::Down => if max == 0 || selected + 1 >= max {
            SearchKeyOutcome::Ignored
        } else {
            SearchKeyOutcome::Moved
        },
        _ => if is_edit_key(key) {
            SearchKeyOutcome::Edited
        } else {
            SearchKeyOutcome::Ignored
        },
    }
}

/// The selection after `key`, given the outcome.
pub open spec fn search_selection(
    key: KeyEvent,
    selected: usize,
    max: usize,
    mode: SearchMode,
) -> int {
    match search_outcome(key, selected, max) {
        SearchKeyOutcome::Moved => if key.code == KeyCode::Up {
            selected - 1
        } else {
            selected + 1
        },
        SearchKeyOutcome::Edited => if mode == SearchMode::Live {
            0
        } else {
            selected as int
        },
        _ => selected as int,
    }
}

impl Default for SearchModalState {
    fn default() -> (r: Self)
        ensures
            r.input.value@ == Seq::<char>::empty(),
            r.input.cursor == 0,
            !r.input.mask,
            r.selected == 0,
    {
        SearchModalState { input: TextInputState::new(), selected: 0 }
    }
}

impl SearchModalState {
    /// An empty query with the first candidate selected.
    pub fn new() -> (r: Self)
        ensures
            r.input.value@ == Seq::<char>::empty(),
            r.input.cursor == 0,
            !r.input.mask,
            r.selected == 0,
    {
        SearchModalState { input: TextInputState::new(), selected: 0 }
    }

    /// The query `query`, cursor at its end, first candidate selected.
    pub fn from_query(query: &str) -> (r: Self)
        ensures
            r.input.value@ == query@,
            r.input.cursor == query@.len(),
            !r.input.mask,
            r.selected == 0,
    {
        SearchModalState { input: TextInputState::from(query), selected: 0 }
    }

    /// Back to an empty query with the first candidate selected.
    pub fn reset(&mut self)
        ensures
            final(self).input.value@ == Seq::<char>::empty(),
            final(self).input.cursor == 0,
            !final(self).input.mask,
            final(self).selected == 0,
    {
        self.input = TextInputState::new();
        self.selected = 0;
    }

    /// Keeps the selection inside a list of `max` candidates.
    pub fn clamp(&mut self, max: usize)
        ensures
            final(self).selected == clamped(old(self).selected, max),
            final(self).input == old(self).input,
    {
        if max == 0 {
            self.selected = 0;
        } else if self.selected >= max {
            self.selected = max - 1;
        }
    }

    /// Applies `key` to the modal over a list of `max` candidates.
    ///
    /// Esc cancels and Enter submits; Up and Down move the selection within
    /// the list; any other key goes to the query input, and an edit there
    /// resets the selection in `Live` mode.
    pub fn handle_key(&mut self, key: KeyEvent, max: usize, mode: SearchMode) -> (r:
        SearchKeyOutcome)
        requires
            is_insert_key(key) ==> old(self).input.cursor < usize::MAX,
        ensures
            r == search_outcome(key, old(self).selected, max),
            final(self).selected == search_selection(key, old(self).selected, max, mode),
            match key.code {
                KeyCode::Esc | KeyCode::Enter | KeyCode::Up | KeyCode::Down => final(self).input
                    == old(self).input,
                _ => key_edit(old(self).input, final(self).input, key),
            },
    {
        match key.code {
            KeyCode::Esc => SearchKeyOutcome::Cancel,
            KeyCode::Enter => SearchKeyOutcome::Submit,
            KeyCode::Up => {
                if self.selected == 0 {
                    SearchKeyOutcome::Ignored
                } else {
                    self.selected = self.selected - 1;
                    SearchKeyOutcome::Moved
                }
            },
            KeyCode::Down => {
                if max == 0 || self.selected >= max - 1 {
                    SearchKeyOutcome::Ignored
                } else {
                    self.selected = self.selected + 1;
                    SearchKeyOutcome::Moved
                }
            },
            _ => {
                if self.input.handle_key(key) {
                    if mode == SearchMode::Live {
                        self.selected = 0;
                    }
                    SearchKeyOutcome::Edited
                } else {
                    SearchKeyOutcome::Ignored
                }
            },
        }
    }
}

/// A selection within the list stays within it whatever the key.
pub proof fn law_selection_stays_in_list(key: KeyEvent, selected: usize, max: usize, mode: SearchMode)
    requires
        selected < max,
    ensures
        0 <= search_selection(key, selected, max, mode) < max,
{
}

/// Clamping puts the selection inside a non-empty list, leaves a selection
/// that is already inside alone, and clamping twice is clamping once.
pub proof fn law_clamp(selected: usize, max: usize)
    ensures
        max > 0 ==> clamped(selected, max) < max,
        selected < max ==> clamped(selected, max) == selected,
        max > 0 && selected >= max ==> clamped(selected, max) == max - 1,
        max == 0 ==> clamped(selected, max) == 0,
        clamped(clamped(selected, max), max) == clamped(selected, max),
{
}

/// In `Live` mode an edit of the query selects the first candidate; in
/// `Deferred` mode it leaves the selection where it was.
pub proof fn law_edits_and_selection(key: KeyEvent, selected: usize, max: usize)
    requires
        search_outcome(key, selected, max) == SearchKeyOutcome::Edited,
    ensures
        search_selection(key, selected, max, SearchMode::Live) == 0,
        search_selection(key, selected, max, SearchMode::Deferred) == selected,
{
}

/// What each key does in the search modal, stated over the key: Esc cancels
/// and Enter submits, leaving the selection; Up moves the selection one row
/// up and Down one row down, within the list, and otherwise do nothing; an
/// editing key edits the query and selects the first candidate in `Live`
/// mode, keeps the selection in `Deferred` mode; any other key does nothing.
pub proof fn law_search_keys(key: KeyEvent, selected: usize, max: usize, mode: SearchMode)
    ensures
        ({
            let out = search_outcome(key, selected, max);
            let sel = search_selection(key, selected, max, mode);
            &&& key.code == KeyCode::Esc ==> out == SearchKeyOutcome::Cancel && sel == selected
            &&& key.code == KeyCode::Enter ==> out == SearchKeyOutcome::Submit && sel == selected
            &&& key.code == KeyCode::Up && selected > 0 ==> out == SearchKeyOutcome::Moved && sel
                == selected - 1
            &&& key.code == KeyCode::Up && selected == 0 ==> out == SearchKeyOutcome::Ignored && sel
                == 0
            &&& key.code == KeyCode::Down && selected + 1 < max ==> out == SearchKeyOutcome::Moved
                && sel == selected + 1
            &&& key.code == KeyCode::Down && selected + 1 >= max ==> out == SearchKeyOutcome::Ignored
                && sel == selected
            &&& !(key.code == KeyCode::Esc || key.code == KeyCode::Enter || key.code == KeyCode::Up
                || key.code == KeyCode::Down) ==> {
                &&& is_edit_key(key) ==> out == SearchKeyOutcome::Edited && sel == if mode
                    == SearchMode::Live {
                    0
                } else {
                    selected as int
                }
                &&& !is_edit_key(key) ==> out == SearchKeyOutcome::Ignored && sel == selected
            }
        }),
{
}

} // verus!
