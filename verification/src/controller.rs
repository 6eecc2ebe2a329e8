//! The interaction state machine.
//!
//! The pager is always in one of three states: plain paging, typing a
//! search query, or navigating committed search results.  Each decoded
//! key event is processed by a total transition function that yields the
//! next state, the next cursor position and an action for the
//! surrounding program; the transition table lives in the contracts of
//! `handle_key`.

use vstd::prelude::*;

use crate::search;
use crate::search::{search_result, SearchDirection};
use crate::viewport::{advanced_cursor, retreated_cursor};

verus! {

/// A decoded key event, as far as the state machine distinguishes them.
#[derive(Debug, Clone, Copy)]
pub enum Key {
    /// A printable character key.
    Char(char),
    /// The up arrow.
    Up,
    /// The down arrow.
    Down,
    /// The page-up key.
    PageUp,
    /// The page-down key.
    PageDown,
    /// The escape key.
    Esc,
    /// The enter key.
    Enter,
    /// Any other key.
    Other,
}

/// The search-related states.
#[derive(Debug, Clone, PartialEq, Eq)]
pub enum SearchState {
    /// The user is typing the query.
    GetInput { term: String },
    /// The query is committed; `n` and `N` navigate further matches.
    /// `position` remembers the cursor at commit time.
    Searching { term: String, position: usize },
}

/// The interaction state of the pager.
#[derive(Debug, Clone, PartialEq, Eq)]
pub enum State {
    /// Plain paging: movement keys scroll, `/` opens a search.
    Pager,
    /// A search is being typed or navigated.
    Search(SearchState),
}

/// What the surrounding program must do after a transition.
#[derive(Debug, PartialEq, Eq)]
pub enum Action {
    /// Redraw and wait for the next event.
    Continue,
    /// Leave the interaction loop.
    Quit,
    /// Forward the raw event to the query editor, then sync the query
    /// back with `set_search_term`.
    Edit,
}

/// The cursor position after processing `key` in `state`, per the
/// transition table: movement keys clamp or saturate, live search while
/// typing scans forward from the cursor, `n` scans forward from the next
/// line and `N` scans strictly backward.
pub open spec fn next_position(
    state: State,
    key: Key,
    pos: int,
    lines: Seq<Seq<char>>,
    height: int,
) -> int {
    match state {
        State::Pager => match key {
            Key::Char(c) => if c == 'j' {
                advanced_cursor(pos, 1, lines.len() as int, height)
            } else if c == 'k' {
                retreated_cursor(pos, 1)
            } else {
                pos
            },
            Key::Down => advanced_cursor(pos, 1, lines.len() as int, height),
            Key::Up => retreated_cursor(pos, 1),
            Key::PageDown => advanced_cursor(pos, height, lines.len() as int, height),
            Key::PageUp => retreated_cursor(pos, height),
            _ => pos,
        },
        State::Search(SearchState::GetInput { term }) => match key {
            Key::Esc => pos,
            Key::Enter => pos,
            _ => search_result(lines, term@, pos, SearchDirection::Forward),
        },
        State::Search(SearchState::Searching { term, .. }) => match key {
            Key::Char(c) => if c == 'n' {
                search_result(lines, term@, pos + 1, SearchDirection::Forward)
            } else if c == 'N' {
                search_result(lines, term@, pos, SearchDirection::Backwards)
            } else {
                pos
            },
            _ => pos,
        },
    }
}

/// The action after processing `key` in `state`: quit from plain paging
/// on the quit keys, edit the query on any non-command key while typing,
/// and otherwise carry on.
pub open spec fn next_action(state: State, key: Key) -> Action {
    match state {
        State::Pager => match key {
            Key::Char(c) => if c == 'q' {
                Action::Quit
            } else {
                Action::Continue
            },
            Key::Esc => Action::Quit,
            _ => Action::Continue,
        },
        State::Search(SearchState::GetInput { .. }) => match key {
            Key::Esc => Action::Continue,
            Key::Enter => Action::Continue,
            _ => Action::Edit,
        },
        State::Search(SearchState::Searching { .. }) => Action::Continue,
    }
}

/// The state after processing `key` in `old_state` with the cursor at
/// `old_pos`, per the transition table: `/` opens an empty query, escape
/// discards it, enter commits it and anchors the cursor, and the quit
/// keys leave an active search.
pub open spec fn state_transition_ok(old_state: State, key: Key, old_pos: usize, new: State) -> bool {
    match old_state {
        State::Pager => match key {
            Key::Char(c) => if c == '/' {
                &&& new matches State::Search(SearchState::GetInput { term })
                &&& term@ == Seq::<char>::empty()
            } else {
                new == old_state
            },
            _ => new == old_state,
        },
        State::Search(SearchState::GetInput { term }) => match key {
            Key::Esc => new == State::Pager,
            Key::Enter => new == State::Search(
                SearchState::Searching { term, position: old_pos },
            ),
            _ => new == old_state,
        },
        State::Search(SearchState::Searching { .. }) => match key {
            Key::Esc => new == State::Pager,
            Key::Char(c) => if c == 'q' {
                new == State::Pager
            } else {
                new == old_state
            },
            _ => new == old_state,
        },
    }
}

/// Processes exactly one decoded key event: the total transition function
/// of the interaction state machine.  Returns the next state, the next
/// cursor position and the action the surrounding program must take.
pub fn handle_key(
    state: State,
    key: Key,
    position: usize,
    all_lines: &[String],
    vertical_size: u16,
) -> (r: (State, usize, Action))
    requires
        position <= all_lines@.len(),
        all_lines@.len() < usize::MAX,
    ensures
        state_transition_ok(state, key, position, r.0),
        r.1 as int == next_position(
            state,
            key,
            position as int,
            all_lines.deep_view(),
            vertical_size as int,
        ),
        r.2 == next_action(state, key),
{
    match state {
        State::Pager => {
            match key {
                Key::Char(c) => {
                    if c == 'q' {
                        (State::Pager, position, Action::Quit)
                    } else if c == 'j' {
                        let p = crate::viewport::increment(
                            position,
                            1,
                            all_lines.len(),
                            vertical_size,
                        );
                        (State::Pager, p, Action::Continue)
                    } else if c == 'k' {
                        let p = crate::viewport::decrement(position, 1);
                        (State::Pager, p, Action::Continue)
                    } else if c == '/' {
                        let term = String::new();
                        (State::Search(SearchState::GetInput { term }), position, Action::Continue)
                    } else {
                        (State::Pager, position, Action::Continue)
                    }
                },
                Key::Down => {
                    let p = crate::viewport::increment(position, 1, all_lines.len(), vertical_size);
                    (State::Pager, p, Action::Continue)
                },
                Key::Up => {
                    let p = crate::viewport::decrement(position, 1);
                    (State::Pager, p, Action::Continue)
                },
                Key::PageDown => {
                    let p = crate::viewport::increment(
                        position,
                        vertical_size as usize,
                        all_lines.len(),
                        vertical_size,
                    );
                    (State::Pager, p, Action::Continue)
                },
                Key::PageUp => {
                    let p = crate::viewport::decrement(position, vertical_size as usize);
                    (State::Pager, p, Action::Continue)
                },
                Key::Esc => (State::Pager, position, Action::Quit),
                Key::Enter => (State::Pager, position, Action::Continue),
                Key::Other => (State::Pager, position, Action::Continue),
            }
        },
        State::Search(SearchState::GetInput { term }) => {
            match key {
                Key::Esc => (State::Pager, position, Action::Continue),
                Key::Enter => (
                    State::Search(SearchState::Searching { term, position }),
                    position,
                    Action::Continue,
                ),
                _ => {
                    let p = match search::search(
                        term.as_str(),
                        position,
                        all_lines,
                        &SearchDirection::Forward,
                    ) {
                        Ok(p) => p,
                        Err(_) => position,
                    };
                    (State::Search(SearchState::GetInput { term }), p, Action::Edit)
                },
            }
        },
        State::Search(SearchState::Searching { term, position: anchor }) => {
            match key {
                Key::Esc => (State::Pager, position, Action::Continue),
                Key::Char(c) => {
                    if c == 'q' {
                        (State::Pager, position, Action::Continue)
                    } else if c == 'n' {
                        let p = match search::search(
                            term.as_str(),
                            position + 1,
                            all_lines,
                            &SearchDirection::Forward,
                        ) {
                            Ok(p) => p,
                            Err(_) => position,
                        };
                        (
                            State::Search(SearchState::Searching { term, position: anchor }),
                            p,
                            Action::Continue,
                        )
                    } else if c == 'N' {
                        let p = match search::search(
                            term.as_str(),
                            position,
                            all_lines,
                            &SearchDirection::Backwards,
                        ) {
                            Ok(p) => p,
                            Err(_) => position,
                        };
                        (
                            State::Search(SearchState::Searching { term, position: anchor }),
                            p,
                            Action::Continue,
                        )
                    } else {
                        (
                            State::Search(SearchState::Searching { term, position: anchor }),
                            position,
                            Action::Continue,
                        )
                    }
                },
                _ => (
                    State::Search(SearchState::Searching { term, position: anchor }),
                    position,
                    Action::Continue,
                ),
            }
        },
    }
}

/// Replaces the query text while it is being typed; any other state is
/// returned unchanged.  The surrounding program calls this after letting
/// its query editor apply an `Action::Edit` event.
pub fn set_search_term(state: State, term: String) -> (r: State)
    ensures
        (match state {
            State::Search(SearchState::GetInput { .. }) => r == State::Search(
                SearchState::GetInput { term },
            ),
            _ => r == state,
        }),
{
    match state {
        State::Search(SearchState::GetInput { .. }) => State::Search(
            SearchState::GetInput { term },
        ),
        _ => state,
    }
}

} // verus!
