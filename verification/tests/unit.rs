//! Tests of the search engine, viewport arithmetic, interaction state
//! machine, ingestion batching and line patterns on small hand-built
//! buffers.

use cpg::context_finder::{ContextFinder, InputType};
use cpg::controller::{handle_key, set_search_term, Action, Key, SearchState, State};
use cpg::error::Error;
use cpg::ingest::{append_batch, IngestionBatcher, ReadEvent, WorkerAction};
use cpg::patterns::{matches_end, matches_start};
use cpg::read_input;
use cpg::search::{search, SearchDirection};
use cpg::viewport::{decrement, get_lines, increment};

fn buffer(words: &[&str]) -> Vec<String> {
    words.iter().map(|w| w.to_string()).collect()
}

#[test]
fn search_forward_and_backward_meet_at_a_unique_match() {
    let lines = buffer(&["alpha", "beta", "GAMMA ray", "delta"]);
    for p in 0..3 {
        assert_eq!(search("gamma", p, &lines, &SearchDirection::Forward).unwrap(), 2);
    }
    for p in 3..5 {
        assert_eq!(search("Gamma", p, &lines, &SearchDirection::Backwards).unwrap(), 2);
    }
}

#[test]
fn search_without_a_match_keeps_the_position() {
    let lines = buffer(&["alpha", "beta", "gamma"]);
    assert_eq!(search("zeta", 1, &lines, &SearchDirection::Forward).unwrap(), 1);
    assert_eq!(search("zeta", 3, &lines, &SearchDirection::Backwards).unwrap(), 3);
    assert_eq!(search("alpha", 1, &lines, &SearchDirection::Forward).unwrap(), 1);
}

#[test]
fn search_is_case_insensitive_and_non_wrapping() {
    let lines = buffer(&["Reader", "writer", "READER again"]);
    assert_eq!(search("reader", 1, &lines, &SearchDirection::Forward).unwrap(), 2);
    assert_eq!(search("WRITER", 2, &lines, &SearchDirection::Backwards).unwrap(), 1);
    // Non-wrapping: nothing before index 0 is scanned backward.
    assert_eq!(search("writer", 1, &lines, &SearchDirection::Backwards).unwrap(), 1);
}

#[test]
fn search_with_an_empty_query_matches_the_first_scanned_line() {
    let lines = buffer(&["alpha", "beta"]);
    assert_eq!(search("", 1, &lines, &SearchDirection::Forward).unwrap(), 1);
    assert_eq!(search("", 2, &lines, &SearchDirection::Backwards).unwrap(), 1);
}

#[test]
fn viewport_slice_is_height_lines_when_the_buffer_reaches_past_it() {
    let lines = buffer(&["a", "b", "c", "d", "e", "f", "g", "h", "i", "j"]);
    let slice = get_lines(&lines, 2, 3).unwrap();
    assert_eq!(slice.len(), 3);
    assert_eq!(slice, &lines[2..5]);
}

#[test]
fn viewport_slice_stops_short_of_the_last_line_in_a_short_buffer() {
    let lines = buffer(&["a", "b", "c", "d", "e", "f", "g", "h", "i", "j"]);
    let slice = get_lines(&lines, 8, 5).unwrap();
    assert_eq!(slice.len(), 1);
    assert_eq!(slice, &lines[8..9]);
    let empty = get_lines(&lines, 9, 5).unwrap();
    assert_eq!(empty.len(), 0);
}

#[test]
fn viewport_slice_fails_when_the_cursor_is_past_the_buffer() {
    let lines = buffer(&["a", "b"]);
    assert_eq!(get_lines(&lines, 2, 4).unwrap_err(), Error::GetLines);
    let none: Vec<String> = Vec::new();
    assert_eq!(get_lines(&none, 0, 4).unwrap_err(), Error::GetLines);
}

#[test]
fn cursor_movement_clamps_and_saturates() {
    assert_eq!(increment(5, 1, 10, 3), 6);
    assert_eq!(increment(6, 1, 10, 3), 7);
    assert_eq!(increment(7, 1, 10, 3), 7);
    assert_eq!(increment(0, 100, 10, 3), 7);
    // A viewport taller than the buffer pins the cursor at the top.
    assert_eq!(increment(0, 5, 3, 10), 0);
    // An overflowing target is clamped like any other.
    assert_eq!(increment(usize::MAX, 5, 10, 2), 8);
    assert_eq!(decrement(6, 2), 4);
    assert_eq!(decrement(3, 5), 0);
    assert_eq!(decrement(0, 1), 0);
}

#[test]
fn pager_keys_move_the_cursor_and_quit() {
    let lines = buffer(&["a", "b", "c", "d", "e", "f", "g", "h", "i", "j"]);
    let (s, p, a) = handle_key(State::Pager, Key::Char('j'), 6, &lines, 3);
    assert_eq!(s, State::Pager);
    assert_eq!(p, 7);
    assert_eq!(a, Action::Continue);
    let (_, p, _) = handle_key(State::Pager, Key::Char('j'), 7, &lines, 3);
    assert_eq!(p, 7);
    let (_, p, _) = handle_key(State::Pager, Key::Char('k'), 7, &lines, 3);
    assert_eq!(p, 6);
    let (_, p, _) = handle_key(State::Pager, Key::PageDown, 0, &lines, 3);
    assert_eq!(p, 3);
    let (_, p, _) = handle_key(State::Pager, Key::PageUp, 2, &lines, 3);
    assert_eq!(p, 0);
    let (_, _, a) = handle_key(State::Pager, Key::Char('q'), 0, &lines, 3);
    assert_eq!(a, Action::Quit);
    let (_, _, a) = handle_key(State::Pager, Key::Esc, 0, &lines, 3);
    assert_eq!(a, Action::Quit);
    let (s, p, a) = handle_key(State::Pager, Key::Other, 4, &lines, 3);
    assert_eq!((s, p, a), (State::Pager, 4, Action::Continue));
}

#[test]
fn search_states_follow_the_transition_table() {
    let lines = buffer(&["alpha", "beta", "gamma"]);
    // `/` opens an empty query.
    let (s, p, a) = handle_key(State::Pager, Key::Char('/'), 1, &lines, 3);
    assert_eq!(s, State::Search(SearchState::GetInput { term: String::new() }));
    assert_eq!((p, a), (1, Action::Continue));
    // Escape discards it.
    let (s, _, _) = handle_key(s, Key::Esc, 1, &lines, 3);
    assert_eq!(s, State::Pager);
    // Typing hands the event to the editor and live-searches the old term.
    let typing = State::Search(SearchState::GetInput { term: "gam".to_string() });
    let (s, p, a) = handle_key(typing, Key::Char('m'), 0, &lines, 3);
    assert_eq!(s, State::Search(SearchState::GetInput { term: "gam".to_string() }));
    assert_eq!(p, 2);
    assert_eq!(a, Action::Edit);
    let s = set_search_term(s, "gamm".to_string());
    assert_eq!(s, State::Search(SearchState::GetInput { term: "gamm".to_string() }));
    // Enter commits the query and anchors the cursor.
    let (s, _, _) = handle_key(s, Key::Enter, 2, &lines, 3);
    assert_eq!(
        s,
        State::Search(SearchState::Searching { term: "gamm".to_string(), position: 2 })
    );
    // `q` leaves an active search without quitting the pager.
    let (s2, _, a) = handle_key(s.clone(), Key::Char('q'), 2, &lines, 3);
    assert_eq!(s2, State::Pager);
    assert_eq!(a, Action::Continue);
    let (s3, _, _) = handle_key(s, Key::Esc, 2, &lines, 3);
    assert_eq!(s3, State::Pager);
}

#[test]
fn search_navigation_steps_between_matches() {
    let lines = buffer(&["match one", "nothing", "match two", "nothing"]);
    let active = State::Search(SearchState::Searching { term: "match".to_string(), position: 0 });
    // `n` scans from the line after the cursor.
    let (s, p, a) = handle_key(active.clone(), Key::Char('n'), 0, &lines, 3);
    assert_eq!(p, 2);
    assert_eq!(a, Action::Continue);
    assert_eq!(s, active);
    // A further `n` finds nothing and keeps the position.
    let (_, p, _) = handle_key(active.clone(), Key::Char('n'), 2, &lines, 3);
    assert_eq!(p, 3);
    // `N` scans strictly backward.
    let (_, p, _) = handle_key(active.clone(), Key::Char('N'), 2, &lines, 3);
    assert_eq!(p, 0);
    let (_, p, _) = handle_key(active, Key::Char('N'), 0, &lines, 3);
    assert_eq!(p, 0);
}

#[test]
fn batcher_flushes_full_batches_in_order() {
    let mut batcher = IngestionBatcher::new(2);
    assert_eq!(batcher.on_event(ReadEvent::Line(b"one".to_vec())), WorkerAction::Continue);
    assert_eq!(batcher.on_event(ReadEvent::Line(b"two".to_vec())), WorkerAction::Flush);
    let batch = batcher.take_batch();
    assert_eq!(batch, vec!["one".to_string(), "two".to_string()]);
    assert_eq!(batcher.on_event(ReadEvent::EndOfStream), WorkerAction::Stop);
}

#[test]
fn batcher_forwards_partial_batches_on_error_and_end_of_stream() {
    let mut batcher = IngestionBatcher::new(4);
    assert_eq!(batcher.on_event(ReadEvent::Line(b"only".to_vec())), WorkerAction::Continue);
    assert_eq!(batcher.on_event(ReadEvent::EndOfStream), WorkerAction::FlushThenStop);
    assert_eq!(batcher.take_batch(), vec!["only".to_string()]);
    assert_eq!(batcher.on_event(ReadEvent::Line(b"next".to_vec())), WorkerAction::Continue);
    assert_eq!(batcher.on_event(ReadEvent::ReadError), WorkerAction::FlushThenError);
    assert_eq!(batcher.take_batch(), vec!["next".to_string()]);
}

#[test]
fn batcher_decodes_invalid_bytes_lossily() {
    let mut batcher = IngestionBatcher::new(1);
    assert_eq!(batcher.on_event(ReadEvent::Line(vec![0x66, 0xff, 0x67])), WorkerAction::Flush);
    assert_eq!(batcher.take_batch(), vec!["f\u{FFFD}g".to_string()]);
}

#[test]
fn append_batch_keeps_arrival_order() {
    let mut all = buffer(&["first"]);
    append_batch(&mut all, buffer(&["second", "third"]));
    append_batch(&mut all, buffer(&[]));
    append_batch(&mut all, buffer(&["fourth"]));
    assert_eq!(all, buffer(&["first", "second", "third", "fourth"]));
}

#[test]
fn read_input_replaces_invalid_sequences_and_keeps_valid_text() {
    assert_eq!(read_input(b"plain text\n").unwrap(), "plain text\n");
    assert_eq!(read_input(&[0x66, 0xff, 0x67]).unwrap(), "f\u{FFFD}g");
    assert_eq!(read_input(b"").unwrap(), "");
}

#[test]
fn context_at_the_next_header_excludes_the_terminator() {
    let h1 = "commit aaaaaaaaaaaaaaaaaaaaaaaaaaaaaaaaaaaaaaaa";
    let h2 = "commit bbbbbbbbbbbbbbbbbbbbbbbbbbbbbbbbbbbbbbbb";
    let lines = buffer(&[h1, "first body", h2, "second body"]);
    let cf = ContextFinder::new(InputType::Git).unwrap();
    // The cursor on the second header still sits inside the first record.
    let range = cf.find_range(&lines, 2).unwrap();
    assert_eq!((range.start, range.end), (0, 1));
    // Past the second header the second record encloses the cursor.
    let range = cf.find_range(&lines, 3).unwrap();
    assert_eq!((range.start, range.end), (2, 2));
    // Abutting records: the earliest terminator after the start wins.
    let abutting = buffer(&[h1, h2, "tail"]);
    let range = cf.find_range(&abutting, 1).unwrap();
    assert_eq!((range.start, range.end), (0, 0));
    let range = cf.find_range(&abutting, 2).unwrap();
    assert_eq!((range.start, range.end), (1, 1));
    // An empty buffer, or a cursor past the end, has no context.
    let empty: Vec<String> = Vec::new();
    assert!(cf.find_range(&empty, 5).is_none());
    assert!(cf.get_context(&lines, 9).is_none());
}

#[test]
fn record_patterns_match_headers_and_patch_openers() {
    assert!(matches_start("commit 1111aaaa2222bbbb3333cccc4444dddd5555eeee"));
    assert!(matches_start("commit 0123456789abcdef0123456789ABCDEF01234567 extra"));
    assert!(!matches_start("commit 123"));
    assert!(!matches_start("commit 0123456789abcdef0123456789abcdef0123456g"));
    assert!(!matches_start("Commit 1111aaaa2222bbbb3333cccc4444dddd5555eeee"));
    assert!(!matches_start("diff --git a/x b/x"));
    assert!(matches_end("diff --git a/x b/x"));
    assert!(matches_end("commit 1111aaaa2222bbbb3333cccc4444dddd5555eeee"));
    assert!(!matches_end("index 83b2e1f..9c41d07 100644"));
}
