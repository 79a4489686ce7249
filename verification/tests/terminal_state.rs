use warp_terminal::screen::TerminalState;

#[test]
fn test_initial_state() {
    let state = TerminalState::new();
    assert!(state.current_input.is_empty());
    assert_eq!(state.history.len(), 2);
    assert_eq!(state.cursor_position, 0);
}

#[test]
fn test_add_char_ascii() {
    let mut state = TerminalState::new();
    state.add_char('a');
    assert_eq!(state.current_input, "a");
    assert_eq!(state.cursor_position, 1);
}

#[test]
fn test_add_char_utf8() {
    let mut state = TerminalState::new();
    state.add_char('á'); // 2-byte char
    assert_eq!(state.current_input, "á");
    assert_eq!(state.cursor_position, 2);
}

#[test]
fn test_backspace() {
    let mut state = TerminalState::new();
    state.add_char('a');
    state.add_char('b');
    state.backspace();
    assert_eq!(state.current_input, "a");
    assert_eq!(state.cursor_position, 1);
}

#[test]
fn test_history_trimming() {
    let mut state = TerminalState::new();
    for i in 0..1005 {
        state.add_history_entry(format!("Command {}", i));
    }
    assert_eq!(state.history.len(), 1000);
    assert_eq!(state.history.front().unwrap(), "Command 5");
}

#[test]
fn add_char_inserts_at_cursor() {
    let mut state = TerminalState::new();
    state.add_char('a');
    state.add_char('c');
    state.backspace();
    state.add_char('b');
    state.add_char('c');
    assert_eq!(state.current_input, "abc");
    assert_eq!(state.cursor_position, 3);
}

#[test]
fn backspace_at_start_is_noop() {
    let mut state = TerminalState::new();
    state.backspace();
    assert_eq!(state.current_input, "");
    assert_eq!(state.cursor_position, 0);
    state.add_char('x');
    state.backspace();
    state.backspace();
    assert_eq!(state.current_input, "");
    assert_eq!(state.cursor_position, 0);
}

#[test]
fn backspace_removes_whole_multibyte_char() {
    let mut state = TerminalState::new();
    state.add_char('é');
    state.add_char('漢');
    assert_eq!(state.cursor_position, 5);
    state.backspace();
    assert_eq!(state.current_input, "é");
    assert_eq!(state.cursor_position, 2);
    state.backspace();
    assert_eq!(state.current_input, "");
    assert_eq!(state.cursor_position, 0);
}

#[test]
fn clear_input_resets_line_and_cursor() {
    let mut state = TerminalState::new();
    state.add_char('h');
    state.add_char('i');
    state.clear_input();
    assert_eq!(state.current_input, "");
    assert_eq!(state.cursor_position, 0);
    assert_eq!(state.history.len(), 2);
}

#[test]
fn add_error_marks_the_line() {
    let mut state = TerminalState::new();
    state.add_error("boom".to_string());
    assert_eq!(state.history.back().unwrap(), "❌ boom");
}

#[test]
fn with_welcome_messages_seeds_history() {
    let state = TerminalState::with_welcome_messages(vec![
        "one".to_string(),
        "two".to_string(),
        "three".to_string(),
    ]);
    assert_eq!(state.history.len(), 3);
    assert_eq!(state.history.front().unwrap(), "one");
    assert_eq!(state.history.back().unwrap(), "three");
}

#[test]
fn eviction_keeps_newest_in_order() {
    let mut state = TerminalState::with_welcome_messages(vec![]);
    for i in 0..2000 {
        state.add_history_entry(format!("line {}", i));
    }
    assert_eq!(state.history.len(), 1000);
    assert_eq!(state.history.front().unwrap(), "line 1000");
    assert_eq!(state.history.back().unwrap(), "line 1999");
    for (k, line) in state.history.iter().enumerate() {
        assert_eq!(line, &format!("line {}", 1000 + k));
    }
}

#[test]
fn append_output_splits_lines_and_keeps_tail() {
    let mut state = TerminalState::with_welcome_messages(vec![]);
    state.append_output(b"first\nsecond\npar");
    assert_eq!(state.history.len(), 2);
    assert_eq!(state.history.front().unwrap(), "first");
    assert_eq!(state.history.back().unwrap(), "second");
    assert_eq!(state.pending_output, "par");
    state.append_output(b"tial\n");
    assert_eq!(state.history.len(), 3);
    assert_eq!(state.history.back().unwrap(), "partial");
    assert_eq!(state.pending_output, "");
}

#[test]
fn output_chunks_arrive_in_order() {
    // Bytes written as "A", "B", "C" in sequence show up in that order.
    let mut chunked = TerminalState::with_welcome_messages(vec![]);
    chunked.append_output(b"A");
    chunked.append_output(b"B");
    chunked.append_output(b"C");
    assert_eq!(chunked.pending_output, "ABC");

    let mut whole = TerminalState::with_welcome_messages(vec![]);
    whole.append_output(b"ABC");
    assert_eq!(whole.pending_output, chunked.pending_output);

    chunked.append_output(b"\n");
    assert_eq!(chunked.history.back().unwrap(), "ABC");
}

#[test]
fn append_output_decodes_invalid_bytes_lossily() {
    let mut state = TerminalState::with_welcome_messages(vec![]);
    state.append_output(&[0x68, 0x69, 0xFF, 0x21, 0x0A]);
    assert_eq!(state.history.len(), 1);
    assert_eq!(state.history.back().unwrap(), "hi\u{FFFD}!");
}

#[test]
fn submit_input_returns_text_and_clears() {
    let mut state = TerminalState::new();
    for c in "echo hi".chars() {
        state.add_char(c);
    }
    let text = state.submit_input();
    assert_eq!(text, Some("echo hi".to_string()));
    assert_eq!(state.current_input, "");
    assert_eq!(state.cursor_position, 0);
}

#[test]
fn submit_blank_input_returns_nothing() {
    let mut state = TerminalState::new();
    state.add_char(' ');
    state.add_char('\t');
    let text = state.submit_input();
    assert_eq!(text, None);
    assert_eq!(state.current_input, " \t");
}

#[test]
fn snapshot_mirrors_buffer() {
    let mut state = TerminalState::new();
    state.add_char('x');
    state.append_output(b"out\nrest");
    let view = state.snapshot();
    assert_eq!(view.lines.len(), state.history.len());
    assert_eq!(view.lines.last().unwrap(), "out");
    assert_eq!(view.current_input, "x");
    assert_eq!(view.cursor_position, 1);
    assert_eq!(view.pending_output, "rest");
}
