use warp_terminal::error::SpawnError;
use warp_terminal::events::{EventLoop, InputEvent, OutputAction};
use warp_terminal::input::{Action, ControlSignal, InputMode, InputRouter, Key, KeyPress};
use warp_terminal::multiplexer::{
    CloseOutcome, SessionMultiplexer, SessionProcess, SessionStatus, SpawnArgs,
};
use warp_terminal::pty::{ProcessStatus, PtyManager};

fn args(command: &str, env: Vec<(String, String)>) -> SpawnArgs {
    SpawnArgs {
        command: command.to_string(),
        args: vec![],
        cwd: "/".to_string(),
        env,
    }
}

fn key(code: Key) -> KeyPress {
    KeyPress { code, ctrl: false, alt: false, shift: false }
}

fn ctrl(c: char) -> KeyPress {
    KeyPress { code: Key::Char(c), ctrl: true, alt: false, shift: false }
}

#[test]
fn echo_session_end_to_end() {
    // Spawn a session running `echo hello`, deliver its output and exit,
    // and check the snapshot and final status.
    let mut mux = SessionMultiplexer::new();
    let id = mux.new_session(args("echo", vec![]), Ok(4242));
    assert_eq!(mux.session_status(id), Some(SessionStatus::Running));

    let mut lp = EventLoop::new(mux, InputRouter::new(vec![]), false);
    lp.step(InputEvent::ProcessOutput { session: id, bytes: b"hello\n".to_vec() });
    lp.step(InputEvent::ProcessExited { session: id, code: 0 });

    assert_eq!(lp.mux.session_status(id), Some(SessionStatus::Exited(0)));
    let view = lp.mux.session_snapshot(id).unwrap();
    assert!(view.lines.iter().any(|l| l == "hello"));
}

#[test]
fn env_injected_session_shows_value() {
    // `echo $VAR` with VAR=x injected at spawn: the spawner applies the
    // environment, the shell expands the line, and the echoed expansion
    // lands in the session's buffer.
    let env = vec![("VAR".to_string(), "x".to_string())];
    let mut mux = SessionMultiplexer::new();
    let id = mux.new_session(args("/bin/sh", env), Ok(77));
    let mut lp = EventLoop::new(mux, InputRouter::new(vec![]), false);
    for c in "echo $VAR".chars() {
        lp.step(InputEvent::KeyPress(key(Key::Char(c))));
    }
    let actions = lp.step(InputEvent::KeyPress(key(Key::Enter)));
    assert!(actions.iter().any(|a| matches!(
        a,
        OutputAction::WriteToPty { pid: 77, bytes } if bytes == b"echo $VAR\n"
    )));
    lp.step(InputEvent::ProcessOutput { session: id, bytes: b"x\n".to_vec() });
    let view = lp.mux.session_snapshot(id).unwrap();
    assert!(view.lines.iter().any(|l| l == "x"));
}

#[test]
fn failed_spawn_keeps_its_tab() {
    // A nonexistent command yields a Failed session that list_sessions
    // still reports.
    let mut mux = SessionMultiplexer::new();
    let id = mux.new_session(args("/no/such/binary", vec![]), Err(SpawnError::NotFound));
    assert_eq!(
        mux.session_status(id),
        Some(SessionStatus::Failed(SpawnError::NotFound))
    );
    assert!(mux.list_sessions().contains(&id));
    let view = mux.session_snapshot(id).unwrap();
    assert!(view
        .lines
        .iter()
        .any(|l| l.contains("command not found")));
}

#[test]
fn close_running_session_demands_reaping() {
    // Closing a running session hands back a kill directive carrying the
    // pid, so the process is terminated and reaped; the session is gone.
    let mut mux = SessionMultiplexer::new();
    let id = mux.new_session(args("sleep", vec![]), Ok(555));
    let outcome = mux.close_session(id);
    assert_eq!(outcome, CloseOutcome::Kill { pid: 555 });
    assert!(!mux.list_sessions().contains(&id));
}

#[test]
fn close_exited_session_removes_immediately() {
    let mut mux = SessionMultiplexer::new();
    let id = mux.new_session(args("true", vec![]), Ok(556));
    mux.route_exit(id, 0);
    assert_eq!(mux.close_session(id), CloseOutcome::Removed);
    assert!(mux.list_sessions().is_empty());
    assert_eq!(mux.close_session(id), CloseOutcome::NotFound);
}

#[test]
fn switching_sessions_touches_nothing_else() {
    let mut mux = SessionMultiplexer::new();
    let a = mux.new_session(args("sh", vec![]), Ok(1));
    let b = mux.new_session(args("sh", vec![]), Ok(2));
    mux.route_output(a, b"background\n");
    assert!(mux.set_active(a).is_ok());
    assert_eq!(mux.active_session(), Some(a));
    // The other session kept its buffer and status.
    assert_eq!(mux.session_status(b), Some(SessionStatus::Running));
    let view = mux.session_snapshot(a).unwrap();
    assert!(view.lines.iter().any(|l| l == "background"));
    assert!(mux.set_active(999).is_err());
    assert_eq!(mux.active_session(), Some(a));
}

#[test]
fn output_for_closed_session_is_dropped() {
    let mut mux = SessionMultiplexer::new();
    let id = mux.new_session(args("sh", vec![]), Ok(9));
    mux.close_session(id);
    mux.route_output(id, b"late\n");
    assert!(mux.list_sessions().is_empty());
}

#[test]
fn resize_is_idempotent() {
    // Recording the same size twice leaves the same child-visible size as
    // recording it once.
    let mut pool = PtyManager::new();
    let id = pool.register_spawn(100, "sh".to_string());
    assert!(pool.resize(id, 80, 24).is_ok());
    let once: Vec<(u16, u16)> = pool.processes.iter().map(|h| (h.cols, h.rows)).collect();
    assert!(pool.resize(id, 80, 24).is_ok());
    let twice: Vec<(u16, u16)> = pool.processes.iter().map(|h| (h.cols, h.rows)).collect();
    assert_eq!(once, twice);
    assert_eq!(twice[0], (80, 24));
}

#[test]
fn resize_broadcast_reaches_every_session() {
    let mut mux = SessionMultiplexer::new();
    let a = mux.new_session(args("sh", vec![]), Ok(11));
    let _failed = mux.new_session(args("/nope", vec![]), Err(SpawnError::NotFound));
    let b = mux.new_session(args("sh", vec![]), Ok(12));
    let mut lp = EventLoop::new(mux, InputRouter::new(vec![]), false);
    let actions = lp.step(InputEvent::Resize { cols: 132, rows: 43 });
    let resized: Vec<(u32, u16, u16)> = actions
        .iter()
        .filter_map(|act| match act {
            OutputAction::ResizePty { pid, cols, rows } => Some((*pid, *cols, *rows)),
            _ => None,
        })
        .collect();
    assert_eq!(resized, vec![(11, 132, 43), (12, 132, 43)]);
    for s in &lp.mux.sessions {
        if let SessionProcess::Attached(h) = &s.process {
            assert_eq!((h.cols, h.rows), (132, 43));
        }
    }
    let _ = (a, b);
}

#[test]
fn every_step_renders_exactly_once_and_last() {
    let mut mux = SessionMultiplexer::new();
    let id = mux.new_session(args("sh", vec![]), Ok(21));
    let mut lp = EventLoop::new(mux, InputRouter::new(vec![]), false);
    let events = vec![
        InputEvent::KeyPress(key(Key::Char('l'))),
        InputEvent::Paste("ls".to_string()),
        InputEvent::Resize { cols: 80, rows: 24 },
        InputEvent::ProcessOutput { session: id, bytes: b"x".to_vec() },
        InputEvent::ProcessExited { session: id, code: 1 },
        InputEvent::Quit,
    ];
    for ev in events {
        let actions = lp.step(ev);
        let renders = actions
            .iter()
            .filter(|a| matches!(a, OutputAction::Render))
            .count();
        assert_eq!(renders, 1);
        assert!(matches!(actions.last().unwrap(), OutputAction::Render));
    }
    assert!(lp.shutting_down);
}

#[test]
fn typing_and_submitting_publishes_and_forwards() {
    let mut mux = SessionMultiplexer::new();
    let id = mux.new_session(args("sh", vec![]), Ok(31));
    let mut lp = EventLoop::new(mux, InputRouter::new(vec![]), false);
    for c in "echo hello".chars() {
        lp.step(InputEvent::KeyPress(key(Key::Char(c))));
    }
    let actions = lp.step(InputEvent::KeyPress(key(Key::Enter)));
    let mut saw_publish = false;
    let mut saw_write = false;
    for act in &actions {
        match act {
            OutputAction::PublishSubmitted { session, text } => {
                assert_eq!(*session, id);
                assert_eq!(text, "echo hello");
                saw_publish = true;
            }
            OutputAction::WriteToPty { pid, bytes } => {
                assert_eq!(*pid, 31);
                assert_eq!(bytes, b"echo hello\n");
                saw_write = true;
            }
            _ => {}
        }
    }
    assert!(saw_publish && saw_write);
    let view = lp.mux.session_snapshot(id).unwrap();
    assert_eq!(view.current_input, "");
    assert!(view.lines.iter().any(|l| l == "❯ echo hello"));
}

#[test]
fn control_keys_reach_the_process_in_any_mode() {
    let router = InputRouter::new(vec![]);
    let a = router.handle_key(ctrl('c'));
    assert_eq!(a, Action::Control(ControlSignal::Interrupt));
    let mut raw = InputRouter::new(vec![]);
    raw.set_mode(InputMode::RawPassthrough);
    assert_eq!(raw.handle_key(ctrl('c')), Action::Control(ControlSignal::Interrupt));
    assert_eq!(raw.handle_key(ctrl('d')), Action::Control(ControlSignal::EndOfInput));
}

#[test]
fn passthrough_forwards_bytes() {
    let mut raw = InputRouter::new(vec![]);
    raw.set_mode(InputMode::RawPassthrough);
    match raw.handle_key(key(Key::Char('é'))) {
        Action::Forward(bytes) => assert_eq!(bytes, "é".as_bytes().to_vec()),
        other => panic!("expected Forward, got {:?}", other),
    }
    match raw.handle_key(key(Key::Enter)) {
        Action::Forward(bytes) => assert_eq!(bytes, vec![0x0D]),
        other => panic!("expected Forward, got {:?}", other),
    }
}

#[test]
fn closing_last_session_can_end_the_loop() {
    let mut mux = SessionMultiplexer::new();
    let id = mux.new_session(args("sh", vec![]), Ok(41));
    let mut lp = EventLoop::new(mux, InputRouter::new(vec![]), true);
    let actions = lp.step(InputEvent::CloseSession { session: id });
    assert!(actions
        .iter()
        .any(|a| matches!(a, OutputAction::KillProcess { pid: 41 })));
    assert!(lp.shutting_down);
    assert!(lp.mux.sessions.is_empty());
}

#[test]
fn kill_marks_the_process() {
    let mut pool = PtyManager::new();
    let id = pool.register_spawn(200, "sh".to_string());
    assert!(pool.kill_process(id).is_ok());
    assert_eq!(pool.processes[id].status, ProcessStatus::Killed);
    assert!(pool.switch_to_process(id).is_ok());
    assert_eq!(pool.get_active_process_id(), Some(id));
    assert!(pool.terminate().is_ok());
    assert!(pool.processes.is_empty());
    assert_eq!(pool.get_active_process_id(), None);
}
