use warp_terminal::commands::{Command, CommandExecutor, CommandPlan};
use warp_terminal::error::WarpError;
use warp_terminal::input::{Action, AppCommand, Binding, EditOp, InputRouter, Key, KeyPress};
use warp_terminal::keysets::{default_keyset, emacs_keyset, router_bindings, vim_keyset, KeySetManager};
use warp_terminal::marketplace::SecurityManager;
use warp_terminal::screen::TerminalState;
use warp_terminal::terminal::Terminal;
use warp_terminal::themes::{dark_theme, light_theme, ThemeManager};
use warp_terminal::workflows::{Workflow, WorkflowManager, WorkflowTrigger};

#[test]
fn parse_picks_builtins_case_insensitively() {
    assert_eq!(Command::parse("clear"), Command::Clear);
    assert_eq!(Command::parse("  CLEAR  "), Command::Clear);
    assert_eq!(Command::parse("Exit"), Command::Exit);
    assert_eq!(Command::parse("help"), Command::Help);
    assert_eq!(Command::parse("ai what is a pty"), Command::Ai("what is a pty".to_string()));
    assert_eq!(Command::parse("ai"), Command::Ai(String::new()));
    assert_eq!(Command::parse("ls -la"), Command::Unknown("ls -la".to_string()));
    assert_eq!(Command::parse(""), Command::Unknown(String::new()));
}

#[test]
fn execute_clear_empties_history_and_input() {
    let mut state = TerminalState::new();
    state.add_char('x');
    assert!(Command::Clear.execute(&mut state).is_ok());
    assert_eq!(state.history.len(), 0);
    assert_eq!(state.current_input, "");
}

#[test]
fn execute_help_and_ai_add_lines() {
    let mut state = TerminalState::new();
    assert!(Command::Help.execute(&mut state).is_ok());
    assert_eq!(
        state.history.back().unwrap(),
        "Available commands: clear, exit, help, ai <query>"
    );
    assert!(Command::Ai("sort files".to_string()).execute(&mut state).is_ok());
    assert_eq!(state.history.back().unwrap(), "AI processing: sort files");
}

#[test]
fn execute_unknown_is_the_one_error() {
    let mut state = TerminalState::new();
    let r = Command::Unknown("frobnicate".to_string()).execute(&mut state);
    match r {
        Err(WarpError::CommandError(m)) => assert_eq!(m, "Unknown command: frobnicate"),
        other => panic!("expected CommandError, got {:?}", other),
    }
}

#[test]
fn executor_decides_builtins_and_externals() {
    let ex = CommandExecutor::new("/home/me".to_string());
    assert_eq!(ex.execute("   "), CommandPlan::Empty);
    match ex.execute("help") {
        CommandPlan::Output(o) => assert!(o.contains("Available Commands")),
        other => panic!("expected Output, got {:?}", other),
    }
    assert_eq!(ex.execute("clear"), CommandPlan::Output("\u{1b}[2J\u{1b}[H".to_string()));
    assert_eq!(ex.execute("pwd"), CommandPlan::Output("/home/me".to_string()));
    assert_eq!(
        ex.execute("cd /tmp"),
        CommandPlan::ChangeDir { path: "/tmp".to_string() }
    );
    assert_eq!(
        ex.execute("cd projects"),
        CommandPlan::ChangeDir { path: "/home/me/projects".to_string() }
    );
    assert_eq!(
        ex.execute("ls  -la   src"),
        CommandPlan::External {
            argv: vec!["ls".to_string(), "-la".to_string(), "src".to_string()]
        }
    );
}

#[test]
fn combine_output_marks_stderr() {
    assert_eq!(
        warp_terminal::commands::combine_output("out line", ""),
        "out line"
    );
    assert_eq!(
        warp_terminal::commands::combine_output("out line", "oops"),
        "out line\n❌ oops"
    );
    assert_eq!(warp_terminal::commands::combine_output("", "only err"), "\n❌ only err");
}

#[test]
fn help_text_names_the_builtins() {
    let ex = CommandExecutor::new("/".to_string());
    let text = ex.help_text();
    for word in ["help", "clear", "pwd", "cd <path>", "ai <query>"] {
        assert!(text.contains(word));
    }
}

#[test]
fn keyset_manager_tracks_current() {
    let mut m = KeySetManager::new();
    assert_eq!(m.get_current_keyset().unwrap().name, "Default");
    assert!(m.get_keyset("emacs").is_some());
    assert!(m.get_keyset("nope").is_none());
    assert!(m.set_current_keyset("vim".to_string()).is_ok());
    assert_eq!(m.get_current_keyset().unwrap().name, "Vim");
    match m.set_current_keyset("nope".to_string()) {
        Err(WarpError::ConfigError(msg)) => assert_eq!(msg, "Keyset 'nope' not found"),
        other => panic!("expected ConfigError, got {:?}", other),
    }
    let names: Vec<String> = m.list_keysets().iter().map(|s| s.to_string()).collect();
    assert_eq!(names, vec!["default", "emacs", "vim"]);
}

#[test]
fn presets_hold_their_bindings() {
    let d = default_keyset();
    assert_eq!(d.bindings.len(), 6);
    assert_eq!(d.bindings[0].key, "c");
    assert_eq!(d.bindings[0].action, "copy");
    assert_eq!(d.bindings[0].modifiers, vec!["ctrl".to_string()]);
    let e = emacs_keyset();
    assert_eq!(e.bindings.len(), 5);
    assert_eq!(e.bindings[2].action, "kill_line");
    let v = vim_keyset();
    assert_eq!(v.bindings.len(), 4);
    assert!(v.bindings.iter().all(|b| b.modifiers.is_empty()));
    assert!(v.bindings.iter().all(|b| b.when.as_deref() == Some("normal_mode")));
}

#[test]
fn keyset_bindings_drive_the_router() {
    let bindings = router_bindings(&default_keyset());
    // Ctrl+C is reserved for the interrupt, so five of the six bindings
    // take part; the copy binding is `when`-gated and stays out.
    assert_eq!(bindings.len(), 5);
    assert!(bindings.contains(&Binding { key: 't', ctrl: true, alt: false, action: AppCommand::NewTab }));
    let router = InputRouter::new(bindings);
    let a = router.handle_key(KeyPress { code: Key::Char('t'), ctrl: true, alt: false, shift: false });
    assert_eq!(a, Action::App(AppCommand::NewTab));
    // A plain character still edits the line.
    let b = router.handle_key(KeyPress { code: Key::Char('t'), ctrl: false, alt: false, shift: false });
    assert_eq!(b, Action::Edit(EditOp::Insert('t')));
    // Vim's bare-key motions are mode-gated, so they convert to nothing.
    assert_eq!(router_bindings(&vim_keyset()).len(), 0);
}

#[test]
fn theme_manager_tracks_current() {
    let mut m = ThemeManager::new();
    assert_eq!(m.get_current_theme().unwrap().name, "Standard Dark");
    assert!(m.get_theme("standard_light").is_some());
    assert!(m.set_current_theme("standard_light".to_string()).is_ok());
    assert_eq!(m.get_current_theme().unwrap().name, "Standard Light");
    match m.set_current_theme("neon".to_string()) {
        Err(WarpError::ConfigError(msg)) => assert_eq!(msg, "Theme 'neon' not found"),
        other => panic!("expected ConfigError, got {:?}", other),
    }
    let names: Vec<String> = m.list_themes().iter().map(|s| s.to_string()).collect();
    assert_eq!(names, vec!["standard_dark", "standard_light"]);
}

#[test]
fn standard_themes_hold_their_colors() {
    let d = dark_theme();
    assert_eq!(d.name, "Standard Dark");
    assert_eq!(d.colors.background, "#1e1e2e");
    assert_eq!(d.colors.ansi.red, "#f38ba8");
    assert!(d.terminal.bright_bold);
    let l = light_theme();
    assert_eq!(l.name, "Standard Light");
    assert_eq!(l.colors.background, "#eff1f5");
    assert_eq!(l.ui.accent, "#1e66f5");
}

fn workflow(name: &str, trigger: WorkflowTrigger) -> Workflow {
    Workflow {
        name: name.to_string(),
        description: None,
        author: None,
        version: "1".to_string(),
        trigger,
        steps: vec![],
        variables: None,
    }
}

#[test]
fn workflow_manager_finds_by_trigger_kind() {
    let mut m = WorkflowManager::new();
    m.add_workflow(workflow("on-save", WorkflowTrigger::FileChange { pattern: "*.rs".into() }));
    m.add_workflow(workflow("deploy", WorkflowTrigger::Command { pattern: "deploy".into() }));
    m.add_workflow(workflow("backup", WorkflowTrigger::FileChange { pattern: "*".into() }));
    m.add_workflow(workflow("byhand", WorkflowTrigger::Manual));
    assert!(m.get_workflow("deploy").is_some());
    assert!(m.get_workflow("missing").is_none());
    let found = m.find_workflows_by_trigger(&WorkflowTrigger::FileChange {
        pattern: "anything".into(),
    });
    let names: Vec<&str> = found.iter().map(|w| w.name.as_str()).collect();
    assert_eq!(names, vec!["on-save", "backup"]);
    assert_eq!(m.list_workflows().len(), 4);
}

#[test]
fn security_manager_gates_publishers_and_packages() {
    let mut sec = SecurityManager::new();
    assert!(sec.is_publisher_trusted("warp-official"));
    assert!(sec.is_publisher_trusted("catppuccin"));
    assert!(!sec.is_publisher_trusted("somebody-else"));
    assert!(sec.verify_item("fine-item").is_ok());
    sec.block_item("bad-item".to_string());
    match sec.verify_item("bad-item") {
        Err(WarpError::ConfigError(m)) => assert_eq!(m, "Item bad-item is blocked"),
        other => panic!("expected ConfigError, got {:?}", other),
    }
    assert!(sec.scan_package(&[0u8; 128]).is_ok());
}

#[test]
fn terminal_grid_tracks_cells_and_cursor() {
    let mut t = Terminal::new(10, 3);
    assert_eq!(t.get_size(), (10, 3));
    assert_eq!(t.get_cursor_position(), (0, 0));
    assert!(t.write_at(7, 1, "hello").is_ok());
    assert_eq!(t.buffer[1][7], 'h');
    assert_eq!(t.buffer[1][9], 'l');
    // Past the right edge is dropped.
    assert_eq!(t.buffer[1].len(), 10);
    assert!(t.move_cursor(4, 2).is_ok());
    assert_eq!(t.get_cursor_position(), (4, 2));
    assert!(t.resize(5, 2).is_ok());
    assert_eq!(t.get_size(), (5, 2));
    assert!(t.buffer.iter().all(|row| row.iter().all(|c| *c == ' ')));
    assert!(t.clear().is_ok());
    assert_eq!(t.get_cursor_position(), (0, 0));
}

#[test]
fn error_messages_carry_their_label() {
    let e = WarpError::PtyError("broken".to_string());
    assert_eq!(e.message(), "PTY Error: broken");
    let e = WarpError::CommandError("nope".to_string());
    assert_eq!(e.message(), "Command Error: nope");
}
