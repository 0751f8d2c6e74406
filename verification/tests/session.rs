use renix::config::Config;
use renix::hosts::{Connection, HostConfig};
use renix::session::{App, CommitAction, EditMode, FocusedPanel, RebuildOperation};
use renix::terminal::Cell;
use tokio::sync::mpsc;

fn screen_text(rows: &Vec<Vec<Cell>>) -> String {
    rows.iter()
        .map(|r| r.iter().map(|c| c.ch).collect::<String>())
        .collect::<Vec<_>>()
        .join("\n")
}

fn config_with(name: &str, hc: HostConfig) -> Config {
    let mut c = Config::default();
    c.set_host(name.to_string(), hc);
    c
}

fn building_app() -> (App, mpsc::Sender<Vec<u8>>, mpsc::Receiver<Vec<u8>>) {
    let mut app = App::new(config_with("box", HostConfig::local()));
    let cmd = app.start_rebuild();
    assert!(cmd.is_some());
    assert!(app.is_building);
    let (out_tx, out_rx) = mpsc::channel::<Vec<u8>>(100);
    let (in_tx, in_rx) = mpsc::channel::<Vec<u8>>(100);
    app.attach_channels(out_rx, in_tx);
    (app, out_tx, in_rx)
}

#[test]
fn start_against_unconfigured_host_stays_idle() {
    let mut app = App::new(config_with("ghost", HostConfig::unconfigured()));
    let before_rows = app.terminal.get_scrollback().len();
    let cmd = app.start_rebuild();
    assert!(cmd.is_none());
    assert!(!app.is_building);
    assert!(app.output_receiver.is_none());
    assert!(app.input_sender.is_none());
    let text = screen_text(app.terminal.get_screen());
    assert!(text.contains("Error: Host is not configured"));
    // Exactly one diagnostic line: the cursor sits at the start of row 1.
    assert_eq!(app.terminal.cursor_position(), (0, 1));
    assert_eq!(app.terminal.get_scrollback().len(), before_rows);
}

#[test]
fn cancel_while_building_goes_idle_and_poll_is_noop() {
    let (mut app, _out_tx, _in_rx) = building_app();
    app.cancel_build();
    assert!(!app.is_building);
    assert!(app.output_receiver.is_none());
    assert!(app.input_sender.is_none());
    assert!(!app.input_mode);
    let text = screen_text(app.terminal.get_screen());
    assert_eq!(text.matches("Build cancelled by user").count(), 1);
    let before = screen_text(app.terminal.get_screen());
    app.poll_output();
    assert!(!app.is_building);
    assert_eq!(screen_text(app.terminal.get_screen()), before);
}

#[test]
fn failure_sentinel_stops_draining_queued_chunks() {
    let (mut app, out_tx, _in_rx) = building_app();
    out_tx
        .try_send(b"\n\xe2\x9c\x97 Build failed with exit code: 1\n".to_vec())
        .unwrap();
    out_tx.try_send(b"LATEDATA".to_vec()).unwrap();
    app.poll_output();
    assert!(!app.is_building);
    assert!(app.output_receiver.is_none());
    assert!(app.input_sender.is_none());
    assert!(!app.input_mode);
    let text = screen_text(app.terminal.get_screen());
    assert!(text.contains("Build failed with exit code: 1"));
    assert!(!text.contains("LATEDATA"));
}

#[test]
fn poll_feeds_chunks_in_order_until_empty() {
    let (mut app, out_tx, _in_rx) = building_app();
    out_tx.try_send(b"one ".to_vec()).unwrap();
    out_tx.try_send(b"two".to_vec()).unwrap();
    app.poll_output();
    assert!(app.is_building);
    assert!(app.output_receiver.is_some());
    let text = screen_text(app.terminal.get_screen());
    assert!(text.contains("one two"));
}

#[test]
fn success_sentinel_finishes_build() {
    let (mut app, out_tx, _in_rx) = building_app();
    out_tx
        .try_send(b"\n\xe2\x9c\x93 Build completed successfully!\n".to_vec())
        .unwrap();
    app.poll_output();
    assert!(!app.is_building);
    assert!(app.output_receiver.is_none());
}

#[test]
fn start_writes_banner_and_builds_command() {
    let mut app = App::new(config_with("athena", HostConfig::local()));
    app.use_upgrade = true;
    let cmd = app.start_rebuild().expect("command");
    assert!(app.is_building);
    assert_eq!(app.output_scroll, 0);
    let text = screen_text(app.terminal.get_screen());
    assert!(text.contains("Starting switch for athena (localhost) with --upgrade ..."));
    assert_eq!(cmd.config_name, "athena");
    assert_eq!(cmd.pty_cols, 80);
    assert_eq!(cmd.pty_rows, 24);
    assert_eq!(cmd.extra_args, vec!["--upgrade".to_string()]);
    // Starting again while building is a no-op.
    let again = app.start_rebuild();
    assert!(again.is_none());
}

#[test]
fn quit_requires_confirmation_while_building() {
    let (mut app, _out_tx, _in_rx) = building_app();
    assert!(!app.attempt_quit());
    assert!(app.quit_warned);
    let text = screen_text(app.terminal.get_screen());
    assert!(text.contains("Build in progress!"));
    assert!(app.attempt_quit());
    assert!(!app.is_building);
    assert!(!app.quit_warned);
}

#[test]
fn quit_when_idle_exits_immediately() {
    let mut app = App::new(Config::default());
    assert!(app.attempt_quit());
    assert!(!app.quit_warned);
    // A warning armed during a build does not survive into idle quitting:
    // a finished build clears it, and an idle request never arms it.
    let (mut app, out_tx, _in_rx) = building_app();
    assert!(!app.attempt_quit());
    assert!(app.quit_warned);
    out_tx
        .try_send(b"\n\xe2\x9c\x93 Build completed successfully!\n".to_vec())
        .unwrap();
    app.poll_output();
    assert!(!app.is_building);
    assert!(!app.quit_warned);
    assert!(app.attempt_quit());
}

#[test]
fn input_mode_only_while_building_with_channel() {
    let mut app = App::new(config_with("box", HostConfig::local()));
    app.toggle_input_mode();
    assert!(!app.input_mode);
    let (mut app, _out_tx, mut in_rx) = building_app();
    app.toggle_input_mode();
    assert!(app.input_mode);
    app.send_input(b"secret\n".to_vec());
    assert_eq!(in_rx.try_recv().unwrap(), b"secret\n".to_vec());
}

#[test]
fn send_input_without_channel_is_dropped() {
    let mut app = App::new(Config::default());
    app.send_input(b"x".to_vec());
    assert!(app.input_sender.is_none());
}

#[test]
fn host_navigation_and_sorting() {
    let mut c = Config::default();
    c.set_host("zeta".to_string(), HostConfig::unconfigured());
    c.set_host("alpha".to_string(), HostConfig::local());
    c.set_host("mike".to_string(), HostConfig::unconfigured());
    let mut app = App::new(c);
    let hosts = app.get_hosts();
    let names: Vec<&str> = hosts.iter().map(|h| h.0.as_str()).collect();
    assert_eq!(names, vec!["alpha", "mike", "zeta"]);
    assert_eq!(app.get_selected_host().unwrap().0, "alpha");
    app.select_next_host();
    assert_eq!(app.get_selected_host().unwrap().0, "mike");
    app.select_next_host();
    app.select_next_host();
    assert_eq!(app.get_selected_host().unwrap().0, "zeta");
    app.select_prev_host();
    assert_eq!(app.get_selected_host().unwrap().0, "mike");
}

#[test]
fn operation_cycling_matches_display_order() {
    assert_eq!(RebuildOperation::Switch.as_str(), "switch");
    assert_eq!(RebuildOperation::DryActivate.as_str(), "dry-activate");
    let all = RebuildOperation::all();
    assert_eq!(all.len(), 6);
    let mut op = RebuildOperation::Switch;
    for expected in &all {
        assert_eq!(op, *expected);
        op = op.next();
    }
    assert_eq!(op, RebuildOperation::Switch);
    assert_eq!(RebuildOperation::Switch.prev(), RebuildOperation::DryActivate);
    let mut app = App::new(Config::default());
    app.next_operation();
    assert_eq!(app.selected_operation, RebuildOperation::Boot);
    app.prev_operation();
    assert_eq!(app.selected_operation, RebuildOperation::Switch);
}

#[test]
fn panel_toggle_and_upgrade_flag() {
    let mut app = App::new(Config::default());
    assert_eq!(app.focused_panel, FocusedPanel::Main);
    app.toggle_panel();
    assert_eq!(app.focused_panel, FocusedPanel::Settings);
    app.toggle_panel();
    assert_eq!(app.focused_panel, FocusedPanel::Main);
    assert!(!app.use_upgrade);
    app.toggle_upgrade();
    assert!(app.use_upgrade);
}

#[test]
fn scroll_bounds_respect_content() {
    let mut app = App::new(Config::default());
    app.resize_terminal(4, 3);
    app.scroll_output_down();
    assert_eq!(app.output_scroll, 0);
    app.scroll_output_up();
    assert_eq!(app.output_scroll, 1);
    for _ in 0..10 {
        app.scroll_output_up();
    }
    // Only height-many lines exist, so the offset caps at lines - 1.
    assert_eq!(app.output_scroll, 2);
    app.scroll_output_down();
    assert_eq!(app.output_scroll, 1);
}

#[test]
fn edit_flake_path_commit_and_clear() {
    let mut app = App::new(Config::default());
    app.start_edit_flake_path();
    assert!(app.is_editing());
    assert_eq!(app.edit_mode, EditMode::FlakePath);
    assert_eq!(app.edit_buffer, "");
    for ch in "/etc/nixos".chars() {
        app.edit_insert_char(ch);
    }
    let action = app.commit_edit();
    assert_eq!(action, CommitAction::SaveAndRefresh);
    assert_eq!(app.config.flake_path.as_deref(), Some("/etc/nixos"));
    assert!(!app.is_editing());
    // Committing the same path again only saves.
    app.start_edit_flake_path();
    assert_eq!(app.edit_buffer, "/etc/nixos");
    let action = app.commit_edit();
    assert_eq!(action, CommitAction::Save);
    // An empty buffer clears the path.
    app.start_edit_flake_path();
    for _ in 0.."/etc/nixos".len() {
        app.edit_backspace();
    }
    let action = app.commit_edit();
    assert_eq!(action, CommitAction::SaveAndRefresh);
    assert!(app.config.flake_path.is_none());
}

#[test]
fn edit_host_connection_variants() {
    let mut app = App::new(config_with("box", HostConfig::unconfigured()));
    app.start_edit_host_connection();
    assert_eq!(app.edit_buffer, "");
    for ch in "localhost".chars() {
        app.edit_insert_char(ch);
    }
    assert_eq!(app.commit_edit(), CommitAction::Save);
    assert!(matches!(app.config.hosts[0].1.connection, Connection::Local));
    app.start_edit_host_connection();
    assert_eq!(app.edit_buffer, "localhost");
    for _ in 0.."localhost".len() {
        app.edit_backspace();
    }
    for ch in "user@example".chars() {
        app.edit_insert_char(ch);
    }
    assert_eq!(app.commit_edit(), CommitAction::Save);
    match &app.config.hosts[0].1.connection {
        Connection::Remote(addr) => assert_eq!(addr, "user@example"),
        other => panic!("expected remote, got {:?}", other),
    }
    app.start_edit_host_connection();
    assert_eq!(app.edit_buffer, "user@example");
    for _ in 0.."user@example".len() {
        app.edit_backspace();
    }
    assert_eq!(app.commit_edit(), CommitAction::Save);
    assert!(matches!(
        app.config.hosts[0].1.connection,
        Connection::Unconfigured
    ));
}

#[test]
fn edit_extra_args_splits_whitespace() {
    let mut app = App::new(config_with("box", HostConfig::local()));
    app.start_edit_extra_args();
    assert_eq!(app.edit_buffer, "");
    for ch in "  --fast   --verbose ".chars() {
        app.edit_insert_char(ch);
    }
    assert_eq!(app.commit_edit(), CommitAction::Save);
    assert_eq!(
        app.config.hosts[0].1.extra_args,
        vec!["--fast".to_string(), "--verbose".to_string()]
    );
    app.start_edit_extra_args();
    assert_eq!(app.edit_buffer, "--fast --verbose");
    for _ in 0.."--fast --verbose".len() {
        app.edit_backspace();
    }
    for ch in "   ".chars() {
        app.edit_insert_char(ch);
    }
    assert_eq!(app.commit_edit(), CommitAction::Save);
    assert!(app.config.hosts[0].1.extra_args.is_empty());
}

#[test]
fn extra_args_split_on_unicode_whitespace() {
    let mut app = App::new(config_with("box", HostConfig::local()));
    app.start_edit_extra_args();
    for ch in "--one".chars() {
        app.edit_insert_char(ch);
    }
    app.edit_insert_char('\u{a0}');
    for ch in "--two".chars() {
        app.edit_insert_char(ch);
    }
    assert_eq!(app.commit_edit(), CommitAction::Save);
    assert_eq!(
        app.config.hosts[0].1.extra_args,
        vec!["--one".to_string(), "--two".to_string()]
    );
}

#[test]
fn cancel_edit_discards_changes() {
    let mut app = App::new(Config::default());
    app.start_edit_flake_path();
    app.edit_insert_char('x');
    app.cancel_edit();
    assert!(!app.is_editing());
    assert!(app.config.flake_path.is_none());
    // Committing with no edit open does nothing.
    assert_eq!(app.commit_edit(), CommitAction::Nothing);
}

#[test]
fn commit_edit_without_host_selected_does_nothing() {
    let mut app = App::new(Config::default());
    app.edit_mode = EditMode::HostConnection;
    app.edit_buffer = "somewhere".to_string();
    assert_eq!(app.commit_edit(), CommitAction::Nothing);
    assert!(app.config.hosts.is_empty());
}
