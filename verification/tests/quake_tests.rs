use cosmic_quake_term::action::{Args, QuakeAction};
use cosmic_quake_term::config::QuakeConfig;
use cosmic_quake_term::process::SpawnResult;
use cosmic_quake_term::quake::{
    known_terminal, terminal_gone, window_event_message, Activation, Effect, Message, QuakeTerminal, ToggleState,
    WindowEvent, KNOWN_TERMINAL_COUNT,
};
use cosmic_quake_term::wayland::{ToplevelEvent, WaylandCommand, WaylandController};

fn app(handler: bool) -> QuakeTerminal {
    QuakeTerminal::init(QuakeConfig::default(), handler, Args { subcommand: None }).0
}

fn strings(v: &[&str]) -> Vec<String> {
    v.iter().map(|s| s.to_string()).collect()
}

#[test]
fn init_dispatches_cli_action() {
    let (a, m) = QuakeTerminal::init(QuakeConfig::default(), true, Args { subcommand: None });
    assert!(m.is_none());
    assert_eq!(a.state, ToggleState::Idle);
    assert_eq!(a.terminal_app_id, "cosmic-ext-quake-terminal");
    assert!(a.terminal_pid.is_none());
    let (_, m) = QuakeTerminal::init(
        QuakeConfig::default(),
        true,
        Args { subcommand: Some(QuakeAction::Settings) },
    );
    assert!(matches!(m, Some(Message::OpenSettings)));
    let (_, m) = QuakeTerminal::init(
        QuakeConfig::default(),
        false,
        Args { subcommand: Some(QuakeAction::Toggle) },
    );
    assert!(matches!(m, Some(Message::Toggle)));
}

#[test]
fn init_app_id_follows_configured_terminal() {
    let mut c = QuakeConfig::default();
    c.terminal_command = "ghostty".to_string();
    let (a, _) = QuakeTerminal::init(c, true, Args { subcommand: None });
    assert_eq!(a.terminal_app_id, "com.mitchellh.ghostty");
}

#[test]
fn session_lifecycle() {
    let (tx, rx) = std::sync::mpsc::channel();
    let mut a = app(true);
    a.config.terminal_args = strings(&["-e", "btop"]);
    assert!(matches!(
        a.update(Message::ToplevelEvent(ToplevelEvent::Ready(WaylandController::new(tx)))),
        Effect::Nothing
    ));
    match a.update(Message::Toggle) {
        Effect::Spawn(c) => {
            assert_eq!(c.program, "cosmic-term");
            assert_eq!(c.args, strings(&["--class", "cosmic-ext-quake-terminal", "-e", "btop"]));
            assert_eq!(c.app_id, "cosmic-ext-quake-terminal");
        }
        other => panic!("expected a spawn, got {:?}", other),
    }
    assert_eq!(a.state, ToggleState::Idle);
    a.terminal_spawned(Some(SpawnResult { pid: 42, app_id: "cosmic-ext-quake-terminal".into() }));
    assert_eq!(a.state, ToggleState::WaitingForWindow);
    assert_eq!(a.terminal_pid, Some(42));
    assert!(matches!(a.update(Message::Toggle), Effect::Nothing));
    assert_eq!(a.state, ToggleState::WaitingForWindow);
    assert!(matches!(a.update(Message::ToplevelEvent(ToplevelEvent::Found)), Effect::Nothing));
    assert_eq!(a.state, ToggleState::Visible);
    for expected in [WaylandCommand::Minimize, WaylandCommand::Activate] {
        match a.update(Message::Toggle) {
            Effect::Send(c) => {
                assert_eq!(c, expected);
                let _ = a.wayland_controller.as_ref().unwrap().send(c);
            }
            other => panic!("expected a command, got {:?}", other),
        }
    }
    assert_eq!(a.state, ToggleState::Visible);
    assert_eq!(rx.try_recv(), Ok(WaylandCommand::Minimize));
    assert_eq!(rx.try_recv(), Ok(WaylandCommand::Activate));
    assert!(rx.try_recv().is_err());
    assert_eq!(a.terminal_pid, Some(42));
    assert!(matches!(
        a.update(Message::ToplevelEvent(ToplevelEvent::Closed)),
        Effect::Terminate(42)
    ));
    assert_eq!(a.state, ToggleState::Idle);
    assert!(a.terminal_pid.is_none());
}

#[test]
fn failed_spawn_stays_idle() {
    let mut a = app(true);
    a.terminal_spawned(None);
    assert_eq!(a.state, ToggleState::Idle);
    assert!(a.terminal_pid.is_none());
}

#[test]
fn toggle_without_controller_still_switches() {
    let mut a = app(true);
    a.state = ToggleState::Hidden;
    a.terminal_pid = Some(7);
    assert!(matches!(a.update(Message::Toggle), Effect::Nothing));
    assert_eq!(a.state, ToggleState::Visible);
    assert!(matches!(a.update(Message::Toggle), Effect::Nothing));
    assert_eq!(a.state, ToggleState::Hidden);
}

#[test]
fn compositor_reports() {
    let mut a = app(true);
    a.state = ToggleState::Visible;
    a.update(Message::ToplevelEvent(ToplevelEvent::Minimized));
    assert_eq!(a.state, ToggleState::Visible, "no known terminal: ignored");
    a.terminal_pid = Some(9);
    a.update(Message::ToplevelEvent(ToplevelEvent::Minimized));
    assert_eq!(a.state, ToggleState::Hidden);
    a.update(Message::ToplevelEvent(ToplevelEvent::Found));
    assert_eq!(a.state, ToggleState::Hidden, "found only counts while waiting");
    a.update(Message::ToplevelEvent(ToplevelEvent::Activated));
    assert_eq!(a.state, ToggleState::Visible);
}

#[test]
fn terminal_exit_only_reaps() {
    let mut a = app(true);
    a.state = ToggleState::Visible;
    a.terminal_pid = Some(5);
    assert!(matches!(a.update(Message::TerminalExited), Effect::Reap(5)));
    assert_eq!(a.state, ToggleState::Visible);
    assert!(a.terminal_pid.is_none());
    assert!(matches!(a.update(Message::TerminalExited), Effect::Nothing));
    assert!(matches!(a.update(Message::ToplevelEvent(ToplevelEvent::Closed)), Effect::Nothing));
    assert_eq!(a.state, ToggleState::Idle);
}

#[test]
fn settings_window_lifecycle() {
    let mut a = app(true);
    assert!(matches!(a.update(Message::OpenSettings), Effect::OpenSettingsWindow));
    a.settings_window_opened(3);
    assert!(matches!(a.update(Message::OpenSettings), Effect::Nothing));
    assert!(matches!(a.update(Message::WindowOpened(3)), Effect::Nothing));
    assert!(matches!(a.update(Message::CloseWindow(4)), Effect::Nothing));
    assert_eq!(a.settings_window_id, Some(3));
    assert!(matches!(a.update(Message::CloseWindow(3)), Effect::CloseWindow(3)));
    assert_eq!(a.settings_window_id, None);
    a.settings_window_opened(8);
    a.update(Message::WindowClosed(8));
    assert_eq!(a.settings_window_id, None);
}

#[test]
fn settings_view_content() {
    let mut a = app(true);
    a.config.terminal_command = "foot".to_string();
    a.config.terminal_args = strings(&["-e", "htop"]);
    assert!(a.settings_view(1).is_none());
    a.settings_window_opened(1);
    assert!(a.settings_view(2).is_none());
    let v = a.settings_view(1).unwrap();
    assert_eq!(v.selected, 3);
    assert_eq!(v.args_text, "-e htop");
    a.config.terminal_command = "/usr/bin/foot".to_string();
    assert_eq!(a.terminal_index(), 0, "only exact commands select a terminal");
}

#[test]
fn choosing_terminal() {
    let mut a = app(true);
    assert!(matches!(a.update(Message::SetTerminalCommand(0)), Effect::Nothing), "unchanged");
    assert_eq!(a.terminal_index(), 0);
    for i in 1..KNOWN_TERMINAL_COUNT {
        match a.update(Message::SetTerminalCommand(i)) {
            Effect::StoreTerminalCommand(c) => assert_eq!(c, known_terminal(i).unwrap().command),
            other => panic!("expected a store, got {:?}", other),
        }
        assert_eq!(a.terminal_index(), i);
    }
    assert!(matches!(a.update(Message::SetTerminalCommand(KNOWN_TERMINAL_COUNT)), Effect::Nothing));
    assert_eq!(a.config.terminal_command, "ghostty");
    let mut b = app(false);
    assert!(matches!(b.update(Message::SetTerminalCommand(2)), Effect::Nothing));
    assert_eq!(b.config.terminal_command, "cosmic-term");
}

#[test]
fn known_terminals_table() {
    let t = known_terminal(0).unwrap();
    assert_eq!((t.command, t.display_name, t.icon_name), ("cosmic-term", "cosmic-terminal", "com.system76.CosmicTerm"));
    let t = known_terminal(4).unwrap();
    assert_eq!((t.command, t.display_name, t.icon_name), ("wezterm", "wezterm", "org.wezfurlong.wezterm"));
    assert!(known_terminal(6).is_none());
}

#[test]
fn entering_arguments() {
    let mut a = app(true);
    match a.update(Message::SetTerminalArgs("  -e   btop ".to_string())) {
        Effect::StoreTerminalArgs(v) => assert_eq!(v, strings(&["-e", "btop"])),
        other => panic!("expected a store, got {:?}", other),
    }
    assert_eq!(a.config.terminal_args, strings(&["-e", "btop"]));
    a.settings_window_opened(1);
    let text = a.settings_view(1).unwrap().args_text;
    assert!(matches!(a.update(Message::SetTerminalArgs(text)), Effect::Nothing));
    assert_eq!(a.config.terminal_args, strings(&["-e", "btop"]));
    assert!(matches!(a.update(Message::SetTerminalArgs("-e btop  ".into())), Effect::Nothing));
    match a.update(Message::SetTerminalArgs(" \t ".to_string())) {
        Effect::StoreTerminalArgs(v) => assert!(v.is_empty()),
        other => panic!("expected a store, got {:?}", other),
    }
    assert!(a.config.terminal_args.is_empty());
    let mut b = app(false);
    assert!(matches!(b.update(Message::SetTerminalArgs("-e x".to_string())), Effect::Nothing));
    assert!(b.config.terminal_args.is_empty());
}

#[test]
fn config_change_updates_app_id() {
    let mut a = app(true);
    let mut c = QuakeConfig::default();
    c.terminal_command = "/usr/bin/ghostty".to_string();
    a.update(Message::ConfigChanged(c));
    assert_eq!(a.terminal_app_id, "com.mitchellh.ghostty");
    assert_eq!(a.config.terminal_command, "/usr/bin/ghostty");
}

#[test]
fn dbus_activation_messages() {
    let a = app(true);
    assert!(matches!(a.dbus_activation(Activation::Activate), Some(Message::Toggle)));
    assert!(matches!(
        a.dbus_activation(Activation::ActivateAction("Settings".into())),
        Some(Message::OpenSettings)
    ));
    assert!(matches!(
        a.dbus_activation(Activation::ActivateAction("Toggle".into())),
        Some(Message::Toggle)
    ));
    assert!(a.dbus_activation(Activation::ActivateAction("settings".into())).is_none());
    assert!(a.dbus_activation(Activation::Open).is_none());
}

#[test]
fn subscriptions_follow_state() {
    let mut a = app(false);
    let p = a.subscriptions();
    assert_eq!(p.toplevel_app_id, "cosmic-ext-quake-terminal");
    assert_eq!(p.monitor_pid, None);
    assert!(!p.watch_config);
    a.terminal_spawned(Some(SpawnResult { pid: 11, app_id: "com.mitchellh.ghostty".into() }));
    let p = a.subscriptions();
    assert_eq!(p.toplevel_app_id, "com.mitchellh.ghostty");
    assert_eq!(p.monitor_pid, Some(11));
}

#[test]
fn window_events() {
    assert!(matches!(window_event_message(WindowEvent::CloseRequested, 2), Some(Message::CloseWindow(2))));
    assert!(matches!(window_event_message(WindowEvent::Opened, 2), Some(Message::WindowOpened(2))));
    assert!(matches!(window_event_message(WindowEvent::Closed, 5), Some(Message::WindowClosed(5))));
    assert!(window_event_message(WindowEvent::Other, 5).is_none());
}

#[test]
fn closed_twice_ends_process_once() {
    let mut a = app(true);
    a.state = ToggleState::Visible;
    a.terminal_pid = Some(3);
    assert!(matches!(a.update(Message::ToplevelEvent(ToplevelEvent::Closed)), Effect::Terminate(3)));
    assert!(matches!(a.update(Message::ToplevelEvent(ToplevelEvent::Closed)), Effect::Nothing));
    assert_eq!(a.state, ToggleState::Idle);
}

#[test]
fn reports_send_no_command() {
    let (tx, _rx) = std::sync::mpsc::channel();
    let mut a = app(true);
    a.update(Message::ToplevelEvent(ToplevelEvent::Ready(WaylandController::new(tx))));
    a.terminal_pid = Some(1);
    a.state = ToggleState::WaitingForWindow;
    assert!(matches!(a.update(Message::Toggle), Effect::Nothing));
    for e in [ToplevelEvent::Found, ToplevelEvent::Minimized, ToplevelEvent::Activated] {
        assert!(matches!(a.update(Message::ToplevelEvent(e)), Effect::Nothing));
    }
}

#[test]
fn monitor_reports_dead_process_only() {
    assert!(terminal_gone(12, false));
    assert!(!terminal_gone(12, true));
    assert!(!terminal_gone(0, false));
}

#[test]
fn toggle_handler_directly() {
    let (tx, _rx) = std::sync::mpsc::channel();
    let mut a = app(true);
    a.handle_toplevel_event(ToplevelEvent::Ready(WaylandController::new(tx)));
    a.terminal_pid = Some(4);
    a.state = ToggleState::Visible;
    assert!(matches!(a.handle_toggle(), Effect::Send(WaylandCommand::Minimize)));
    assert!(matches!(a.handle_toggle(), Effect::Send(WaylandCommand::Activate)));
    assert_eq!(a.state, ToggleState::Visible);
    assert_eq!(a.terminal_pid, Some(4));
    assert!(matches!(a.handle_toplevel_event(ToplevelEvent::Closed), Effect::Terminate(4)));
    assert!(matches!(a.handle_toplevel_event(ToplevelEvent::Closed), Effect::Nothing));
}
