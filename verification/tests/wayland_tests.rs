use cosmic_quake_term::wayland::{
    manager_requests, ManagerRequest, ToplevelEvent, ToplevelInfo, ToplevelTracker, WaylandCommand,
    WaylandController,
};

fn info(app_id: &str, minimized: bool, activated: bool) -> ToplevelInfo {
    ToplevelInfo { app_id: app_id.to_string(), minimized, activated }
}

#[test]
fn controller_sends_commands() {
    let (tx, rx) = std::sync::mpsc::channel();
    let c = WaylandController::new(tx);
    assert_eq!(c.minimize(), Ok(()));
    assert_eq!(c.activate(), Ok(()));
    assert_eq!(rx.try_recv(), Ok(WaylandCommand::Minimize));
    assert_eq!(rx.try_recv(), Ok(WaylandCommand::Activate));
    assert!(rx.try_recv().is_err());
}

#[test]
fn controller_ignores_closed_channel() {
    let (tx, rx) = std::sync::mpsc::channel();
    drop(rx);
    let c = WaylandController::new(tx);
    assert_eq!(c.minimize(), Err(WaylandCommand::Minimize));
    assert_eq!(c.activate(), Err(WaylandCommand::Activate));
}

#[test]
fn tracker_adopts_matching_window() {
    let mut t = ToplevelTracker::new("cosmic-ext-quake-terminal".to_string());
    assert!(t.new_toplevel(Some(&info("firefox", false, true))).is_none());
    assert!(!t.tracking);
    assert!(t.new_toplevel(None).is_none());
    let ev = t.new_toplevel(Some(&info("cosmic-ext-quake-terminal", false, true)));
    assert!(matches!(ev, Some(ToplevelEvent::Found)));
    assert!(t.tracking);
    assert_eq!(t.last_minimized, None);
}

#[test]
fn tracker_reports_changes_only() {
    let mut t = ToplevelTracker::new("x".to_string());
    t.new_toplevel(Some(&info("x", false, true)));
    let shown = info("x", false, true);
    assert!(matches!(t.update_toplevel(true, Some(&shown)), Some(ToplevelEvent::Activated)));
    assert!(t.update_toplevel(true, Some(&shown)).is_none());
    let hidden = info("x", true, false);
    assert!(matches!(t.update_toplevel(true, Some(&hidden)), Some(ToplevelEvent::Minimized)));
    assert_eq!(t.last_minimized, Some(true));
    assert!(t.update_toplevel(true, Some(&hidden)).is_none());
    // shown again but not focused: state recorded, nothing reported
    assert!(t.update_toplevel(true, Some(&info("x", false, false))).is_none());
    assert_eq!(t.last_minimized, Some(false));
}

#[test]
fn tracker_ignores_other_windows() {
    let mut t = ToplevelTracker::new("x".to_string());
    // nothing adopted yet: even a window said to be ours is not followed
    assert!(t.update_toplevel(true, Some(&info("x", true, false))).is_none());
    assert_eq!(t.last_minimized, None);
    assert!(t.toplevel_closed(true).is_none());
    t.new_toplevel(Some(&info("x", false, true)));
    assert!(t.update_toplevel(false, Some(&info("x", true, false))).is_none());
    assert_eq!(t.last_minimized, None);
    assert!(t.update_toplevel(true, None).is_none());
    assert!(t.toplevel_closed(false).is_none());
}

#[test]
fn tracker_closed() {
    let mut t = ToplevelTracker::new("x".to_string());
    t.new_toplevel(Some(&info("x", false, true)));
    t.update_toplevel(true, Some(&info("x", true, false)));
    assert!(matches!(t.toplevel_closed(true), Some(ToplevelEvent::Closed)));
    assert!(!t.tracking);
    assert_eq!(t.last_minimized, None);
}

#[test]
fn manager_requests_per_command() {
    assert_eq!(manager_requests(WaylandCommand::Minimize, true, true, false), vec![ManagerRequest::SetMinimized]);
    assert_eq!(
        manager_requests(WaylandCommand::Activate, true, true, true),
        vec![ManagerRequest::UnsetMinimized, ManagerRequest::Activate]
    );
    assert_eq!(manager_requests(WaylandCommand::Activate, true, true, false), vec![ManagerRequest::UnsetMinimized]);
    assert!(manager_requests(WaylandCommand::Minimize, false, true, true).is_empty());
    assert!(manager_requests(WaylandCommand::Activate, true, false, true).is_empty());
}

#[test]
fn controller_send_hands_back_refused_command() {
    let (tx, rx) = std::sync::mpsc::channel();
    let c = WaylandController::new(tx);
    assert_eq!(c.send(WaylandCommand::Activate), Ok(()));
    assert_eq!(rx.try_recv(), Ok(WaylandCommand::Activate));
    drop(rx);
    assert_eq!(c.send(WaylandCommand::Minimize), Err(WaylandCommand::Minimize));
}
