//! What is learned about, and asked of, the terminal's toplevel window.

use vstd::prelude::*;
use crate::text::str_eq;

verus! {

/// The sending half of a standard channel, carried through unopened.
#[verifier::external_type_specification]
#[verifier::external_body]
#[verifier::reject_recursive_types(T)]
pub struct ExSender<T>(std::sync::mpsc::Sender<T>);

/// `Clone::clone` of `std::sync::mpsc::Sender`: another sender into the
/// same channel. Nothing is claimed of the result.
pub assume_specification<T>[ <std::sync::mpsc::Sender<T> as Clone>::clone ](
    s: &std::sync::mpsc::Sender<T>,
) -> std::sync::mpsc::Sender<T>;

/// A request to the compositor about the terminal's window.
#[derive(Clone, Copy, Debug, PartialEq, Eq, Structural)]
pub enum WaylandCommand {
    Minimize,
    Activate,
}

/// Calls `std::sync::mpsc::Sender::send`. What is claimed: a refused send
/// (the receiving half is gone) hands the same command back. Whether the
/// send succeeds is left unsaid: it depends on the other thread.
#[verifier::external_body]
fn send_command(tx: &std::sync::mpsc::Sender<WaylandCommand>, cmd: WaylandCommand) -> (r: Result<
    (),
    WaylandCommand,
>)
    ensures
        r matches Err(c) ==> c == cmd,
{
    match tx.send(cmd) {
        Ok(()) => Ok(()),
        Err(e) => Err(e.0),
    }
}

/// A handle through which commands reach the thread that talks to the
/// compositor.
#[derive(Clone, Debug)]
pub struct WaylandController {
    cmd_tx: std::sync::mpsc::Sender<WaylandCommand>,
}

impl WaylandController {
    /// The channel the commands are sent down.
    pub closed spec fn channel(&self) -> std::sync::mpsc::Sender<WaylandCommand> {
        self.cmd_tx
    }

    /// A controller that sends its commands down `cmd_tx`.
    pub fn new(cmd_tx: std::sync::mpsc::Sender<WaylandCommand>) -> (r: WaylandController)
        ensures
            r.channel() == cmd_tx,
    {
        WaylandController { cmd_tx }
    }

    /// Sends `cmd` to the compositor thread. Where that thread is gone, the
    /// command is handed back.
    pub fn send(&self, cmd: WaylandCommand) -> (r: Result<(), WaylandCommand>)
        ensures
            r matches Err(c) ==> c == cmd,
    {
        send_command(&self.cmd_tx, cmd)
    }

    /// Asks for the terminal's window to be minimized: sends `Minimize`.
    /// Where the other thread is gone, the command is handed back.
    pub fn minimize(&self) -> (r: Result<(), WaylandCommand>)
        ensures
            r matches Err(c) ==> c == WaylandCommand::Minimize,
    {
        self.send(WaylandCommand::Minimize)
    }

    /// Asks for the terminal's window to be shown and focused: sends
    /// `Activate`. Where the other thread is gone, the command is handed back.
    pub fn activate(&self) -> (r: Result<(), WaylandCommand>)
        ensures
            r matches Err(c) ==> c == WaylandCommand::Activate,
    {
        self.send(WaylandCommand::Activate)
    }
}

/// What the compositor thread reports about the terminal's window.
#[derive(Clone, Debug)]
pub enum ToplevelEvent {
    /// The thread is running; commands go through this controller.
    Ready(WaylandController),
    /// A window with the terminal's app id appeared.
    Found,
    /// The window was minimized.
    Minimized,
    /// The window was shown and is focused.
    Activated,
    /// The window was closed.
    Closed,
}

/// What the compositor tells of a toplevel window: its app id, and whether it
/// is minimized and whether it is activated.
#[derive(Clone, Debug)]
pub struct ToplevelInfo {
    pub app_id: String,
    pub minimized: bool,
    pub activated: bool,
}

/// The same, with the app id taken as a character sequence.
pub struct ToplevelInfoView {
    pub app_id: Seq<char>,
    pub minimized: bool,
    pub activated: bool,
}

impl View for ToplevelInfo {
    type V = ToplevelInfoView;

    open spec fn view(&self) -> ToplevelInfoView {
        ToplevelInfoView { app_id: self.app_id@, minimized: self.minimized, activated: self.activated }
    }
}

/// Follows the terminal's window among the toplevels the compositor lists:
/// which app id it looks for, whether it has adopted a window, and the
/// minimized state it last reported.
#[derive(Clone, Debug)]
pub struct ToplevelTracker {
    pub target_app_id: String,
    pub tracking: bool,
    pub last_minimized: Option<bool>,
}

/// The same, with the app id taken as a character sequence.
pub struct ToplevelTrackerView {
    pub target_app_id: Seq<char>,
    pub tracking: bool,
    pub last_minimized: Option<bool>,
}

impl View for ToplevelTracker {
    type V = ToplevelTrackerView;

    open spec fn view(&self) -> ToplevelTrackerView {
        ToplevelTrackerView {
            target_app_id: self.target_app_id@,
            tracking: self.tracking,
            last_minimized: self.last_minimized,
        }
    }
}

/// A new toplevel appeared: one with the target app id is adopted, its
/// minimized state forgotten, and `Found` reported; any other is ignored.
pub open spec fn new_toplevel_spec(t: ToplevelTrackerView, info: Option<ToplevelInfoView>) -> (
    ToplevelTrackerView,
    Option<ToplevelEvent>,
) {
    match info {
        Some(i) if i.app_id == t.target_app_id => (
            ToplevelTrackerView { tracking: true, last_minimized: None, ..t },
            Some(ToplevelEvent::Found),
        ),
        _ => (t, None),
    }
}

/// A toplevel changed: only the adopted window counts (it must be the one
/// the caller says is ours, and one must have been adopted), and only a
/// change of its minimized state is reported: `Minimized`, or `Activated` where it is
/// no longer minimized and is focused.
pub open spec fn update_toplevel_spec(
    t: ToplevelTrackerView,
    is_our_window: bool,
    info: Option<ToplevelInfoView>,
) -> (ToplevelTrackerView, Option<ToplevelEvent>) {
    match info {
        Some(i) if is_our_window && t.tracking && t.last_minimized != Some(i.minimized) => {
            let t2 = ToplevelTrackerView { last_minimized: Some(i.minimized), ..t };
            if i.minimized {
                (t2, Some(ToplevelEvent::Minimized))
            } else if i.activated {
                (t2, Some(ToplevelEvent::Activated))
            } else {
                (t2, None)
            }
        },
        _ => (t, None),
    }
}

/// A toplevel closed: where it is the adopted window (the one the caller
/// says is ours, one having been adopted), it is dropped, its minimized
/// state forgotten, and `Closed` reported.
pub open spec fn toplevel_closed_spec(t: ToplevelTrackerView, is_our_window: bool) -> (
    ToplevelTrackerView,
    Option<ToplevelEvent>,
) {
    if is_our_window && t.tracking {
        (
            ToplevelTrackerView { tracking: false, last_minimized: None, ..t },
            Some(ToplevelEvent::Closed),
        )
    } else {
        (t, None)
    }
}

/// Maps an optional reference to an optional view.
pub open spec fn info_view(info: Option<&ToplevelInfo>) -> Option<ToplevelInfoView> {
    match info {
        Some(i) => Some(i@),
        None => None,
    }
}

impl ToplevelTracker {
    /// A tracker that looks for windows with app id `target_app_id`.
    pub fn new(target_app_id: String) -> (r: ToplevelTracker)
        ensures
            r@ == (ToplevelTrackerView {
                target_app_id: target_app_id@,
                tracking: false,
                last_minimized: None,
            }),
    {
        ToplevelTracker { target_app_id, tracking: false, last_minimized: None }
    }

    /// A new toplevel appeared; `info` is what the compositor tells of it.
    /// Returns the event to report, if any.
    pub fn new_toplevel(&mut self, info: Option<&ToplevelInfo>) -> (ev: Option<ToplevelEvent>)
        ensures
            (final(self)@, ev) == new_toplevel_spec(old(self)@, info_view(info)),
    {
        match info {
            Some(i) => {
                if str_eq(i.app_id.as_str(), self.target_app_id.as_str()) {
                    self.tracking = true;
                    self.last_minimized = None;
                    Some(ToplevelEvent::Found)
                } else {
                    None
                }
            },
            None => None,
        }
    }

    /// A toplevel changed; `is_our_window` tells whether it is the adopted
    /// one, `info` is what the compositor tells of it. Returns the event to
    /// report, if any.
    pub fn update_toplevel(&mut self, is_our_window: bool, info: Option<&ToplevelInfo>) -> (ev:
        Option<ToplevelEvent>)
        ensures
            (final(self)@, ev) == update_toplevel_spec(old(self)@, is_our_window, info_view(info)),
    {
        if !is_our_window || !self.tracking {
            return None;
        }
        match info {
            Some(i) => {
                let is_minimized = i.minimized;
                let changed = match self.last_minimized {
                    Some(m) => m != is_minimized,
                    None => true,
                };
                if changed {
                    self.last_minimized = Some(is_minimized);
                    if is_minimized {
                        Some(ToplevelEvent::Minimized)
                    } else if i.activated {
                        Some(ToplevelEvent::Activated)
                    } else {
                        None
                    }
                } else {
                    None
                }
            },
            None => None,
        }
    }

    /// A toplevel closed; `is_our_window` tells whether it is the adopted
    /// one. Returns the event to report, if any.
    pub fn toplevel_closed(&mut self, is_our_window: bool) -> (ev: Option<ToplevelEvent>)
        ensures
            (final(self)@, ev) == toplevel_closed_spec(old(self)@, is_our_window),
    {
        if is_our_window && self.tracking {
            self.tracking = false;
            self.last_minimized = None;
            Some(ToplevelEvent::Closed)
        } else {
            None
        }
    }
}

/// A new window with the target app id is adopted and `Found` reported,
/// with no minimized state recorded yet; any other new window (or one the
/// compositor tells nothing of) changes nothing and is not reported.
pub proof fn lemma_new_toplevel_laws(t: ToplevelTrackerView, info: ToplevelInfoView)
    ensures
        info.app_id == t.target_app_id ==> new_toplevel_spec(t, Some(info)) == (
            ToplevelTrackerView { tracking: true, last_minimized: None, ..t },
            Some(ToplevelEvent::Found),
        ),
        info.app_id != t.target_app_id ==> new_toplevel_spec(t, Some(info)) == (
            t,
            None::<ToplevelEvent>,
        ),
        new_toplevel_spec(t, None) == (t, None::<ToplevelEvent>),
{
}

/// The adopted window closing is reported once: the window is dropped, its
/// state forgotten, and a second closing reports nothing.
pub proof fn lemma_adopted_closed_once(t: ToplevelTrackerView)
    requires
        t.tracking,
    ensures
        toplevel_closed_spec(t, true) == (
            ToplevelTrackerView { tracking: false, last_minimized: None, ..t },
            Some(ToplevelEvent::Closed),
        ),
        toplevel_closed_spec(toplevel_closed_spec(t, true).0, true).1 is None,
{
}

/// Reporting the same state of the adopted window twice reports nothing the
/// second time and changes nothing.
pub proof fn lemma_update_reports_changes_only(t: ToplevelTrackerView, info: ToplevelInfoView)
    ensures
        ({
            let (t1, _) = update_toplevel_spec(t, true, Some(info));
            update_toplevel_spec(t1, true, Some(info)) == (t1, None::<ToplevelEvent>)
        }),
{
}

/// Changes and closings of windows other than the adopted one are ignored.
pub proof fn lemma_other_windows_ignored(t: ToplevelTrackerView, info: Option<ToplevelInfoView>)
    ensures
        update_toplevel_spec(t, false, info) == (t, None::<ToplevelEvent>),
        toplevel_closed_spec(t, false) == (t, None::<ToplevelEvent>),
{
}

/// For the adopted window, a change of its minimized state is always
/// reported: `Minimized` when it becomes minimized, `Activated` when it is
/// no longer minimized and is focused, whatever state was last recorded;
/// the new state is recorded.
pub proof fn lemma_adopted_changes_reported(t: ToplevelTrackerView, info: ToplevelInfoView)
    requires
        t.tracking,
        t.last_minimized != Some(info.minimized),
    ensures
        update_toplevel_spec(t, true, Some(info)).0.last_minimized == Some(info.minimized),
        update_toplevel_spec(t, true, Some(info)).0.tracking,
        update_toplevel_spec(t, true, Some(info)).0.target_app_id == t.target_app_id,
        info.minimized ==> update_toplevel_spec(t, true, Some(info)).1 == Some(
            ToplevelEvent::Minimized,
        ),
        !info.minimized && info.activated ==> update_toplevel_spec(t, true, Some(info)).1 == Some(
            ToplevelEvent::Activated,
        ),
        !info.minimized && !info.activated ==> update_toplevel_spec(t, true, Some(info)).1 is None,
{
}

/// A request made to the compositor's toplevel manager.
#[derive(Clone, Copy, Debug, PartialEq, Eq, Structural)]
pub enum ManagerRequest {
    SetMinimized,
    UnsetMinimized,
    /// Activate the window for the seat.
    Activate,
}

/// The requests that carry out `cmd`: none without the window's handle or
/// the toplevel manager; minimizing sets the minimized state; activating
/// clears it and, where there is a seat, activates the window.
pub open spec fn manager_requests_spec(
    cmd: WaylandCommand,
    has_handle: bool,
    has_manager: bool,
    has_seat: bool,
) -> Seq<ManagerRequest> {
    if !has_handle || !has_manager {
        Seq::empty()
    } else {
        match cmd {
            WaylandCommand::Minimize => seq![ManagerRequest::SetMinimized],
            WaylandCommand::Activate => if has_seat {
                seq![ManagerRequest::UnsetMinimized, ManagerRequest::Activate]
            } else {
                seq![ManagerRequest::UnsetMinimized]
            },
        }
    }
}

/// The requests to make to the toplevel manager for `cmd`.
pub fn manager_requests(cmd: WaylandCommand, has_handle: bool, has_manager: bool, has_seat: bool) -> (r:
    Vec<ManagerRequest>)
    ensures
        r@ == manager_requests_spec(cmd, has_handle, has_manager, has_seat),
{
    let mut r: Vec<ManagerRequest> = Vec::new();
    if !has_handle || !has_manager {
        assert(r@ =~= Seq::<ManagerRequest>::empty());
        return r;
    }
    match cmd {
        WaylandCommand::Minimize => {
            r.push(ManagerRequest::SetMinimized);
        },
        WaylandCommand::Activate => {
            r.push(ManagerRequest::UnsetMinimized);
            if has_seat {
                r.push(ManagerRequest::Activate);
            }
        },
    }
    assert(r@ =~= manager_requests_spec(cmd, has_handle, has_manager, has_seat));
    r
}

/// Minimizing asks only to minimize: with the window's handle and the
/// manager it is exactly one `SetMinimized`, seat or no seat. Activating
/// never minimizes: it clears the minimized state first and activates the
/// window only for a seat. Without the handle or the manager nothing is
/// asked.
pub proof fn lemma_manager_requests_laws(cmd: WaylandCommand, h: bool, m: bool, seat: bool)
    ensures
        !h || !m ==> manager_requests_spec(cmd, h, m, seat).len() == 0,
        h && m && cmd == WaylandCommand::Minimize ==> manager_requests_spec(cmd, h, m, seat)
            =~= seq![ManagerRequest::SetMinimized],
        forall|i: int|
            0 <= i < manager_requests_spec(WaylandCommand::Minimize, h, m, seat).len()
                ==> #[trigger] manager_requests_spec(WaylandCommand::Minimize, h, m, seat)[i]
                == ManagerRequest::SetMinimized,
        forall|i: int|
            0 <= i < manager_requests_spec(WaylandCommand::Activate, h, m, seat).len()
                ==> #[trigger] manager_requests_spec(WaylandCommand::Activate, h, m, seat)[i]
                != ManagerRequest::SetMinimized,
        h && m ==> manager_requests_spec(WaylandCommand::Activate, h, m, seat)[0]
            == ManagerRequest::UnsetMinimized,
        h && m ==> (manager_requests_spec(WaylandCommand::Activate, h, m, seat).contains(
            ManagerRequest::Activate,
        ) <==> seat),
{
    if h && m && seat {
        assert(manager_requests_spec(WaylandCommand::Activate, h, m, seat)[1]
            == ManagerRequest::Activate);
    }
}

} // verus!
