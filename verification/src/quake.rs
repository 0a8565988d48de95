//! The terminal's application logic: how each message changes the state,
//! and what outside work each one asks for.

use vstd::prelude::*;
use vstd::string::*;
use crate::action::{QuakeAction, Args, parse_action};
use crate::config::{QuakeConfig, QuakeConfigView};
use crate::process::{
    class_args, get_app_id, spawn_command, spawn_command_spec, SpawnCommand, SpawnCommandView,
    SpawnResult,
};
use crate::text::{
    is_whitespace, is_white_space, join_with_spaces, join_words, split_whitespace, str_eq,
    string_views, words, scan_words,
};
use crate::wayland::{ToplevelEvent, WaylandCommand, WaylandController};

verus! {

/// The application id under which the terminal runs as a single instance.
pub const APP_ID: &'static str = "com.github.m0rf30.CosmicExtQuakeTerminal";

/// How many terminals the settings offer.
pub const KNOWN_TERMINAL_COUNT: usize = 6;

/// A terminal that the settings offer: the command that starts it, the name
/// shown, and the icon shown.
#[derive(Clone, Copy, Debug)]
pub struct KnownTerminal {
    pub command: &'static str,
    pub display_name: &'static str,
    pub icon_name: &'static str,
}

/// The command of the `i`th terminal offered.
pub open spec fn known_command(i: int) -> Seq<char> {
    if i == 0 {
        "cosmic-term"@
    } else if i == 1 {
        "alacritty"@
    } else if i == 2 {
        "kitty"@
    } else if i == 3 {
        "foot"@
    } else if i == 4 {
        "wezterm"@
    } else {
        "ghostty"@
    }
}

/// The name shown for the `i`th terminal offered.
pub open spec fn known_display_name(i: int) -> Seq<char> {
    if i == 0 {
        "cosmic-terminal"@
    } else if i == 1 {
        "alacritty"@
    } else if i == 2 {
        "kitty"@
    } else if i == 3 {
        "foot"@
    } else if i == 4 {
        "wezterm"@
    } else {
        "ghostty"@
    }
}

/// The icon shown for the `i`th terminal offered.
pub open spec fn known_icon_name(i: int) -> Seq<char> {
    if i == 0 {
        "com.system76.CosmicTerm"@
    } else if i == 1 {
        "Alacritty"@
    } else if i == 2 {
        "kitty"@
    } else if i == 3 {
        "foot"@
    } else if i == 4 {
        "org.wezfurlong.wezterm"@
    } else {
        "com.mitchellh.ghostty"@
    }
}

/// The `i`th terminal offered, if there is one.
pub fn known_terminal(i: usize) -> (r: Option<KnownTerminal>)
    ensures
        r is Some <==> i < KNOWN_TERMINAL_COUNT,
        r matches Some(t) ==> t.command@ == known_command(i as int) && t.display_name@
            == known_display_name(i as int) && t.icon_name@ == known_icon_name(i as int),
{
    if i == 0 {
        Some(
            KnownTerminal {
                command: "cosmic-term",
                display_name: "cosmic-terminal",
                icon_name: "com.system76.CosmicTerm",
            },
        )
    } else if i == 1 {
        Some(KnownTerminal { command: "alacritty", display_name: "alacritty", icon_name: "Alacritty" })
    } else if i == 2 {
        Some(KnownTerminal { command: "kitty", display_name: "kitty", icon_name: "kitty" })
    } else if i == 3 {
        Some(KnownTerminal { command: "foot", display_name: "foot", icon_name: "foot" })
    } else if i == 4 {
        Some(
            KnownTerminal {
                command: "wezterm",
                display_name: "wezterm",
                icon_name: "org.wezfurlong.wezterm",
            },
        )
    } else if i == 5 {
        Some(
            KnownTerminal {
                command: "ghostty",
                display_name: "ghostty",
                icon_name: "com.mitchellh.ghostty",
            },
        )
    } else {
        None
    }
}

/// The first offered terminal from `i` on whose command is `command`, or 0
/// where there is none.
pub open spec fn terminal_index_from(command: Seq<char>, i: int) -> int
    decreases KNOWN_TERMINAL_COUNT - i,
{
    if i < 0 || i >= KNOWN_TERMINAL_COUNT {
        0
    } else if known_command(i) == command {
        i
    } else {
        terminal_index_from(command, i + 1)
    }
}

/// The offered terminal that `command` selects in the settings: the first
/// with that command, or the first of all.
pub open spec fn terminal_index_of(command: Seq<char>) -> int {
    terminal_index_from(command, 0)
}

/// Where the terminal's window stands.
#[derive(Clone, Copy, Debug, PartialEq, Eq, Structural)]
pub enum ToggleState {
    /// No terminal was started, or its window closed.
    Idle,
    /// A terminal was started; its window has not appeared yet.
    WaitingForWindow,
    Visible,
    Hidden,
}

/// Identifies a window of the application.
pub type WindowId = u64;

/// What the application is told.
#[derive(Clone, Debug)]
pub enum Message {
    Toggle,
    ToplevelEvent(ToplevelEvent),
    TerminalExited,
    ConfigChanged(QuakeConfig),
    OpenSettings,
    WindowOpened(WindowId),
    WindowClosed(WindowId),
    CloseWindow(WindowId),
    SetTerminalCommand(usize),
    SetTerminalArgs(String),
}

/// A message with its texts taken as character sequences.
pub enum MessageView {
    Toggle,
    ToplevelEvent(ToplevelEvent),
    TerminalExited,
    ConfigChanged(QuakeConfigView),
    OpenSettings,
    WindowOpened(WindowId),
    WindowClosed(WindowId),
    CloseWindow(WindowId),
    SetTerminalCommand(usize),
    SetTerminalArgs(Seq<char>),
}

impl View for Message {
    type V = MessageView;

    open spec fn view(&self) -> MessageView {
        match self {
            Message::Toggle => MessageView::Toggle,
            Message::ToplevelEvent(e) => MessageView::ToplevelEvent(*e),
            Message::TerminalExited => MessageView::TerminalExited,
            Message::ConfigChanged(c) => MessageView::ConfigChanged(c@),
            Message::OpenSettings => MessageView::OpenSettings,
            Message::WindowOpened(id) => MessageView::WindowOpened(*id),
            Message::WindowClosed(id) => MessageView::WindowClosed(*id),
            Message::CloseWindow(id) => MessageView::CloseWindow(*id),
            Message::SetTerminalCommand(i) => MessageView::SetTerminalCommand(*i),
            Message::SetTerminalArgs(s) => MessageView::SetTerminalArgs(s@),
        }
    }
}

/// The outside work that handling a message asks for.
#[derive(Clone, Debug)]
pub enum Effect {
    Nothing,
    /// Start the terminal with this command line; hand the outcome to
    /// `terminal_spawned`.
    Spawn(SpawnCommand),
    /// Reap the exited terminal process (without waiting).
    Reap(u32),
    /// Send the terminal process SIGTERM and reap it (without waiting).
    Terminate(u32),
    /// Open the settings window; hand its id to `settings_window_opened`.
    OpenSettingsWindow,
    /// Close this window.
    CloseWindow(WindowId),
    /// Send this command to the compositor thread through the controller.
    Send(WaylandCommand),
    /// Write this terminal command to the configuration store.
    StoreTerminalCommand(String),
    /// Write these terminal arguments to the configuration store.
    StoreTerminalArgs(Vec<String>),
}

/// An effect with its texts taken as character sequences.
pub enum EffectView {
    Nothing,
    Spawn(SpawnCommandView),
    Reap(u32),
    Terminate(u32),
    OpenSettingsWindow,
    CloseWindow(WindowId),
    Send(WaylandCommand),
    StoreTerminalCommand(Seq<char>),
    StoreTerminalArgs(Seq<Seq<char>>),
}

impl View for Effect {
    type V = EffectView;

    open spec fn view(&self) -> EffectView {
        match self {
            Effect::Nothing => EffectView::Nothing,
            Effect::Spawn(c) => EffectView::Spawn(c@),
            Effect::Reap(p) => EffectView::Reap(*p),
            Effect::Terminate(p) => EffectView::Terminate(*p),
            Effect::OpenSettingsWindow => EffectView::OpenSettingsWindow,
            Effect::CloseWindow(id) => EffectView::CloseWindow(*id),
            Effect::Send(c) => EffectView::Send(*c),
            Effect::StoreTerminalCommand(s) => EffectView::StoreTerminalCommand(s@),
            Effect::StoreTerminalArgs(v) => EffectView::StoreTerminalArgs(string_views(v@)),
        }
    }
}

/// The application's state: the settings and whether they can be written,
/// where the terminal's window stands, the terminal's process and app id,
/// the controller of the compositor thread once it runs, and the open
/// settings window.
#[derive(Debug)]
pub struct QuakeTerminal {
    pub config: QuakeConfig,
    pub has_config_handler: bool,
    pub state: ToggleState,
    pub terminal_pid: Option<u32>,
    pub terminal_app_id: String,
    pub wayland_controller: Option<WaylandController>,
    pub settings_window_id: Option<WindowId>,
}

/// The state with its texts taken as character sequences.
#[verifier::ext_equal]
pub struct QuakeTerminalView {
    pub config: QuakeConfigView,
    pub has_config_handler: bool,
    pub state: ToggleState,
    pub terminal_pid: Option<u32>,
    pub terminal_app_id: Seq<char>,
    pub wayland_controller: Option<WaylandController>,
    pub settings_window_id: Option<WindowId>,
}

impl View for QuakeTerminal {
    type V = QuakeTerminalView;

    open spec fn view(&self) -> QuakeTerminalView {
        QuakeTerminalView {
            config: self.config@,
            has_config_handler: self.has_config_handler,
            state: self.state,
            terminal_pid: self.terminal_pid,
            terminal_app_id: self.terminal_app_id@,
            wayland_controller: self.wayland_controller,
            settings_window_id: self.settings_window_id,
        }
    }
}

/// The command sent to the compositor thread, where its controller is
/// known.
pub open spec fn send_if_ready(s: QuakeTerminalView, cmd: WaylandCommand) -> EffectView {
    if s.wayland_controller is Some {
        EffectView::Send(cmd)
    } else {
        EffectView::Nothing
    }
}

/// Toggling: from `Idle` the terminal is started; while waiting for its
/// window nothing happens; a visible window is hidden and a hidden one
/// shown, the compositor thread being asked to minimize or to activate it
/// where its controller is known.
pub open spec fn toggle_spec(s: QuakeTerminalView) -> (QuakeTerminalView, EffectView) {
    match s.state {
        ToggleState::Idle => (
            s,
            EffectView::Spawn(spawn_command_spec(s.config.terminal_command, s.config.terminal_args)),
        ),
        ToggleState::WaitingForWindow => (s, EffectView::Nothing),
        ToggleState::Visible => (
            QuakeTerminalView { state: ToggleState::Hidden, ..s },
            send_if_ready(s, WaylandCommand::Minimize),
        ),
        ToggleState::Hidden => (
            QuakeTerminalView { state: ToggleState::Visible, ..s },
            send_if_ready(s, WaylandCommand::Activate),
        ),
    }
}

/// A report on the terminal's window: the controller is kept; the window
/// appearing makes a waiting terminal visible; minimizing and activation
/// count only while a terminal process is known; closing returns to `Idle`
/// and ends the known process.
pub open spec fn toplevel_event_spec(s: QuakeTerminalView, e: ToplevelEvent) -> (
    QuakeTerminalView,
    EffectView,
) {
    match e {
        ToplevelEvent::Ready(c) => (
            QuakeTerminalView { wayland_controller: Some(c), ..s },
            EffectView::Nothing,
        ),
        ToplevelEvent::Found => if s.state == ToggleState::WaitingForWindow {
            (QuakeTerminalView { state: ToggleState::Visible, ..s }, EffectView::Nothing)
        } else {
            (s, EffectView::Nothing)
        },
        ToplevelEvent::Minimized => if s.terminal_pid is Some {
            (QuakeTerminalView { state: ToggleState::Hidden, ..s }, EffectView::Nothing)
        } else {
            (s, EffectView::Nothing)
        },
        ToplevelEvent::Activated => if s.terminal_pid is Some {
            (QuakeTerminalView { state: ToggleState::Visible, ..s }, EffectView::Nothing)
        } else {
            (s, EffectView::Nothing)
        },
        ToplevelEvent::Closed => {
            let s2 = QuakeTerminalView { state: ToggleState::Idle, terminal_pid: None, ..s };
            match s.terminal_pid {
                Some(p) => (s2, EffectView::Terminate(p)),
                None => (s2, EffectView::Nothing),
            }
        },
    }
}

/// How the application handles each message.
pub open spec fn update_spec(s: QuakeTerminalView, m: MessageView) -> (QuakeTerminalView, EffectView) {
    match m {
        MessageView::Toggle => toggle_spec(s),
        MessageView::ToplevelEvent(e) => toplevel_event_spec(s, e),
        MessageView::TerminalExited => match s.terminal_pid {
            Some(p) => (QuakeTerminalView { terminal_pid: None, ..s }, EffectView::Reap(p)),
            None => (s, EffectView::Nothing),
        },
        MessageView::ConfigChanged(c) => (
            QuakeTerminalView { config: c, terminal_app_id: class_args(c.terminal_command).1, ..s },
            EffectView::Nothing,
        ),
        MessageView::OpenSettings => if s.settings_window_id is Some {
            (s, EffectView::Nothing)
        } else {
            (s, EffectView::OpenSettingsWindow)
        },
        MessageView::WindowOpened(_) => (s, EffectView::Nothing),
        MessageView::CloseWindow(id) => if s.settings_window_id == Some(id) {
            (QuakeTerminalView { settings_window_id: None, ..s }, EffectView::CloseWindow(id))
        } else {
            (s, EffectView::Nothing)
        },
        MessageView::WindowClosed(id) => if s.settings_window_id == Some(id) {
            (QuakeTerminalView { settings_window_id: None, ..s }, EffectView::Nothing)
        } else {
            (s, EffectView::Nothing)
        },
        MessageView::SetTerminalCommand(i) => if i < KNOWN_TERMINAL_COUNT && s.has_config_handler
            && known_command(i as int) != s.config.terminal_command {
            let c = known_command(i as int);
            (
                QuakeTerminalView {
                    config: QuakeConfigView { terminal_command: c, ..s.config },
                    ..s
                },
                EffectView::StoreTerminalCommand(c),
            )
        } else {
            (s, EffectView::Nothing)
        },
        MessageView::SetTerminalArgs(text) => if s.has_config_handler && words(text)
            != s.config.terminal_args {
            let args = words(text);
            (
                QuakeTerminalView {
                    config: QuakeConfigView { terminal_args: args, ..s.config },
                    ..s
                },
                EffectView::StoreTerminalArgs(args),
            )
        } else {
            (s, EffectView::Nothing)
        },
    }
}

/// After the terminal was started: a started process is recorded with its
/// window's app id, and its window awaited; a failed start changes nothing.
pub open spec fn terminal_spawned_spec(s: QuakeTerminalView, pid: Option<(u32, Seq<char>)>) -> QuakeTerminalView {
    match pid {
        Some((p, app_id)) => QuakeTerminalView {
            terminal_pid: Some(p),
            terminal_app_id: app_id,
            state: ToggleState::WaitingForWindow,
            ..s
        },
        None => s,
    }
}

/// The message that an action asks for.
pub open spec fn action_message(a: QuakeAction) -> Message {
    match a {
        QuakeAction::Toggle => Message::Toggle,
        QuakeAction::Settings => Message::OpenSettings,
    }
}

/// What a D-Bus activation brings.
#[derive(Clone, Debug)]
pub enum Activation {
    /// A plain activation.
    Activate,
    /// An activation that names an action.
    ActivateAction(String),
    /// A request to open files.
    Open,
}

/// A window event of the application's own windows.
#[derive(Clone, Copy, Debug, PartialEq, Eq, Structural)]
pub enum WindowEvent {
    CloseRequested,
    Opened,
    Closed,
    Other,
}

/// What the settings window shows: the selected terminal and the arguments
/// as one line of text.
#[derive(Clone, Debug)]
pub struct SettingsView {
    pub selected: usize,
    pub args_text: String,
}

/// What the application listens to: the toplevels with the terminal's app
/// id, the terminal process where one is known, and the configuration store
/// where it can be read.
#[derive(Clone, Debug)]
pub struct SubscriptionPlan {
    pub toplevel_app_id: String,
    pub monitor_pid: Option<u32>,
    pub watch_config: bool,
}

/// Whether the process monitor, having probed process `pid` and found it
/// `alive` or not, reports the terminal as exited: a pid of 0 stands for no
/// process and is never reported.
pub fn terminal_gone(pid: u32, alive: bool) -> (r: bool)
    ensures
        r == (pid != 0 && !alive),
{
    pid != 0 && !alive
}

/// A copy of the strings.
fn clone_strings(v: &Vec<String>) -> (r: Vec<String>)
    ensures
        string_views(r@) == string_views(v@),
{
    let mut r: Vec<String> = Vec::new();
    let n = v.len();
    let mut i: usize = 0;
    while i < n
        invariant
            n == v@.len(),
            i <= n,
            string_views(r@) == string_views(v@.take(i as int)),
        decreases n - i,
    {
        let ghost before = r@;
        r.push(v[i].clone());
        proof {
            assert(string_views(r@) =~= string_views(before).push(v@[i as int]@));
            assert(string_views(v@.take(i + 1)) =~= string_views(v@.take(i as int)).push(
                v@[i as int]@,
            ));
        }
        i = i + 1;
    }
    assert(v@.take(n as int) =~= v@);
    r
}

/// Whether two vectors of strings hold the same texts in the same order.
pub fn strings_eq(a: &Vec<String>, b: &Vec<String>) -> (r: bool)
    ensures
        r == (string_views(a@) == string_views(b@)),
{
    let n = a.len();
    if n != b.len() {
        return false;
    }
    let mut i: usize = 0;
    while i < n
        invariant
            n == a@.len(),
            n == b@.len(),
            i <= n,
            forall|j: int| 0 <= j < i ==> a@[j]@ == b@[j]@,
        decreases n - i,
    {
        if !str_eq(a[i].as_str(), b[i].as_str()) {
            assert(string_views(a@)[i as int] != string_views(b@)[i as int]);
            return false;
        }
        i = i + 1;
    }
    assert(string_views(a@) =~= string_views(b@));
    true
}

/// A text of white space alone holds no words.
pub proof fn lemma_words_of_blank(s: Seq<char>)
    requires
        forall|i: int| 0 <= i < s.len() ==> is_white_space(#[trigger] s[i]),
    ensures
        scan_words(s) == (Seq::<Seq<char>>::empty(), Seq::<char>::empty()),
        words(s) == Seq::<Seq<char>>::empty(),
    decreases s.len(),
{
    if s.len() > 0 {
        assert forall|i: int| 0 <= i < s.drop_last().len() implies is_white_space(
            #[trigger] s.drop_last()[i],
        ) by {
            assert(s.drop_last()[i] == s[i]);
        }
        lemma_words_of_blank(s.drop_last());
        assert(is_white_space(s[s.len() - 1]));
    }
}

/// The terminal arguments typed into the settings: none where the text is
/// blank, else its white-space separated words.
pub fn terminal_args_from_text(text: &str) -> (r: Vec<String>)
    ensures
        string_views(r@) == words(text@),
{
    let n = text.unicode_len();
    let mut blank = true;
    let mut i: usize = 0;
    while i < n
        invariant
            n == text@.len(),
            i <= n,
            blank ==> forall|j: int| 0 <= j < i ==> is_white_space(#[trigger] text@[j]),
        decreases n - i,
    {
        if !is_whitespace(text.get_char(i)) {
            blank = false;
        }
        i = i + 1;
    }
    if blank {
        proof {
            lemma_words_of_blank(text@);
        }
        let r: Vec<String> = Vec::new();
        assert(string_views(r@) =~= Seq::<Seq<char>>::empty());
        r
    } else {
        split_whitespace(text)
    }
}

impl QuakeTerminal {
    /// The state at start-up, and the message that the command line's action
    /// asks for: the settings or a toggle.
    pub fn init(config: QuakeConfig, has_config_handler: bool, flags: Args) -> (r: (
        QuakeTerminal,
        Option<Message>,
    ))
        ensures
            r.0@ == (QuakeTerminalView {
                config: config@,
                has_config_handler,
                state: ToggleState::Idle,
                terminal_pid: None,
                terminal_app_id: class_args(config@.terminal_command).1,
                wayland_controller: None,
                settings_window_id: None,
            }),
            r.1 == match flags.subcommand {
                Some(a) => Some(action_message(a)),
                None => None::<Message>,
            },
    {
        let terminal_app_id = get_app_id(config.terminal_command.as_str());
        let app = QuakeTerminal {
            config,
            has_config_handler,
            state: ToggleState::Idle,
            terminal_pid: None,
            terminal_app_id,
            wayland_controller: None,
            settings_window_id: None,
        };
        let msg = match flags.subcommand {
            Some(QuakeAction::Settings) => Some(Message::OpenSettings),
            Some(QuakeAction::Toggle) => Some(Message::Toggle),
            None => None,
        };
        (app, msg)
    }

    /// Handles a message; returns the outside work it asks for.
    pub fn update(&mut self, message: Message) -> (effect: Effect)
        ensures
            (final(self)@, effect@) == update_spec(old(self)@, message@),
    {
        match message {
            Message::Toggle => self.handle_toggle(),
            Message::ToplevelEvent(event) => self.handle_toplevel_event(event),
            Message::TerminalExited => {
                match self.terminal_pid {
                    Some(pid) => {
                        self.terminal_pid = None;
                        Effect::Reap(pid)
                    },
                    None => Effect::Nothing,
                }
            },
            Message::ConfigChanged(config) => {
                self.terminal_app_id = get_app_id(config.terminal_command.as_str());
                self.config = config;
                Effect::Nothing
            },
            Message::OpenSettings => {
                if self.settings_window_id.is_some() {
                    Effect::Nothing
                } else {
                    Effect::OpenSettingsWindow
                }
            },
            Message::WindowOpened(_id) => Effect::Nothing,
            Message::CloseWindow(id) => {
                if self.is_settings_window(id) {
                    self.settings_window_id = None;
                    Effect::CloseWindow(id)
                } else {
                    Effect::Nothing
                }
            },
            Message::WindowClosed(id) => {
                if self.is_settings_window(id) {
                    self.settings_window_id = None;
                }
                Effect::Nothing
            },
            Message::SetTerminalCommand(index) => {
                match known_terminal(index) {
                    Some(t) => {
                        if self.has_config_handler && !str_eq(
                            t.command,
                            self.config.terminal_command.as_str(),
                        ) {
                            let command = t.command.to_owned();
                            self.config.terminal_command = command.clone();
                            Effect::StoreTerminalCommand(command)
                        } else {
                            Effect::Nothing
                        }
                    },
                    None => Effect::Nothing,
                }
            },
            Message::SetTerminalArgs(args_str) => {
                let args = terminal_args_from_text(args_str.as_str());
                if self.has_config_handler && !strings_eq(&args, &self.config.terminal_args) {
                    self.config.terminal_args = clone_strings(&args);
                    Effect::StoreTerminalArgs(args)
                } else {
                    Effect::Nothing
                }
            },
        }
    }

    /// Whether `id` is the open settings window.
    fn is_settings_window(&self, id: WindowId) -> (r: bool)
        ensures
            r == (self.settings_window_id == Some(id)),
    {
        match self.settings_window_id {
            Some(w) => w == id,
            None => false,
        }
    }

    /// Handles a toggle request.
    pub fn handle_toggle(&mut self) -> (effect: Effect)
        ensures
            (final(self)@, effect@) == toggle_spec(old(self)@),
    {
        match self.state {
            ToggleState::Idle => {
                Effect::Spawn(
                    spawn_command(self.config.terminal_command.as_str(), &self.config.terminal_args),
                )
            },
            ToggleState::WaitingForWindow => Effect::Nothing,
            ToggleState::Visible => {
                self.state = ToggleState::Hidden;
                if self.wayland_controller.is_some() {
                    Effect::Send(WaylandCommand::Minimize)
                } else {
                    Effect::Nothing
                }
            },
            ToggleState::Hidden => {
                self.state = ToggleState::Visible;
                if self.wayland_controller.is_some() {
                    Effect::Send(WaylandCommand::Activate)
                } else {
                    Effect::Nothing
                }
            },
        }
    }

    /// Handles a report on the terminal's window.
    pub fn handle_toplevel_event(&mut self, event: ToplevelEvent) -> (effect: Effect)
        ensures
            (final(self)@, effect@) == toplevel_event_spec(old(self)@, event),
    {
        match event {
            ToplevelEvent::Ready(controller) => {
                self.wayland_controller = Some(controller);
                Effect::Nothing
            },
            ToplevelEvent::Found => {
                if self.state == ToggleState::WaitingForWindow {
                    self.state = ToggleState::Visible;
                }
                Effect::Nothing
            },
            ToplevelEvent::Minimized => {
                if self.terminal_pid.is_some() {
                    self.state = ToggleState::Hidden;
                }
                Effect::Nothing
            },
            ToplevelEvent::Activated => {
                if self.terminal_pid.is_some() {
                    self.state = ToggleState::Visible;
                }
                Effect::Nothing
            },
            ToplevelEvent::Closed => {
                self.state = ToggleState::Idle;
                match self.terminal_pid {
                    Some(pid) => {
                        self.terminal_pid = None;
                        Effect::Terminate(pid)
                    },
                    None => Effect::Nothing,
                }
            },
        }
    }

    /// Records the outcome of starting the terminal.
    pub fn terminal_spawned(&mut self, result: Option<SpawnResult>)
        ensures
            final(self)@ == terminal_spawned_spec(
                old(self)@,
                match result {
                    Some(r) => Some((r.pid, r.app_id@)),
                    None => None,
                },
            ),
    {
        match result {
            Some(r) => {
                self.terminal_pid = Some(r.pid);
                self.terminal_app_id = r.app_id;
                self.state = ToggleState::WaitingForWindow;
            },
            None => {},
        }
    }

    /// Records the settings window that was opened.
    pub fn settings_window_opened(&mut self, id: WindowId)
        ensures
            final(self)@ == (QuakeTerminalView { settings_window_id: Some(id), ..old(self)@ }),
    {
        self.settings_window_id = Some(id);
    }

    /// The offered terminal that the configured command selects: the first
    /// with that command, or the first of all.
    pub fn terminal_index(&self) -> (r: usize)
        ensures
            r == terminal_index_of(self.config@.terminal_command),
            r < KNOWN_TERMINAL_COUNT,
    {
        let mut i: usize = 0;
        while i < KNOWN_TERMINAL_COUNT
            invariant
                i <= KNOWN_TERMINAL_COUNT,
                terminal_index_of(self.config@.terminal_command) == terminal_index_from(
                    self.config@.terminal_command,
                    i as int,
                ),
            decreases KNOWN_TERMINAL_COUNT - i,
        {
            match known_terminal(i) {
                Some(t) => {
                    if str_eq(t.command, self.config.terminal_command.as_str()) {
                        return i;
                    }
                },
                None => {},
            }
            i = i + 1;
        }
        0
    }

    /// What the settings window shows, where `id` is the settings window;
    /// nothing for any other window.
    pub fn settings_view(&self, id: WindowId) -> (r: Option<SettingsView>)
        ensures
            r is Some <==> self.settings_window_id == Some(id),
            r matches Some(v) ==> v.selected == terminal_index_of(self.config@.terminal_command)
                && v.args_text@ == join_words(self.config@.terminal_args),
    {
        if !self.is_settings_window(id) {
            return None;
        }
        Some(
            SettingsView {
                selected: self.terminal_index(),
                args_text: join_with_spaces(&self.config.terminal_args),
            },
        )
    }

    /// What the application listens to in this state.
    pub fn subscriptions(&self) -> (r: SubscriptionPlan)
        ensures
            r.toplevel_app_id@ == self.terminal_app_id@,
            r.monitor_pid == self.terminal_pid,
            r.watch_config == self.has_config_handler,
    {
        SubscriptionPlan {
            toplevel_app_id: self.terminal_app_id.clone(),
            monitor_pid: self.terminal_pid,
            watch_config: self.has_config_handler,
        }
    }

    /// The message a D-Bus activation asks for: a plain activation toggles;
    /// one that names an action asks for that action; anything else nothing.
    pub fn dbus_activation(&self, details: Activation) -> (r: Option<Message>)
        ensures
            r == match details {
                Activation::Activate => Some(Message::Toggle),
                Activation::ActivateAction(action) => match parse_action(action@) {
                    Some(a) => Some(action_message(a)),
                    None => None::<Message>,
                },
                Activation::Open => None::<Message>,
            },
    {
        match details {
            Activation::Activate => Some(Message::Toggle),
            Activation::ActivateAction(action) => {
                match QuakeAction::parse(action.as_str()) {
                    Ok(QuakeAction::Toggle) => Some(Message::Toggle),
                    Ok(QuakeAction::Settings) => Some(Message::OpenSettings),
                    Err(_) => None,
                }
            },
            Activation::Open => None,
        }
    }
}

/// The message a window event of the application's windows brings.
pub fn window_event_message(event: WindowEvent, id: WindowId) -> (r: Option<Message>)
    ensures
        r == match event {
            WindowEvent::CloseRequested => Some(Message::CloseWindow(id)),
            WindowEvent::Opened => Some(Message::WindowOpened(id)),
            WindowEvent::Closed => Some(Message::WindowClosed(id)),
            WindowEvent::Other => None::<Message>,
        },
{
    match event {
        WindowEvent::CloseRequested => Some(Message::CloseWindow(id)),
        WindowEvent::Opened => Some(Message::WindowOpened(id)),
        WindowEvent::Closed => Some(Message::WindowClosed(id)),
        WindowEvent::Other => None,
    }
}

/// Toggling a shown or hidden terminal twice brings the state back: the
/// window is hidden and shown again (the compositor thread being asked to
/// minimize, then to activate it, or the other way round, where its
/// controller is known), and the terminal session (its process and app id)
/// is kept throughout.
pub proof fn lemma_toggle_twice_restores(s: QuakeTerminalView)
    requires
        s.state == ToggleState::Visible || s.state == ToggleState::Hidden,
    ensures
        toggle_spec(s).1 == send_if_ready(
            s,
            if s.state == ToggleState::Visible {
                WaylandCommand::Minimize
            } else {
                WaylandCommand::Activate
            },
        ),
        toggle_spec(s).0.terminal_pid == s.terminal_pid,
        toggle_spec(s).0.terminal_app_id == s.terminal_app_id,
        toggle_spec(s).0.state != s.state,
        toggle_spec(toggle_spec(s).0) == (
            s,
            send_if_ready(
                s,
                if s.state == ToggleState::Visible {
                    WaylandCommand::Activate
                } else {
                    WaylandCommand::Minimize
                },
            ),
        ),
{
    assert(toggle_spec(toggle_spec(s).0).0 =~= s);
}

/// While the terminal's window is awaited, toggling does nothing.
pub proof fn lemma_toggle_while_waiting(s: QuakeTerminalView)
    requires
        s.state == ToggleState::WaitingForWindow,
    ensures
        update_spec(s, MessageView::Toggle) == (s, EffectView::Nothing),
{
}

/// The closing of the terminal's window always returns to `Idle`, forgets
/// the terminal process, and ends it where one was known.
pub proof fn lemma_closed_returns_to_idle(s: QuakeTerminalView)
    ensures
        ({
            let (s2, e) = update_spec(s, MessageView::ToplevelEvent(ToplevelEvent::Closed));
            &&& s2.state == ToggleState::Idle
            &&& s2.terminal_pid is None
            &&& e == match s.terminal_pid {
                Some(p) => EffectView::Terminate(p),
                None => EffectView::Nothing,
            }
        }),
{
}

/// The exit of the terminal process only reaps it (where one is known):
/// where the window stands is left to the window's own reports, and only
/// the process is forgotten.
pub proof fn lemma_exit_keeps_window_state(s: QuakeTerminalView)
    ensures
        update_spec(s, MessageView::TerminalExited).0.state == s.state,
        update_spec(s, MessageView::TerminalExited).0.terminal_pid is None,
        update_spec(s, MessageView::TerminalExited).0 == (QuakeTerminalView {
            terminal_pid: None,
            ..s
        }),
        update_spec(s, MessageView::TerminalExited).1 == match s.terminal_pid {
            Some(p) => EffectView::Reap(p),
            None => EffectView::Nothing,
        },
{
}

/// A start that failed changes nothing; a start that succeeded records the
/// process and its app id and awaits the window, and changes nothing else.
pub proof fn lemma_spawn_outcome(s: QuakeTerminalView, pid: u32, app_id: Seq<char>)
    ensures
        terminal_spawned_spec(s, None) == s,
        terminal_spawned_spec(s, Some((pid, app_id))) == (QuakeTerminalView {
            terminal_pid: Some(pid),
            terminal_app_id: app_id,
            state: ToggleState::WaitingForWindow,
            ..s
        }),
{
}

/// Window messages about windows other than the settings window change
/// nothing and ask for nothing.
pub proof fn lemma_other_windows_untouched(s: QuakeTerminalView, id: WindowId)
    requires
        s.settings_window_id != Some(id),
    ensures
        update_spec(s, MessageView::CloseWindow(id)) == (s, EffectView::Nothing),
        update_spec(s, MessageView::WindowClosed(id)) == (s, EffectView::Nothing),
        update_spec(s, MessageView::WindowOpened(id)) == (s, EffectView::Nothing),
{
}

/// A command that no offered terminal has selects the first offered one.
pub proof fn lemma_unknown_command_selects_first(command: Seq<char>)
    requires
        forall|i: int| 0 <= i < KNOWN_TERMINAL_COUNT ==> known_command(i) != command,
    ensures
        terminal_index_of(command) == 0,
{
    lemma_unknown_from(command, 0);
}

/// From any index on, a command that no offered terminal has selects the
/// first.
proof fn lemma_unknown_from(command: Seq<char>, k: int)
    requires
        0 <= k,
        forall|i: int| 0 <= i < KNOWN_TERMINAL_COUNT ==> known_command(i) != command,
    ensures
        terminal_index_from(command, k) == 0,
    decreases KNOWN_TERMINAL_COUNT - k,
{
    if k < KNOWN_TERMINAL_COUNT {
        assert(known_command(k) != command);
        lemma_unknown_from(command, k + 1);
    }
}

/// Reports that the window was minimized or activated count only while a
/// terminal process is known.
pub proof fn lemma_reports_need_terminal(s: QuakeTerminalView, e: ToplevelEvent)
    requires
        s.terminal_pid is None,
        e == ToplevelEvent::Minimized || e == ToplevelEvent::Activated,
    ensures
        update_spec(s, MessageView::ToplevelEvent(e)) == (s, EffectView::Nothing),
{
}

/// The window appearing makes only an awaited terminal visible.
pub proof fn lemma_found_only_when_waiting(s: QuakeTerminalView)
    ensures
        update_spec(s, MessageView::ToplevelEvent(ToplevelEvent::Found)).0.state == if s.state
            == ToggleState::WaitingForWindow {
            ToggleState::Visible
        } else {
            s.state
        },
{
}

/// A terminal session from start to end: toggling from `Idle` starts the
/// configured terminal; once started, its window is awaited; when it
/// appears it is visible; toggling hides and shows it again; when it closes
/// the state is `Idle` again and the process is ended.
pub proof fn lemma_session_lifecycle(s: QuakeTerminalView, pid: u32, app_id: Seq<char>)
    requires
        s.state == ToggleState::Idle,
    ensures
        ({
            let (s1, e1) = update_spec(s, MessageView::Toggle);
            let s2 = terminal_spawned_spec(s1, Some((pid, app_id)));
            let (s3, e3) = update_spec(s2, MessageView::ToplevelEvent(ToplevelEvent::Found));
            let (s4, e4) = update_spec(s3, MessageView::Toggle);
            let (s5, e5) = update_spec(s4, MessageView::Toggle);
            let (s6, e6) = update_spec(s5, MessageView::ToplevelEvent(ToplevelEvent::Closed));
            &&& s1 == s
            &&& e1 == EffectView::Spawn(
                spawn_command_spec(s.config.terminal_command, s.config.terminal_args),
            )
            &&& s2.state == ToggleState::WaitingForWindow
            &&& s2.terminal_pid == Some(pid)
            &&& s2.terminal_app_id == app_id
            &&& s3.state == ToggleState::Visible
            &&& s4.state == ToggleState::Hidden
            &&& s5 == s3
            &&& e3 == EffectView::Nothing
            &&& e4 == send_if_ready(s, WaylandCommand::Minimize)
            &&& e5 == send_if_ready(s, WaylandCommand::Activate)
            &&& s6.state == ToggleState::Idle
            &&& s6.terminal_pid is None
            &&& e6 == EffectView::Terminate(pid)
        }),
{
    let (s3, _) = update_spec(
        terminal_spawned_spec(s, Some((pid, app_id))),
        MessageView::ToplevelEvent(ToplevelEvent::Found),
    );
    lemma_toggle_twice_restores(s3);
}

/// At most one settings window is open: asking again while one is open
/// does nothing.
pub proof fn lemma_single_settings_window(s: QuakeTerminalView)
    requires
        s.settings_window_id is Some,
    ensures
        update_spec(s, MessageView::OpenSettings) == (s, EffectView::Nothing),
{
}

/// Closing the settings window forgets it, so that it can be opened again.
pub proof fn lemma_settings_window_reopens(s: QuakeTerminalView, id: WindowId)
    requires
        s.settings_window_id == Some(id),
    ensures
        ({
            let (s2, e) = update_spec(s, MessageView::CloseWindow(id));
            &&& e == EffectView::CloseWindow(id)
            &&& s2.settings_window_id is None
            &&& update_spec(s2, MessageView::OpenSettings).1 == EffectView::OpenSettingsWindow
        }),
{
}

/// The offered terminals have distinct commands.
proof fn lemma_known_commands_distinct(i: int, j: int)
    requires
        0 <= i < KNOWN_TERMINAL_COUNT,
        0 <= j < KNOWN_TERMINAL_COUNT,
        i != j,
    ensures
        known_command(i) != known_command(j),
{
    reveal_strlit("cosmic-term");
    reveal_strlit("alacritty");
    reveal_strlit("kitty");
    reveal_strlit("foot");
    reveal_strlit("wezterm");
    reveal_strlit("ghostty");
    assert(known_command(i).len() != known_command(j).len() || known_command(i)[0]
        != known_command(j)[0]);
}

/// The offered terminal with index `i` selects index `i`.
proof fn lemma_index_of_known(i: int, k: int)
    requires
        0 <= k <= i < KNOWN_TERMINAL_COUNT,
    ensures
        terminal_index_from(known_command(i), k) == i,
    decreases i - k,
{
    if k < i {
        lemma_known_commands_distinct(k, i);
        lemma_index_of_known(i, k + 1);
    }
}

/// Choosing an offered terminal in the settings selects that same terminal
/// in the settings view, and stores its command where it differs from the
/// configured one.
pub proof fn lemma_select_terminal_round_trip(s: QuakeTerminalView, i: usize)
    requires
        s.has_config_handler,
        i < KNOWN_TERMINAL_COUNT,
    ensures
        ({
            let (s2, e) = update_spec(s, MessageView::SetTerminalCommand(i));
            &&& terminal_index_of(s2.config.terminal_command) == i
            &&& e == if known_command(i as int) != s.config.terminal_command {
                EffectView::StoreTerminalCommand(known_command(i as int))
            } else {
                EffectView::Nothing
            }
        }),
{
    lemma_index_of_known(i as int, 0);
}

/// Entering again the argument text that the settings view shows leaves the
/// state as it was, and asks for no store, where each argument is a word
/// (not empty and free of white space).
pub proof fn lemma_settings_text_round_trip(s: QuakeTerminalView)
    requires
        s.has_config_handler,
        forall|i: int| 0 <= i < s.config.terminal_args.len() ==> crate::text::is_word(
            #[trigger] s.config.terminal_args[i],
        ),
    ensures
        update_spec(s, MessageView::SetTerminalArgs(join_words(s.config.terminal_args))) == (
            s,
            EffectView::Nothing,
        ),
{
    crate::text::lemma_words_of_joined(s.config.terminal_args);
}

/// A setting is written to the store only where it changes: choosing the
/// configured terminal, or entering the configured arguments, writes
/// nothing and changes nothing.
pub proof fn lemma_store_only_on_change(s: QuakeTerminalView, i: usize, text: Seq<char>)
    requires
        known_command(i as int) == s.config.terminal_command || i >= KNOWN_TERMINAL_COUNT,
        words(text) == s.config.terminal_args,
    ensures
        update_spec(s, MessageView::SetTerminalCommand(i)) == (s, EffectView::Nothing),
        update_spec(s, MessageView::SetTerminalArgs(text)) == (s, EffectView::Nothing),
{
}

/// Only toggling sends commands to the compositor thread: no report on the
/// window, and no other message, makes the application minimize or activate
/// the window.
pub proof fn lemma_only_toggle_sends(s: QuakeTerminalView, m: MessageView)
    requires
        update_spec(s, m).1 is Send,
    ensures
        m is Toggle,
        s.wayland_controller is Some,
        s.state == ToggleState::Visible ==> update_spec(s, m).1 == EffectView::Send(
            WaylandCommand::Minimize,
        ),
        s.state == ToggleState::Hidden ==> update_spec(s, m).1 == EffectView::Send(
            WaylandCommand::Activate,
        ),
        s.state == ToggleState::Visible || s.state == ToggleState::Hidden,
{
}

/// A second report that the window closed changes nothing more and asks
/// for nothing: the process is ended once.
pub proof fn lemma_closed_event_twice(s: QuakeTerminalView)
    ensures
        ({
            let (s1, _) = toplevel_event_spec(s, ToplevelEvent::Closed);
            toplevel_event_spec(s1, ToplevelEvent::Closed) == (s1, EffectView::Nothing)
        }),
{
    let (s1, _) = toplevel_event_spec(s, ToplevelEvent::Closed);
    assert(toplevel_event_spec(s1, ToplevelEvent::Closed).0 =~= s1);
}

/// The same, for the whole message handler.
pub proof fn lemma_closed_twice(s: QuakeTerminalView)
    ensures
        ({
            let closed = MessageView::ToplevelEvent(ToplevelEvent::Closed);
            let (s1, _) = update_spec(s, closed);
            update_spec(s1, closed) == (s1, EffectView::Nothing)
        }),
{
    let closed = MessageView::ToplevelEvent(ToplevelEvent::Closed);
    let (s1, _) = update_spec(s, closed);
    assert(update_spec(s1, closed).0 =~= s1);
}

/// Typing arguments with the configuration store at hand: the configured
/// arguments become the words of the text, and they are written to the
/// store whenever they differ from the previous ones; nothing else changes.
/// Without the store, nothing changes.
pub proof fn lemma_typed_args(s: QuakeTerminalView, text: Seq<char>)
    ensures
        ({
            let (s2, e) = update_spec(s, MessageView::SetTerminalArgs(text));
            &&& s.has_config_handler ==> s2.config.terminal_args == words(text)
            &&& s.has_config_handler && words(text) != s.config.terminal_args ==> e
                == EffectView::StoreTerminalArgs(words(text))
            &&& s.has_config_handler && words(text) == s.config.terminal_args ==> e
                == EffectView::Nothing
            &&& s2.config.terminal_command == s.config.terminal_command
            &&& s2.state == s.state
            &&& s2.terminal_pid == s.terminal_pid
            &&& !s.has_config_handler ==> s2 == s && e == EffectView::Nothing
        }),
{
}

/// A changed configuration brings the app id of its terminal with it.
pub proof fn lemma_config_change_follows_terminal(s: QuakeTerminalView, c: QuakeConfigView)
    ensures
        update_spec(s, MessageView::ConfigChanged(c)).0.terminal_app_id == class_args(
            c.terminal_command,
        ).1,
        update_spec(s, MessageView::ConfigChanged(c)).0.config == c,
{
}

} // verus!
