//! The persisted settings of the terminal.

use vstd::prelude::*;
use crate::text::string_views;

verus! {

/// The version of the settings layout in the configuration store.
pub const CONFIG_VERSION: u64 = 1;

/// Which monitor the terminal drops down on.
#[derive(Clone, Copy, Debug, PartialEq, Eq, Structural)]
pub enum Monitor {
    Focused,
}

impl Default for Monitor {
    fn default() -> (r: Monitor)
        ensures
            r == Monitor::Focused,
    {
        Monitor::Focused
    }
}

/// Which screen edge the terminal drops down from.
#[derive(Clone, Copy, Debug, PartialEq, Eq, Structural)]
pub enum Position {
    Top,
    Bottom,
}

impl Default for Position {
    fn default() -> (r: Position)
        ensures
            r == Position::Top,
    {
        Position::Top
    }
}

/// The settings: which terminal to run, with which extra arguments, and
/// where and how large it appears.
#[derive(Clone, Debug)]
pub struct QuakeConfig {
    pub terminal_command: String,
    pub terminal_args: Vec<String>,
    pub height_percent: u32,
    pub width_percent: u32,
    pub monitor: Monitor,
    pub position: Position,
}

/// The settings with their texts taken as character sequences.
pub struct QuakeConfigView {
    pub terminal_command: Seq<char>,
    pub terminal_args: Seq<Seq<char>>,
    pub height_percent: u32,
    pub width_percent: u32,
    pub monitor: Monitor,
    pub position: Position,
}

impl View for QuakeConfig {
    type V = QuakeConfigView;

    open spec fn view(&self) -> QuakeConfigView {
        QuakeConfigView {
            terminal_command: self.terminal_command@,
            terminal_args: string_views(self.terminal_args@),
            height_percent: self.height_percent,
            width_percent: self.width_percent,
            monitor: self.monitor,
            position: self.position,
        }
    }
}

/// The settings used where none are stored: COSMIC's own terminal with no
/// extra arguments, 40% high and full width, on the focused monitor, at the
/// top.
pub open spec fn default_config() -> QuakeConfigView {
    QuakeConfigView {
        terminal_command: "cosmic-term"@,
        terminal_args: Seq::empty(),
        height_percent: 40,
        width_percent: 100,
        monitor: Monitor::Focused,
        position: Position::Top,
    }
}

impl Default for QuakeConfig {
    fn default() -> (r: QuakeConfig)
        ensures
            r@ == default_config(),
    {
        let r = QuakeConfig {
            terminal_command: "cosmic-term".to_owned(),
            terminal_args: Vec::new(),
            height_percent: 40,
            width_percent: 100,
            monitor: Monitor::default(),
            position: Position::default(),
        };
        assert(string_views(r.terminal_args@) =~= Seq::<Seq<char>>::empty());
        r
    }
}

} // verus!
