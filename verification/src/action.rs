//! The actions that can be asked of the terminal from the command line or
//! over D-Bus.

use vstd::prelude::*;
use vstd::string::*;
use crate::text::str_eq;

verus! {

/// What a second invocation (or a D-Bus activation) asks of the terminal.
#[derive(Clone, Copy, Debug, PartialEq, Eq, Structural)]
pub enum QuakeAction {
    /// Toggle the quake terminal visibility.
    Toggle,
    /// Open the settings window.
    Settings,
}

/// The name an action is written as.
pub open spec fn action_name(a: QuakeAction) -> Seq<char> {
    match a {
        QuakeAction::Toggle => "Toggle"@,
        QuakeAction::Settings => "Settings"@,
    }
}

/// The action that a name stands for, if any.
pub open spec fn parse_action(s: Seq<char>) -> Option<QuakeAction> {
    if s == "Toggle"@ {
        Some(QuakeAction::Toggle)
    } else if s == "Settings"@ {
        Some(QuakeAction::Settings)
    } else {
        None
    }
}

/// The message given for a name that stands for no action.
pub open spec fn unknown_action_message(s: Seq<char>) -> Seq<char> {
    "Unknown action: "@ + s
}

impl QuakeAction {
    /// The name of the action.
    pub fn as_str(&self) -> (r: &'static str)
        ensures
            r@ == action_name(*self),
    {
        match self {
            QuakeAction::Toggle => "Toggle",
            QuakeAction::Settings => "Settings",
        }
    }

    /// The name of the action, as its `Display` writes it.
    pub fn to_string(&self) -> (r: String)
        ensures
            r@ == action_name(*self),
    {
        self.as_str().to_owned()
    }

    /// Reads an action from its name; any other text is refused with a
    /// message that quotes it.
    pub fn parse(s: &str) -> (r: Result<QuakeAction, String>)
        ensures
            match parse_action(s@) {
                Some(a) => r == Ok::<QuakeAction, String>(a),
                None => r is Err && r->Err_0@ == unknown_action_message(s@),
            },
    {
        if str_eq(s, "Toggle") {
            Ok(QuakeAction::Toggle)
        } else if str_eq(s, "Settings") {
            Ok(QuakeAction::Settings)
        } else {
            let mut msg = "Unknown action: ".to_owned();
            msg.append(s);
            Err(msg)
        }
    }
}

impl std::str::FromStr for QuakeAction {
    type Err = String;

    fn from_str(s: &str) -> (r: Result<QuakeAction, String>)
        ensures
            match parse_action(s@) {
                Some(a) => r == Ok::<QuakeAction, String>(a),
                None => r is Err && r->Err_0@ == unknown_action_message(s@),
            },
    {
        QuakeAction::parse(s)
    }
}

/// Reading back the name of an action gives the action.
pub proof fn lemma_parse_action_name(a: QuakeAction)
    ensures
        parse_action(action_name(a)) == Some(a),
{
    reveal_strlit("Toggle");
    reveal_strlit("Settings");
    assert("Toggle"@ != "Settings"@) by {
        assert("Toggle"@[0] != "Settings"@[0]);
    }
}

/// Only the names of actions are read as actions.
pub proof fn lemma_parse_only_names(s: Seq<char>, a: QuakeAction)
    ensures
        parse_action(s) == Some(a) ==> s == action_name(a),
        (s != action_name(QuakeAction::Toggle) && s != action_name(QuakeAction::Settings))
            ==> parse_action(s) is None,
{
}

/// The command line: an optional action to hand to the running instance.
#[derive(Clone, Copy, Debug)]
pub struct Args {
    pub subcommand: Option<QuakeAction>,
}

impl Args {
    /// The action asked for on the command line, if any.
    pub fn action(&self) -> (r: Option<&QuakeAction>)
        ensures
            match self.subcommand {
                Some(a) => r == Some(&a),
                None => r is None,
            },
    {
        match &self.subcommand {
            Some(a) => Some(a),
            None => None,
        }
    }
}

} // verus!
