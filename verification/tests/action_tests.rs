use cosmic_quake_term::action::{Args, QuakeAction};

#[test]
fn names_read_back() {
    for a in [QuakeAction::Toggle, QuakeAction::Settings] {
        assert_eq!(QuakeAction::parse(&a.to_string()), Ok(a));
        assert_eq!(a.as_str().parse::<QuakeAction>(), Ok(a));
    }
}

#[test]
fn names_are_exact() {
    assert_eq!(QuakeAction::Toggle.as_str(), "Toggle");
    assert_eq!(QuakeAction::Settings.to_string(), "Settings");
}

#[test]
fn unknown_action_is_refused_with_message() {
    assert_eq!(QuakeAction::parse("toggle"), Err("Unknown action: toggle".to_string()));
    assert_eq!(QuakeAction::parse(""), Err("Unknown action: ".to_string()));
    assert_eq!("Quit".parse::<QuakeAction>(), Err("Unknown action: Quit".to_string()));
}

#[test]
fn args_action() {
    let a = Args { subcommand: Some(QuakeAction::Settings) };
    assert_eq!(a.action(), Some(&QuakeAction::Settings));
    let b = Args { subcommand: None };
    assert_eq!(b.action(), None);
}
