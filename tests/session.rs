use scilla_config::command::{CommandExec, ConfigCommand};
use scilla_config::error::ConfigError;
use scilla_config::session::{Action, ConfigSession, Event, Tone, TABLE_HEADERS};

fn s(x: &str) -> String {
    x.to_string()
}

/// Runs `command` with `events` in turn and returns every action, rendered for comparison.
fn run(command: ConfigCommand, events: Vec<Event>) -> Vec<String> {
    let (mut session, first) = ConfigSession::start(command);
    let mut out = vec![format!("{:?}", first)];
    for e in events {
        assert!(session.accepts(&e), "unexpected event {:?}", e);
        out.push(format!("{:?}", session.step(e)));
    }
    out
}

fn finished_with(command: ConfigCommand, events: Vec<Event>) -> Action {
    let (mut session, mut action) = ConfigSession::start(command);
    for e in events {
        assert!(session.accepts(&e));
        action = session.step(e);
    }
    assert!(session.is_finished());
    action
}

fn print(tone: Tone, text: &str) -> String {
    format!("{:?}", Action::Print { tone, text: s(text) })
}

fn process() -> String {
    format!("{:?}", Action::Finish(Ok(CommandExec::Process)))
}

fn path() -> Option<String> {
    Some(s("/home/u/.config/scilla.toml"))
}

#[test]
fn show_without_config_prints_notice_and_continues() {
    let actions = run(ConfigCommand::Show, vec![Event::Located(path()), Event::Exists(false), Event::Done]);
    assert_eq!(
        actions,
        vec![
            format!("{:?}", Action::LocateConfig),
            format!("{:?}", Action::CheckExists),
            print(Tone::Notice, "No Scilla config found. Use 'Generate' to create one."),
            process(),
        ]
    );
    assert!(!actions.iter().any(|a| a.contains("WriteConfig") || a.contains("ReadConfig")));
}

#[test]
fn show_with_two_keys_renders_both() {
    let actions = run(
        ConfigCommand::Show,
        vec![
            Event::Located(path()),
            Event::Exists(true),
            Event::Read(Ok(s("a=\"1\"\nb=\"2\"\n"))),
            Event::Done,
            Event::Done,
        ],
    );
    let table = Action::ShowTable { rows: vec![(s("a"), s("1")), (s("b"), s("2"))] };
    assert_eq!(
        actions,
        vec![
            format!("{:?}", Action::LocateConfig),
            format!("{:?}", Action::CheckExists),
            format!("{:?}", Action::ReadConfig),
            print(Tone::Heading, "SCILLA CONFIGURATION"),
            format!("{:?}", table),
            process(),
        ]
    );
    assert!(!actions.iter().any(|a| a.contains("WriteConfig")));
    assert_eq!(TABLE_HEADERS, ["Setting", "Value"]);
}

#[test]
fn show_twice_gives_the_same_output() {
    let events = || {
        vec![
            Event::Located(path()),
            Event::Exists(true),
            Event::Read(Ok(s("rpc-url = \"x\"\n"))),
            Event::Done,
            Event::Done,
        ]
    };
    assert_eq!(run(ConfigCommand::Show, events()), run(ConfigCommand::Show, events()));
}

#[test]
fn show_with_malformed_file_fails_to_parse() {
    let a = finished_with(
        ConfigCommand::Show,
        vec![Event::Located(path()), Event::Exists(true), Event::Read(Ok(s("a = = 1")))],
    );
    assert!(matches!(a, Action::Finish(Err(ConfigError::Parse(_)))));
}

#[test]
fn show_with_unreadable_file_fails() {
    let a = finished_with(
        ConfigCommand::Show,
        vec![Event::Located(path()), Event::Exists(true), Event::Read(Err(s("denied")))],
    );
    match a {
        Action::Finish(Err(ConfigError::Io(m))) => assert_eq!(m, "denied"),
        other => panic!("{:?}", other),
    }
}

#[test]
fn missing_config_directory_fails() {
    for c in [ConfigCommand::Show, ConfigCommand::Edit] {
        let a = finished_with(c, vec![Event::Located(None)]);
        assert!(matches!(a, Action::Finish(Err(ConfigError::ConfigDirNotFound))));
    }
}

#[test]
fn generate_devnet_with_defaults_writes_three_lines() {
    let actions = run(
        ConfigCommand::Generate,
        vec![
            Event::Answer(Ok(s("Devnet"))),
            Event::Answer(Ok(s("~/.config/solana/id.json"))),
            Event::Answer(Ok(s("confirmed"))),
            Event::Located(path()),
            Event::Written(Ok(())),
            Event::Done,
        ],
    );
    let presets = vec![s("Devnet"), s("Testnet"), s("Mainnet-Beta"), s("Custom")];
    let levels = vec![s("confirmed"), s("finalized"), s("processed")];
    let doc = "rpc-url = \"https://api.devnet.solana.com\"\nkeypair-path = \"~/.config/solana/id.json\"\ncommitment-level = \"confirmed\"\n";
    assert_eq!(
        actions,
        vec![
            format!("{:?}", Action::Select { prompt: s("Select RPC endpoint:"), options: presets }),
            format!(
                "{:?}",
                Action::Ask { prompt: s("Keypair path:"), default: Some(s("~/.config/solana/id.json")) }
            ),
            format!("{:?}", Action::Select { prompt: s("Commitment level:"), options: levels }),
            format!("{:?}", Action::LocateConfig),
            format!("{:?}", Action::WriteConfig { contents: s(doc) }),
            print(Tone::Emphasis, "Config saved to: /home/u/.config/scilla.toml"),
            process(),
        ]
    );
}

#[test]
fn generate_custom_keeps_url_verbatim() {
    let actions = run(
        ConfigCommand::Generate,
        vec![
            Event::Answer(Ok(s("Custom"))),
            Event::Answer(Ok(s("http://localhost:8899/?a=b c"))),
            Event::Answer(Ok(s("/k.json"))),
            Event::Answer(Ok(s("processed"))),
            Event::Located(path()),
        ],
    );
    assert_eq!(actions[1], format!("{:?}", Action::Ask { prompt: s("Enter custom RPC URL:"), default: None }));
    let doc = "rpc-url = \"http://localhost:8899/?a=b c\"\nkeypair-path = \"/k.json\"\ncommitment-level = \"processed\"\n";
    assert_eq!(actions[5], format!("{:?}", Action::WriteConfig { contents: s(doc) }));
}

#[test]
fn generate_prompt_abort_fails() {
    let a = finished_with(ConfigCommand::Generate, vec![Event::Answer(Err(s("interrupted")))]);
    match a {
        Action::Finish(Err(ConfigError::Prompt(m))) => assert_eq!(m, "interrupted"),
        other => panic!("{:?}", other),
    }
}

#[test]
fn generate_write_failure_fails() {
    let a = finished_with(
        ConfigCommand::Generate,
        vec![
            Event::Answer(Ok(s("Testnet"))),
            Event::Answer(Ok(s("k"))),
            Event::Answer(Ok(s("finalized"))),
            Event::Located(path()),
            Event::Written(Err(s("read-only"))),
        ],
    );
    assert!(matches!(a, Action::Finish(Err(ConfigError::Io(_)))));
}

#[test]
fn edit_without_editor_variable_launches_nano() {
    let actions = run(
        ConfigCommand::Edit,
        vec![Event::Located(path()), Event::EditorVar(None), Event::Launched(Ok(())), Event::Done],
    );
    assert_eq!(
        actions,
        vec![
            format!("{:?}", Action::LocateConfig),
            format!("{:?}", Action::LookupEditor),
            format!("{:?}", Action::LaunchEditor { editor: s("nano") }),
            print(Tone::Success, "Config file edited."),
            process(),
        ]
    );
}

#[test]
fn edit_with_missing_editor_names_it() {
    let a = finished_with(
        ConfigCommand::Edit,
        vec![Event::Located(path()), Event::EditorVar(Some(s("foo"))), Event::Launched(Err(s("not found")))],
    );
    match a {
        Action::Finish(Err(e)) => {
            assert!(matches!(&e, ConfigError::EditorLaunch { editor, .. } if editor == "foo"));
            assert_eq!(e.message(), "Failed to open editor 'foo': not found");
        },
        other => panic!("{:?}", other),
    }
}

#[test]
fn go_back_only_goes_back() {
    let (session, first) = ConfigSession::start(ConfigCommand::GoBack);
    assert!(matches!(first, Action::Finish(Ok(CommandExec::GoBack))));
    assert!(session.is_finished());
    assert!(!session.accepts(&Event::Done));
    assert!(!session.accepts(&Event::Located(None)));
}

#[test]
fn session_rejects_out_of_order_events() {
    let (session, _) = ConfigSession::start(ConfigCommand::Show);
    assert!(!session.accepts(&Event::Done));
    assert!(!session.accepts(&Event::Answer(Ok(s("Devnet")))));
    assert!(session.accepts(&Event::Located(None)));
}
