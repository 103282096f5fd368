use scilla_config::command::ConfigCommand;
use scilla_config::document::read_config_rows;
use scilla_config::error::ConfigError;
use scilla_config::settings::{
    config_document, config_rows, editor_program, preset_rpc_url, strip_quotes, CONFIG_FILE_NAME,
    DEFAULT_EDITOR, DEFAULT_KEYPAIR_PATH,
};

fn s(x: &str) -> String {
    x.to_string()
}

#[test]
fn spinner_messages() {
    assert_eq!(ConfigCommand::Show.spinner_msg(), "Displaying current Scilla configuration…");
    assert_eq!(ConfigCommand::Generate.spinner_msg(), "Generating new Scilla configuration…");
    assert_eq!(ConfigCommand::Edit.spinner_msg(), "Editing existing Scilla configuration…");
    assert_eq!(ConfigCommand::GoBack.spinner_msg(), "Going back…");
}

#[test]
fn labels() {
    assert_eq!(ConfigCommand::Show.label(), "Show ScillaConfig");
    assert_eq!(ConfigCommand::Generate.label(), "Generate ScillaConfig");
    assert_eq!(ConfigCommand::Edit.label(), "Edit ScillaConfig");
    assert_eq!(ConfigCommand::GoBack.label(), "Go Back");
}

#[test]
fn strip_quotes_removes_every_quote_at_both_ends() {
    assert_eq!(strip_quotes("\"1\""), "1");
    assert_eq!(strip_quotes("\"\"x\"\""), "x");
    assert_eq!(strip_quotes("a\"b"), "a\"b");
    assert_eq!(strip_quotes("\"\"\""), "");
    assert_eq!(strip_quotes(""), "");
    assert_eq!(strip_quotes("42"), "42");
    assert_eq!(strip_quotes("\"é\""), "é");
}

#[test]
fn config_rows_unquote_values_only() {
    let entries = vec![(s("\"k\""), s("\"v\"")), (s("n"), s("5"))];
    assert_eq!(config_rows(&entries), vec![(s("\"k\""), s("v")), (s("n"), s("5"))]);
    assert_eq!(config_rows(&Vec::new()), Vec::<(String, String)>::new());
}

#[test]
fn rows_of_two_string_keys() {
    let rows = read_config_rows("a=\"1\"\nb=\"2\"\n").unwrap();
    assert_eq!(rows, vec![(s("a"), s("1")), (s("b"), s("2"))]);
}

#[test]
fn rows_render_non_string_values() {
    let rows = read_config_rows("n = 5\nflag = true\n").unwrap();
    assert_eq!(rows.len(), 2);
    assert!(rows.contains(&(s("n"), s("5"))));
    assert!(rows.contains(&(s("flag"), s("true"))));
}

#[test]
fn rows_of_generated_document() {
    let doc = config_document("https://api.devnet.solana.com", DEFAULT_KEYPAIR_PATH, "confirmed");
    let rows = read_config_rows(&doc).unwrap();
    assert_eq!(rows.len(), 3);
    assert!(rows.contains(&(s("rpc-url"), s("https://api.devnet.solana.com"))));
    assert!(rows.contains(&(s("keypair-path"), s("~/.config/solana/id.json"))));
    assert!(rows.contains(&(s("commitment-level"), s("confirmed"))));
}

#[test]
fn rows_of_empty_document() {
    assert_eq!(read_config_rows("").unwrap(), Vec::<(String, String)>::new());
}

#[test]
fn malformed_document_is_a_parse_error() {
    assert!(read_config_rows("a = = 1").is_err());
    assert!(read_config_rows("a = \"unterminated").is_err());
}

#[test]
fn presets_map_to_endpoints() {
    assert_eq!(preset_rpc_url(&s("Devnet")), Some(s("https://api.devnet.solana.com")));
    assert_eq!(preset_rpc_url(&s("Testnet")), Some(s("https://api.testnet.solana.com")));
    assert_eq!(preset_rpc_url(&s("Mainnet-Beta")), Some(s("https://api.mainnet-beta.solana.com")));
    assert_eq!(preset_rpc_url(&s("Custom")), None);
    assert_eq!(preset_rpc_url(&s("devnet")), None);
}

#[test]
fn document_has_three_lines_in_order() {
    let doc = config_document("https://api.devnet.solana.com", "~/.config/solana/id.json", "confirmed");
    assert_eq!(
        doc,
        "rpc-url = \"https://api.devnet.solana.com\"\nkeypair-path = \"~/.config/solana/id.json\"\ncommitment-level = \"confirmed\"\n"
    );
    assert_eq!(config_document("", "", ""), "rpc-url = \"\"\nkeypair-path = \"\"\ncommitment-level = \"\"\n");
}

#[test]
fn editor_falls_back_to_nano() {
    assert_eq!(editor_program(None), "nano");
    assert_eq!(editor_program(Some(s("foo"))), "foo");
    assert_eq!(DEFAULT_EDITOR, "nano");
}

#[test]
fn constants() {
    assert_eq!(CONFIG_FILE_NAME, "scilla.toml");
    assert_eq!(DEFAULT_KEYPAIR_PATH, "~/.config/solana/id.json");
}

#[test]
fn error_messages() {
    assert_eq!(ConfigError::ConfigDirNotFound.message(), "Could not find config directory");
    assert_eq!(ConfigError::Io(s("denied")).message(), "denied");
    assert_eq!(ConfigError::Parse(s("bad")).message(), "bad");
    assert_eq!(ConfigError::Prompt(s("aborted")).message(), "aborted");
    let e = ConfigError::EditorLaunch { editor: s("foo"), cause: s("not found") };
    assert_eq!(e.message(), "Failed to open editor 'foo': not found");
}
