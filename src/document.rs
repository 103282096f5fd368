use vstd::prelude::*;

use crate::settings::{config_rows, display_rows};

verus! {

/// What the TOML parser makes of a document: its top-level entries, each
/// value rendered as TOML text, or the parser's error message.
pub uninterp spec fn toml_entries(text: Seq<char>) -> Result<Seq<(Seq<char>, Seq<char>)>, Seq<char>>;

/// Relies on `toml::from_str::<toml::Value>` to parse the document and on
/// `toml::Value`'s `Display` to render each top-level value; the result
/// depends on the text alone (the table is ordered by key, or by position).
#[verifier::external_body]
fn parse_entries(text: &str) -> (r: Result<Vec<(String, String)>, String>)
    ensures
        match r {
            Ok(v) => toml_entries(text@) == Ok::<Seq<(Seq<char>, Seq<char>)>, Seq<char>>(v.deep_view()),
            Err(m) => toml_entries(text@) == Err::<Seq<(Seq<char>, Seq<char>)>, Seq<char>>(m@),
        },
{
    match toml::from_str::<toml::Value>(text) {
        Ok(toml::Value::Table(map)) => Ok(map.into_iter().map(|(k, v)| (k, v.to_string())).collect()),
        Ok(_) => Ok(Vec::new()),
        Err(e) => Err(e.to_string()),
    }
}

/// The rows displayed for a configuration file's text, or the parse error.
pub open spec fn rows_of(text: Seq<char>) -> Result<Seq<(Seq<char>, Seq<char>)>, Seq<char>> {
    match toml_entries(text) {
        Ok(e) => Ok(display_rows(e)),
        Err(m) => Err(m),
    }
}

/// Parses a configuration file and returns the (key, value) rows to display.
pub fn read_config_rows(text: &str) -> (r: Result<Vec<(String, String)>, String>)
    ensures
        match r {
            Ok(v) => rows_of(text@) == Ok::<Seq<(Seq<char>, Seq<char>)>, Seq<char>>(v.deep_view()),
            Err(m) => rows_of(text@) == Err::<Seq<(Seq<char>, Seq<char>)>, Seq<char>>(m@),
        },
{
    match parse_entries(text) {
        Ok(entries) => Ok(config_rows(&entries)),
        Err(m) => Err(m),
    }
}

} // verus!
