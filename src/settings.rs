use vstd::prelude::*;
use vstd::string::*;

verus! {

/// The file name of the configuration inside the user's configuration directory.
pub const CONFIG_FILE_NAME: &'static str = "scilla.toml";

/// The program launched to edit the configuration when `EDITOR` is not set.
pub const DEFAULT_EDITOR: &'static str = "nano";

/// The keypair path offered as the default answer.
pub const DEFAULT_KEYPAIR_PATH: &'static str = "~/.config/solana/id.json";

/// `s` without its leading quote characters.
pub open spec fn drop_leading_quotes(s: Seq<char>) -> Seq<char>
    decreases s.len(),
{
    if s.len() > 0 && s[0] == '"' {
        drop_leading_quotes(s.drop_first())
    } else {
        s
    }
}

/// `s` without its trailing quote characters.
pub open spec fn drop_trailing_quotes(s: Seq<char>) -> Seq<char>
    decreases s.len(),
{
    if s.len() > 0 && s.last() == '"' {
        drop_trailing_quotes(s.drop_last())
    } else {
        s
    }
}

/// `s` with every quote character at either end removed.
pub open spec fn trim_quotes(s: Seq<char>) -> Seq<char> {
    drop_trailing_quotes(drop_leading_quotes(s))
}

/// A value as it is displayed: its rendering without surrounding quotes.
pub fn strip_quotes(s: &str) -> (r: String)
    ensures
        r@ == trim_quotes(s@),
{
    let n = s.unicode_len();
    let mut i: usize = 0;
    assert(s@.subrange(0, n as int) =~= s@);
    while i < n && s.get_char(i) == '"'
        invariant
            i <= n,
            n == s@.len(),
            drop_leading_quotes(s@) == drop_leading_quotes(s@.subrange(i as int, n as int)),
        decreases n - i,
    {
        assert(s@.subrange(i as int, n as int).drop_first() =~= s@.subrange(i + 1, n as int));
        i = i + 1;
    }
    assert(drop_leading_quotes(s@) == s@.subrange(i as int, n as int));
    let mut j: usize = n;
    while j > i && s.get_char(j - 1) == '"'
        invariant
            i <= j <= n,
            n == s@.len(),
            trim_quotes(s@) == drop_trailing_quotes(s@.subrange(i as int, j as int)),
        decreases j,
    {
        assert(s@.subrange(i as int, j as int).drop_last() =~= s@.subrange(i as int, j - 1));
        j = j - 1;
    }
    assert(trim_quotes(s@) == s@.subrange(i as int, j as int));
    String::from_str(s.substring_char(i, j))
}

/// The rows displayed for the entries of a configuration document.
pub open spec fn display_rows(entries: Seq<(Seq<char>, Seq<char>)>) -> Seq<(Seq<char>, Seq<char>)> {
    entries.map_values(|e: (Seq<char>, Seq<char>)| (e.0, trim_quotes(e.1)))
}

/// Turns each (key, rendered value) entry into a displayed row: the key as it
/// is, the value without surrounding quotes.
pub fn config_rows(entries: &Vec<(String, String)>) -> (r: Vec<(String, String)>)
    ensures
        r.deep_view() == display_rows(entries.deep_view()),
{
    let mut rows: Vec<(String, String)> = Vec::new();
    let mut k: usize = 0;
    while k < entries.len()
        invariant
            k <= entries.len(),
            rows.deep_view() == display_rows(entries.deep_view().subrange(0, k as int)),
        decreases entries.len() - k,
    {
        let ghost before = rows.deep_view();
        let key = entries[k].0.clone();
        let value = strip_quotes(entries[k].1.as_str());
        rows.push((key, value));
        let ghost e = entries.deep_view();
        assert(e[k as int] == (entries@[k as int].0@, entries@[k as int].1@));
        assert(rows.deep_view() =~= before.push((e[k as int].0, trim_quotes(e[k as int].1))));
        assert(e.subrange(0, k + 1) =~= e.subrange(0, k as int).push(e[k as int]));
        assert(rows.deep_view() =~= display_rows(e.subrange(0, k + 1)));
        k = k + 1;
    }
    assert(entries.deep_view().subrange(0, k as int) =~= entries.deep_view());
    rows
}

/// The endpoint that a preset answer stands for; `None` for any other
/// answer, which asks for a custom URL.
pub open spec fn rpc_url_of(choice: Seq<char>) -> Option<Seq<char>> {
    if choice == "Devnet"@ {
        Some("https://api.devnet.solana.com"@)
    } else if choice == "Testnet"@ {
        Some("https://api.testnet.solana.com"@)
    } else if choice == "Mainnet-Beta"@ {
        Some("https://api.mainnet-beta.solana.com"@)
    } else {
        None
    }
}

/// The endpoint URL of a preset answer, or `None` where a custom URL is asked for.
pub fn preset_rpc_url(choice: &String) -> (r: Option<String>)
    ensures
        r.deep_view() == rpc_url_of(choice@),
{
    if choice.eq(&String::from_str("Devnet")) {
        Some(String::from_str("https://api.devnet.solana.com"))
    } else if choice.eq(&String::from_str("Testnet")) {
        Some(String::from_str("https://api.testnet.solana.com"))
    } else if choice.eq(&String::from_str("Mainnet-Beta")) {
        Some(String::from_str("https://api.mainnet-beta.solana.com"))
    } else {
        None
    }
}

/// The configuration document: three `key = "value"` lines in a fixed order.
pub open spec fn config_text(rpc_url: Seq<char>, keypair_path: Seq<char>, commitment: Seq<char>) -> Seq<char> {
    "rpc-url = \""@ + rpc_url + "\"\nkeypair-path = \""@ + keypair_path
        + "\"\ncommitment-level = \""@ + commitment + "\"\n"@
}

/// Writes the configuration document for the three settings.
pub fn config_document(rpc_url: &str, keypair_path: &str, commitment: &str) -> (r: String)
    ensures
        r@ == config_text(rpc_url@, keypair_path@, commitment@),
{
    let mut doc = String::from_str("rpc-url = \"");
    doc.append(rpc_url);
    doc.append("\"\nkeypair-path = \"");
    doc.append(keypair_path);
    doc.append("\"\ncommitment-level = \"");
    doc.append(commitment);
    doc.append("\"\n");
    doc
}

/// The editor program: the value of `EDITOR` where it is set, else the default.
pub open spec fn editor_of(var: Option<Seq<char>>) -> Seq<char> {
    match var {
        Some(e) => e,
        None => DEFAULT_EDITOR@,
    }
}

/// Chooses the editor program from the value of `EDITOR`, if any.
pub fn editor_program(var: Option<String>) -> (r: String)
    ensures
        r@ == editor_of(var.deep_view()),
{
    match var {
        Some(e) => e,
        None => String::from_str(DEFAULT_EDITOR),
    }
}

} // verus!
