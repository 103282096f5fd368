use vstd::prelude::*;
use vstd::string::*;

use crate::command::{CommandExec, ConfigCommand};
use crate::document::{read_config_rows, rows_of};
use crate::error::{ConfigError, ErrorModel};
use crate::settings::{
    config_document, config_text, editor_of, editor_program, preset_rpc_url, rpc_url_of,
    DEFAULT_KEYPAIR_PATH,
};

verus! {

/// How a printed message is styled.
#[derive(Debug, Clone, Copy, PartialEq, Eq, Structural)]
pub enum Tone {
    /// An informational notice (yellow).
    Notice,
    /// A section heading after a blank line (green, bold).
    Heading,
    /// A confirmation that carries a result (green, bold).
    Emphasis,
    /// A plain confirmation (green).
    Success,
}

/// Where a session stands: what it has asked its driver to do and waits for.
#[derive(Debug, Clone, Copy, PartialEq, Eq, Structural)]
pub enum Stage {
    ShowLocate,
    ShowCheck,
    ShowRead,
    ShowNotice,
    ShowHeading,
    ShowTable,
    GenPreset,
    GenCustomUrl,
    GenKeypair,
    GenCommitment,
    GenLocate,
    GenWrite,
    GenSaved,
    EditLocate,
    EditLookup,
    EditLaunch,
    EditDone,
    Finished,
}

/// What the driver is asked to do next.
#[derive(Debug)]
pub enum Action {
    /// Resolve the configuration file's path; answer with `Event::Located`.
    LocateConfig,
    /// Tell whether the configuration file exists; answer with `Event::Exists`.
    CheckExists,
    /// Read the configuration file; answer with `Event::Read`.
    ReadConfig,
    /// Print a message; answer with `Event::Done`.
    Print { tone: Tone, text: String },
    /// Print a table under the headers `TABLE_HEADERS`; answer with `Event::Done`.
    ShowTable { rows: Vec<(String, String)> },
    /// Ask the user to pick one option; answer with `Event::Answer`.
    Select { prompt: String, options: Vec<String> },
    /// Ask the user for text, offering a default; answer with `Event::Answer`.
    Ask { prompt: String, default: Option<String> },
    /// Create the configuration directory and write the whole file; answer with `Event::Written`.
    WriteConfig { contents: String },
    /// Read the `EDITOR` variable; answer with `Event::EditorVar`.
    LookupEditor,
    /// Run the editor on the configuration file and wait; answer with `Event::Launched`.
    LaunchEditor { editor: String },
    /// The command is over, with this outcome.
    Finish(Result<CommandExec, ConfigError>),
}

/// What the driver reports back after performing an action.
#[derive(Debug)]
pub enum Event {
    /// The configuration file's path as displayed, or `None` where the
    /// platform has no configuration directory.
    Located(Option<String>),
    Exists(bool),
    /// The file's text, or the cause of the failure.
    Read(Result<String, String>),
    /// A message or table was printed.
    Done,
    /// The user's answer, or the cause of the prompt's failure.
    Answer(Result<String, String>),
    Written(Result<(), String>),
    /// The value of `EDITOR`, where it is set.
    EditorVar(Option<String>),
    /// The editor ran, or the cause of its failure to launch.
    Launched(Result<(), String>),
}

/// An `Action` with its texts as sequences of characters.
pub enum ActionModel {
    LocateConfig,
    CheckExists,
    ReadConfig,
    Print(Tone, Seq<char>),
    ShowTable(Seq<(Seq<char>, Seq<char>)>),
    Select(Seq<char>, Seq<Seq<char>>),
    Ask(Seq<char>, Option<Seq<char>>),
    WriteConfig(Seq<char>),
    LookupEditor,
    LaunchEditor(Seq<char>),
    Finish(Result<CommandExec, ErrorModel>),
}

/// An `Event` with its texts as sequences of characters.
pub enum EventModel {
    Located(Option<Seq<char>>),
    Exists(bool),
    Read(Result<Seq<char>, Seq<char>>),
    Done,
    Answer(Result<Seq<char>, Seq<char>>),
    Written(Result<(), Seq<char>>),
    EditorVar(Option<Seq<char>>),
    Launched(Result<(), Seq<char>>),
}

/// A textual result with its texts as sequences of characters.
pub open spec fn result_text(r: Result<String, String>) -> Result<Seq<char>, Seq<char>> {
    match r {
        Ok(s) => Ok(s@),
        Err(s) => Err(s@),
    }
}

/// A result without a value, its error as a sequence of characters.
pub open spec fn unit_result(r: Result<(), String>) -> Result<(), Seq<char>> {
    match r {
        Ok(_) => Ok(()),
        Err(s) => Err(s@),
    }
}

/// A command's outcome with its error as an `ErrorModel`.
pub open spec fn outcome_model(r: Result<CommandExec, ConfigError>) -> Result<CommandExec, ErrorModel> {
    match r {
        Ok(c) => Ok(c),
        Err(e) => Err(e@),
    }
}

impl View for Action {
    type V = ActionModel;

    open spec fn view(&self) -> ActionModel {
        match self {
            Action::LocateConfig => ActionModel::LocateConfig,
            Action::CheckExists => ActionModel::CheckExists,
            Action::ReadConfig => ActionModel::ReadConfig,
            Action::Print { tone, text } => ActionModel::Print(*tone, text@),
            Action::ShowTable { rows } => ActionModel::ShowTable(rows.deep_view()),
            Action::Select { prompt, options } => ActionModel::Select(prompt@, options.deep_view()),
            Action::Ask { prompt, default } => ActionModel::Ask(prompt@, default.deep_view()),
            Action::WriteConfig { contents } => ActionModel::WriteConfig(contents@),
            Action::LookupEditor => ActionModel::LookupEditor,
            Action::LaunchEditor { editor } => ActionModel::LaunchEditor(editor@),
            Action::Finish(r) => ActionModel::Finish(outcome_model(*r)),
        }
    }
}

impl View for Event {
    type V = EventModel;

    open spec fn view(&self) -> EventModel {
        match self {
            Event::Located(p) => EventModel::Located(p.deep_view()),
            Event::Exists(b) => EventModel::Exists(*b),
            Event::Read(r) => EventModel::Read(result_text(*r)),
            Event::Done => EventModel::Done,
            Event::Answer(r) => EventModel::Answer(result_text(*r)),
            Event::Written(r) => EventModel::Written(unit_result(*r)),
            Event::EditorVar(v) => EventModel::EditorVar(v.deep_view()),
            Event::Launched(r) => EventModel::Launched(unit_result(*r)),
        }
    }
}

/// The notice that Show prints where no configuration file exists.
pub open spec fn notice_text() -> Seq<char> {
    "No Scilla config found. Use 'Generate' to create one."@
}

/// The heading above the table that Show prints.
pub open spec fn heading_text() -> Seq<char> {
    "SCILLA CONFIGURATION"@
}

/// The confirmation that Generate prints, with the file's path.
pub open spec fn saved_text(path: Seq<char>) -> Seq<char> {
    "Config saved to: "@ + path
}

/// The confirmation that Edit prints once the editor has returned.
pub open spec fn edited_text() -> Seq<char> {
    "Config file edited."@
}

/// The question that picks an RPC endpoint.
pub open spec fn preset_question() -> ActionModel {
    ActionModel::Select(
        "Select RPC endpoint:"@,
        seq!["Devnet"@, "Testnet"@, "Mainnet-Beta"@, "Custom"@],
    )
}

/// The question for a custom RPC URL.
pub open spec fn custom_url_question() -> ActionModel {
    ActionModel::Ask("Enter custom RPC URL:"@, None)
}

/// The question for the keypair path, with its default answer.
pub open spec fn keypair_question() -> ActionModel {
    ActionModel::Ask("Keypair path:"@, Some(DEFAULT_KEYPAIR_PATH@))
}

/// The question that picks a commitment level.
pub open spec fn commitment_question() -> ActionModel {
    ActionModel::Select("Commitment level:"@, seq!["confirmed"@, "finalized"@, "processed"@])
}

/// A session: its stage and what it has gathered so far.
pub struct SessionModel {
    pub stage: Stage,
    /// The configuration file's path as displayed.
    pub path: Seq<char>,
    pub rpc_url: Seq<char>,
    pub keypair_path: Seq<char>,
    /// The document that Generate writes.
    pub document: Seq<char>,
    /// The rows that Show displays.
    pub rows: Seq<(Seq<char>, Seq<char>)>,
    /// The editor program that Edit launches.
    pub editor: Seq<char>,
}

/// The session at `stage`, having gathered nothing.
pub open spec fn fresh(stage: Stage) -> SessionModel {
    SessionModel {
        stage,
        path: Seq::empty(),
        rpc_url: Seq::empty(),
        keypair_path: Seq::empty(),
        document: Seq::empty(),
        rows: Seq::empty(),
        editor: Seq::empty(),
    }
}

/// How a command's session begins, and its first action.
pub open spec fn start_of(c: ConfigCommand) -> (SessionModel, ActionModel) {
    match c {
        ConfigCommand::Show => (fresh(Stage::ShowLocate), ActionModel::LocateConfig),
        ConfigCommand::Generate => (fresh(Stage::GenPreset), preset_question()),
        ConfigCommand::Edit => (fresh(Stage::EditLocate), ActionModel::LocateConfig),
        ConfigCommand::GoBack => (fresh(Stage::Finished), ActionModel::Finish(Ok(CommandExec::GoBack))),
    }
}

/// The event that a session waits for at `stage`; none once it is finished.
pub open spec fn awaits(stage: Stage, e: EventModel) -> bool {
    match e {
        EventModel::Located(_) => stage == Stage::ShowLocate || stage == Stage::GenLocate
            || stage == Stage::EditLocate,
        EventModel::Exists(_) => stage == Stage::ShowCheck,
        EventModel::Read(_) => stage == Stage::ShowRead,
        EventModel::Done => stage == Stage::ShowNotice || stage == Stage::ShowHeading
            || stage == Stage::ShowTable || stage == Stage::GenSaved || stage == Stage::EditDone,
        EventModel::Answer(_) => stage == Stage::GenPreset || stage == Stage::GenCustomUrl
            || stage == Stage::GenKeypair || stage == Stage::GenCommitment,
        EventModel::Written(_) => stage == Stage::GenWrite,
        EventModel::EditorVar(_) => stage == Stage::EditLookup,
        EventModel::Launched(_) => stage == Stage::EditLaunch,
    }
}

/// The session moved to `stage`, handing out `a`.
pub open spec fn goto(s: SessionModel, stage: Stage, a: ActionModel) -> (SessionModel, ActionModel) {
    (SessionModel { stage, ..s }, a)
}

/// The session finished with outcome `r`.
pub open spec fn finish(s: SessionModel, r: Result<CommandExec, ErrorModel>) -> (SessionModel, ActionModel) {
    goto(s, Stage::Finished, ActionModel::Finish(r))
}

/// The session after event `e`, and the next action.
pub open spec fn next(s: SessionModel, e: EventModel) -> (SessionModel, ActionModel) {
    match e {
        EventModel::Located(p) => match p {
            None => finish(s, Err(ErrorModel::ConfigDirNotFound)),
            Some(path) => {
                let t = SessionModel { path, ..s };
                if s.stage == Stage::ShowLocate {
                    goto(t, Stage::ShowCheck, ActionModel::CheckExists)
                } else if s.stage == Stage::GenLocate {
                    goto(t, Stage::GenWrite, ActionModel::WriteConfig(s.document))
                } else {
                    goto(t, Stage::EditLookup, ActionModel::LookupEditor)
                }
            },
        },
        EventModel::Exists(found) => if found {
            goto(s, Stage::ShowRead, ActionModel::ReadConfig)
        } else {
            goto(s, Stage::ShowNotice, ActionModel::Print(Tone::Notice, notice_text()))
        },
        EventModel::Read(r) => match r {
            Err(m) => finish(s, Err(ErrorModel::Io(m))),
            Ok(text) => match rows_of(text) {
                Err(m) => finish(s, Err(ErrorModel::Parse(m))),
                Ok(rows) => goto(
                    SessionModel { rows, ..s },
                    Stage::ShowHeading,
                    ActionModel::Print(Tone::Heading, heading_text()),
                ),
            },
        },
        EventModel::Done => if s.stage == Stage::ShowHeading {
            goto(s, Stage::ShowTable, ActionModel::ShowTable(s.rows))
        } else {
            finish(s, Ok(CommandExec::Process))
        },
        EventModel::Answer(r) => match r {
            Err(m) => finish(s, Err(ErrorModel::Prompt(m))),
            Ok(a) => if s.stage == Stage::GenPreset {
                match rpc_url_of(a) {
                    Some(url) => goto(SessionModel { rpc_url: url, ..s }, Stage::GenKeypair, keypair_question()),
                    None => goto(s, Stage::GenCustomUrl, custom_url_question()),
                }
            } else if s.stage == Stage::GenCustomUrl {
                goto(SessionModel { rpc_url: a, ..s }, Stage::GenKeypair, keypair_question())
            } else if s.stage == Stage::GenKeypair {
                goto(SessionModel { keypair_path: a, ..s }, Stage::GenCommitment, commitment_question())
            } else {
                goto(
                    SessionModel { document: config_text(s.rpc_url, s.keypair_path, a), ..s },
                    Stage::GenLocate,
                    ActionModel::LocateConfig,
                )
            },
        },
        EventModel::Written(r) => match r {
            Err(m) => finish(s, Err(ErrorModel::Io(m))),
            Ok(_) => goto(s, Stage::GenSaved, ActionModel::Print(Tone::Emphasis, saved_text(s.path))),
        },
        EventModel::EditorVar(v) => goto(
            SessionModel { editor: editor_of(v), ..s },
            Stage::EditLaunch,
            ActionModel::LaunchEditor(editor_of(v)),
        ),
        EventModel::Launched(r) => match r {
            Err(m) => finish(s, Err(ErrorModel::EditorLaunch(s.editor, m))),
            Ok(_) => goto(s, Stage::EditDone, ActionModel::Print(Tone::Success, edited_text())),
        },
    }
}

/// The headers of the table that Show prints.
pub const TABLE_HEADERS: [&'static str; 2] = ["Setting", "Value"];

fn preset_select() -> (r: Action)
    ensures
        r@ == preset_question(),
{
    let options = vec![
        String::from_str("Devnet"),
        String::from_str("Testnet"),
        String::from_str("Mainnet-Beta"),
        String::from_str("Custom"),
    ];
    let r = Action::Select { prompt: String::from_str("Select RPC endpoint:"), options };
    assert(r@->Select_1 =~= seq!["Devnet"@, "Testnet"@, "Mainnet-Beta"@, "Custom"@]);
    r
}

fn commitment_select() -> (r: Action)
    ensures
        r@ == commitment_question(),
{
    let options = vec![
        String::from_str("confirmed"),
        String::from_str("finalized"),
        String::from_str("processed"),
    ];
    let r = Action::Select { prompt: String::from_str("Commitment level:"), options };
    assert(r@->Select_1 =~= seq!["confirmed"@, "finalized"@, "processed"@]);
    r
}

fn keypair_ask() -> (r: Action)
    ensures
        r@ == keypair_question(),
{
    Action::Ask {
        prompt: String::from_str("Keypair path:"),
        default: Some(String::from_str(DEFAULT_KEYPAIR_PATH)),
    }
}

fn copy_rows(rows: &Vec<(String, String)>) -> (r: Vec<(String, String)>)
    ensures
        r.deep_view() == rows.deep_view(),
{
    let mut out: Vec<(String, String)> = Vec::new();
    let mut k: usize = 0;
    while k < rows.len()
        invariant
            k <= rows.len(),
            out.deep_view() == rows.deep_view().subrange(0, k as int),
        decreases rows.len() - k,
    {
        let ghost before = out.deep_view();
        out.push((rows[k].0.clone(), rows[k].1.clone()));
        assert(rows.deep_view()[k as int] == (rows@[k as int].0@, rows@[k as int].1@));
        assert(out.deep_view() =~= before.push(rows.deep_view()[k as int]));
        assert(out.deep_view() =~= rows.deep_view().subrange(0, k + 1));
        k = k + 1;
    }
    assert(out.deep_view() =~= rows.deep_view());
    out
}

/// One run of a configuration command. The driver performs each action
/// that the session hands out and reports what happened as an event, until
/// the session hands out `Action::Finish`.
pub struct ConfigSession {
    stage: Stage,
    path: String,
    rpc_url: String,
    keypair_path: String,
    document: String,
    rows: Vec<(String, String)>,
    editor: String,
}

impl View for ConfigSession {
    type V = SessionModel;

    closed spec fn view(&self) -> SessionModel {
        SessionModel {
            stage: self.stage,
            path: self.path@,
            rpc_url: self.rpc_url@,
            keypair_path: self.keypair_path@,
            document: self.document@,
            rows: self.rows.deep_view(),
            editor: self.editor@,
        }
    }
}

impl ConfigSession {
    fn fresh(stage: Stage) -> (r: ConfigSession)
        ensures
            r@ == fresh(stage),
    {
        let r = ConfigSession {
            stage,
            path: String::new(),
            rpc_url: String::new(),
            keypair_path: String::new(),
            document: String::new(),
            rows: Vec::new(),
            editor: String::new(),
        };
        assert(r@.rows =~= Seq::<(Seq<char>, Seq<char>)>::empty());
        r
    }

    /// Begins a session for `command` and returns its first action.
    pub fn start(command: ConfigCommand) -> (r: (ConfigSession, Action))
        ensures
            (r.0@, r.1@) == start_of(command),
    {
        match command {
            ConfigCommand::Show => (ConfigSession::fresh(Stage::ShowLocate), Action::LocateConfig),
            ConfigCommand::Generate => (ConfigSession::fresh(Stage::GenPreset), preset_select()),
            ConfigCommand::Edit => (ConfigSession::fresh(Stage::EditLocate), Action::LocateConfig),
            ConfigCommand::GoBack => (
                ConfigSession::fresh(Stage::Finished),
                Action::Finish(Ok(CommandExec::GoBack)),
            ),
        }
    }

    /// Whether the session is over.
    pub fn is_finished(&self) -> (r: bool)
        ensures
            r == (self@.stage == Stage::Finished),
    {
        self.stage == Stage::Finished
    }

    /// Whether `event` is the kind of report that the session waits for.
    pub fn accepts(&self, event: &Event) -> (r: bool)
        ensures
            r == awaits(self@.stage, event@),
    {
        let st = self.stage;
        match event {
            Event::Located(_) => st == Stage::ShowLocate || st == Stage::GenLocate || st == Stage::EditLocate,
            Event::Exists(_) => st == Stage::ShowCheck,
            Event::Read(_) => st == Stage::ShowRead,
            Event::Done => st == Stage::ShowNotice || st == Stage::ShowHeading || st == Stage::ShowTable
                || st == Stage::GenSaved || st == Stage::EditDone,
            Event::Answer(_) => st == Stage::GenPreset || st == Stage::GenCustomUrl || st == Stage::GenKeypair
                || st == Stage::GenCommitment,
            Event::Written(_) => st == Stage::GenWrite,
            Event::EditorVar(_) => st == Stage::EditLookup,
            Event::Launched(_) => st == Stage::EditLaunch,
        }
    }

    fn finish(&mut self, r: Result<CommandExec, ConfigError>) -> (a: Action)
        ensures
            (final(self)@, a@) == finish(old(self)@, outcome_model(r)),
    {
        self.stage = Stage::Finished;
        Action::Finish(r)
    }

    /// Takes in what the driver reports and returns the next action.
    pub fn step(&mut self, event: Event) -> (r: Action)
        requires
            awaits(old(self)@.stage, event@),
        ensures
            (final(self)@, r@) == next(old(self)@, event@),
    {
        match event {
            Event::Located(p) => match p {
                None => self.finish(Err(ConfigError::ConfigDirNotFound)),
                Some(path) => {
                    self.path = path;
                    if self.stage == Stage::ShowLocate {
                        self.stage = Stage::ShowCheck;
                        Action::CheckExists
                    } else if self.stage == Stage::GenLocate {
                        self.stage = Stage::GenWrite;
                        Action::WriteConfig { contents: self.document.clone() }
                    } else {
                        self.stage = Stage::EditLookup;
                        Action::LookupEditor
                    }
                },
            },
            Event::Exists(found) => if found {
                self.stage = Stage::ShowRead;
                Action::ReadConfig
            } else {
                self.stage = Stage::ShowNotice;
                Action::Print {
                    tone: Tone::Notice,
                    text: String::from_str("No Scilla config found. Use 'Generate' to create one."),
                }
            },
            Event::Read(r) => match r {
                Err(m) => self.finish(Err(ConfigError::Io(m))),
                Ok(text) => match read_config_rows(text.as_str()) {
                    Err(m) => self.finish(Err(ConfigError::Parse(m))),
                    Ok(rows) => {
                        self.rows = rows;
                        self.stage = Stage::ShowHeading;
                        Action::Print { tone: Tone::Heading, text: String::from_str("SCILLA CONFIGURATION") }
                    },
                },
            },
            Event::Done => if self.stage == Stage::ShowHeading {
                self.stage = Stage::ShowTable;
                let rows = copy_rows(&self.rows);
                Action::ShowTable { rows }
            } else {
                self.finish(Ok(CommandExec::Process))
            },
            Event::Answer(r) => match r {
                Err(m) => self.finish(Err(ConfigError::Prompt(m))),
                Ok(a) => if self.stage == Stage::GenPreset {
                    match preset_rpc_url(&a) {
                        Some(url) => {
                            self.rpc_url = url;
                            self.stage = Stage::GenKeypair;
                            keypair_ask()
                        },
                        None => {
                            self.stage = Stage::GenCustomUrl;
                            Action::Ask { prompt: String::from_str("Enter custom RPC URL:"), default: None }
                        },
                    }
                } else if self.stage == Stage::GenCustomUrl {
                    self.rpc_url = a;
                    self.stage = Stage::GenKeypair;
                    keypair_ask()
                } else if self.stage == Stage::GenKeypair {
                    self.keypair_path = a;
                    self.stage = Stage::GenCommitment;
                    commitment_select()
                } else {
                    self.document = config_document(self.rpc_url.as_str(), self.keypair_path.as_str(), a.as_str());
                    self.stage = Stage::GenLocate;
                    Action::LocateConfig
                },
            },
            Event::Written(r) => match r {
                Err(m) => self.finish(Err(ConfigError::Io(m))),
                Ok(_) => {
                    self.stage = Stage::GenSaved;
                    let mut text = String::from_str("Config saved to: ");
                    text.append(self.path.as_str());
                    Action::Print { tone: Tone::Emphasis, text }
                },
            },
            Event::EditorVar(v) => {
                let editor = editor_program(v);
                self.editor = editor.clone();
                self.stage = Stage::EditLaunch;
                Action::LaunchEditor { editor }
            },
            Event::Launched(r) => match r {
                Err(m) => {
                    let editor = self.editor.clone();
                    self.finish(Err(ConfigError::EditorLaunch { editor, cause: m }))
                },
                Ok(_) => {
                    self.stage = Stage::EditDone;
                    Action::Print { tone: Tone::Success, text: String::from_str("Config file edited.") }
                },
            },
        }
    }
}

} // verus!
