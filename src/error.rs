use vstd::prelude::*;
use vstd::string::*;

verus! {

/// Why a configuration command failed.
#[derive(Debug)]
pub enum ConfigError {
    /// The platform gives no per-user configuration directory.
    ConfigDirNotFound,
    /// Reading, writing or creating a file failed, for the given cause.
    Io(String),
    /// The configuration file is not a valid TOML document.
    Parse(String),
    /// A prompt was aborted or failed.
    Prompt(String),
    /// The editor program could not be launched.
    EditorLaunch { editor: String, cause: String },
}

/// A `ConfigError` with its texts as sequences of characters.
pub enum ErrorModel {
    ConfigDirNotFound,
    Io(Seq<char>),
    Parse(Seq<char>),
    Prompt(Seq<char>),
    EditorLaunch(Seq<char>, Seq<char>),
}

impl View for ConfigError {
    type V = ErrorModel;

    open spec fn view(&self) -> ErrorModel {
        match self {
            ConfigError::ConfigDirNotFound => ErrorModel::ConfigDirNotFound,
            ConfigError::Io(c) => ErrorModel::Io(c@),
            ConfigError::Parse(c) => ErrorModel::Parse(c@),
            ConfigError::Prompt(c) => ErrorModel::Prompt(c@),
            ConfigError::EditorLaunch { editor, cause } => ErrorModel::EditorLaunch(editor@, cause@),
        }
    }
}

/// The human-readable cause carried by an error.
pub open spec fn error_text(e: ErrorModel) -> Seq<char> {
    match e {
        ErrorModel::ConfigDirNotFound => "Could not find config directory"@,
        ErrorModel::Io(c) => c,
        ErrorModel::Parse(c) => c,
        ErrorModel::Prompt(c) => c,
        ErrorModel::EditorLaunch(editor, cause) => "Failed to open editor '"@ + editor + "': "@ + cause,
    }
}

impl ConfigError {
    /// The human-readable cause of the failure.
    pub fn message(&self) -> (r: String)
        ensures
            r@ == error_text(self@),
    {
        match self {
            ConfigError::ConfigDirNotFound => String::from_str("Could not find config directory"),
            ConfigError::Io(c) => c.clone(),
            ConfigError::Parse(c) => c.clone(),
            ConfigError::Prompt(c) => c.clone(),
            ConfigError::EditorLaunch { editor, cause } => {
                let mut m = String::from_str("Failed to open editor '");
                m.append(editor.as_str());
                m.append("': ");
                m.append(cause.as_str());
                m
            },
        }
    }
}

} // verus!
