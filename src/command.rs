use vstd::prelude::*;

verus! {

/// Commands related to configuration like the RPC URL and the keypair path.
#[derive(Debug, Clone, Copy, PartialEq, Eq, Structural)]
pub enum ConfigCommand {
    Show,
    Generate,
    Edit,
    GoBack,
}

/// What the caller's menu loop does once a command has run.
#[derive(Debug, Clone, Copy, PartialEq, Eq, Structural)]
pub enum CommandExec {
    /// Keep presenting this menu.
    Process,
    /// Return to the previous menu.
    GoBack,
}

/// The text shown while a command runs.
pub open spec fn spinner_text(c: ConfigCommand) -> Seq<char> {
    match c {
        ConfigCommand::Show => "Displaying current Scilla configuration…"@,
        ConfigCommand::Generate => "Generating new Scilla configuration…"@,
        ConfigCommand::Edit => "Editing existing Scilla configuration…"@,
        ConfigCommand::GoBack => "Going back…"@,
    }
}

/// The name under which a command is listed in the menu.
pub open spec fn label_text(c: ConfigCommand) -> Seq<char> {
    match c {
        ConfigCommand::Show => "Show ScillaConfig"@,
        ConfigCommand::Generate => "Generate ScillaConfig"@,
        ConfigCommand::Edit => "Edit ScillaConfig"@,
        ConfigCommand::GoBack => "Go Back"@,
    }
}

impl ConfigCommand {
    pub fn spinner_msg(&self) -> (r: &'static str)
        ensures
            r@ == spinner_text(*self),
    {
        match self {
            ConfigCommand::Show => "Displaying current Scilla configuration…",
            ConfigCommand::Generate => "Generating new Scilla configuration…",
            ConfigCommand::Edit => "Editing existing Scilla configuration…",
            ConfigCommand::GoBack => "Going back…",
        }
    }

    /// The menu label; this is how the command is displayed.
    pub fn label(&self) -> (r: &'static str)
        ensures
            r@ == label_text(*self),
    {
        match self {
            ConfigCommand::Show => "Show ScillaConfig",
            ConfigCommand::Generate => "Generate ScillaConfig",
            ConfigCommand::Edit => "Edit ScillaConfig",
            ConfigCommand::GoBack => "Go Back",
        }
    }
}

} // verus!
