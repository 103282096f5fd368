use vstd::prelude::*;

use crate::command::{CommandExec, ConfigCommand};
use crate::document::rows_of;
use crate::error::{error_text, ErrorModel};
use crate::session::{
    awaits, commitment_question, custom_url_question, edited_text, heading_text, keypair_question,
    next, notice_text, preset_question, saved_text, start_of, ActionModel, EventModel, SessionModel,
    Stage, Tone,
};
use crate::settings::{config_text, DEFAULT_EDITOR, DEFAULT_KEYPAIR_PATH};

verus! {

/// The actions that a session hands out while it is given `events` in turn.
pub open spec fn run(s: SessionModel, events: Seq<EventModel>) -> Seq<ActionModel>
    decreases events.len(),
{
    if events.len() == 0 {
        Seq::empty()
    } else {
        let (t, a) = next(s, events[0]);
        seq![a] + run(t, events.drop_first())
    }
}

/// The actions of a whole run of `c`: its first action, then those that
/// follow `events`.
pub open spec fn trace(c: ConfigCommand, events: Seq<EventModel>) -> Seq<ActionModel> {
    seq![start_of(c).1] + run(start_of(c).0, events)
}

/// Show, where no configuration file exists, prints the notice and lets the
/// menu continue; it neither reads nor writes a file.
pub proof fn show_without_file(path: Seq<char>)
    ensures
        trace(
            ConfigCommand::Show,
            seq![EventModel::Located(Some(path)), EventModel::Exists(false), EventModel::Done],
        ) == seq![
            ActionModel::LocateConfig,
            ActionModel::CheckExists,
            ActionModel::Print(Tone::Notice, notice_text()),
            ActionModel::Finish(Ok(CommandExec::Process)),
        ],
{
    reveal_with_fuel(run, 4);
    let e = seq![EventModel::Located(Some(path)), EventModel::Exists(false), EventModel::Done];
    assert(e.drop_first().drop_first().drop_first() =~= Seq::<EventModel>::empty());
    assert(trace(ConfigCommand::Show, e) =~= seq![
        ActionModel::LocateConfig,
        ActionModel::CheckExists,
        ActionModel::Print(Tone::Notice, notice_text()),
        ActionModel::Finish(Ok(CommandExec::Process)),
    ]);
}

/// Show, where the configuration file parses, prints the heading and a table
/// of every top-level entry with its value unquoted, and lets the menu
/// continue; it writes no file.
pub proof fn show_with_file(path: Seq<char>, text: Seq<char>)
    requires
        rows_of(text) is Ok,
    ensures
        trace(
            ConfigCommand::Show,
            seq![
                EventModel::Located(Some(path)),
                EventModel::Exists(true),
                EventModel::Read(Ok(text)),
                EventModel::Done,
                EventModel::Done,
            ],
        ) == seq![
            ActionModel::LocateConfig,
            ActionModel::CheckExists,
            ActionModel::ReadConfig,
            ActionModel::Print(Tone::Heading, heading_text()),
            ActionModel::ShowTable(rows_of(text)->Ok_0),
            ActionModel::Finish(Ok(CommandExec::Process)),
        ],
{
    reveal_with_fuel(run, 6);
    let e = seq![
        EventModel::Located(Some(path)),
        EventModel::Exists(true),
        EventModel::Read(Ok(text)),
        EventModel::Done,
        EventModel::Done,
    ];
    assert(e.drop_first().drop_first().drop_first().drop_first().drop_first() =~= Seq::<EventModel>::empty());
    assert(trace(ConfigCommand::Show, e) =~= seq![
        ActionModel::LocateConfig,
        ActionModel::CheckExists,
        ActionModel::ReadConfig,
        ActionModel::Print(Tone::Heading, heading_text()),
        ActionModel::ShowTable(rows_of(text)->Ok_0),
        ActionModel::Finish(Ok(CommandExec::Process)),
    ]);
}

/// Generate, given the Devnet preset, the offered default keypair path and
/// the `confirmed` level, writes exactly these three lines over whatever the
/// file held, then reports where.
pub proof fn generate_devnet_defaults(path: Seq<char>)
    ensures
        keypair_question() == ActionModel::Ask("Keypair path:"@, Some(DEFAULT_KEYPAIR_PATH@)),
        trace(
            ConfigCommand::Generate,
            seq![
                EventModel::Answer(Ok("Devnet"@)),
                EventModel::Answer(Ok(DEFAULT_KEYPAIR_PATH@)),
                EventModel::Answer(Ok("confirmed"@)),
                EventModel::Located(Some(path)),
                EventModel::Written(Ok(())),
                EventModel::Done,
            ],
        ) == seq![
            preset_question(),
            keypair_question(),
            commitment_question(),
            ActionModel::LocateConfig,
            ActionModel::WriteConfig(
                "rpc-url = \"https://api.devnet.solana.com\"\nkeypair-path = \"~/.config/solana/id.json\"\ncommitment-level = \"confirmed\"\n"@,
            ),
            ActionModel::Print(Tone::Emphasis, saved_text(path)),
            ActionModel::Finish(Ok(CommandExec::Process)),
        ],
{
    reveal_with_fuel(run, 7);
    let e = seq![
        EventModel::Answer(Ok("Devnet"@)),
        EventModel::Answer(Ok(DEFAULT_KEYPAIR_PATH@)),
        EventModel::Answer(Ok("confirmed"@)),
        EventModel::Located(Some(path)),
        EventModel::Written(Ok(())),
        EventModel::Done,
    ];
    assert(e.drop_first().drop_first().drop_first().drop_first().drop_first().drop_first()
        =~= Seq::<EventModel>::empty());
    reveal_strlit("rpc-url = \"");
    reveal_strlit("https://api.devnet.solana.com");
    reveal_strlit("\"\nkeypair-path = \"");
    reveal_strlit("~/.config/solana/id.json");
    reveal_strlit("\"\ncommitment-level = \"");
    reveal_strlit("confirmed");
    reveal_strlit("\"\n");
    reveal_strlit(
        "rpc-url = \"https://api.devnet.solana.com\"\nkeypair-path = \"~/.config/solana/id.json\"\ncommitment-level = \"confirmed\"\n",
    );
    assert(config_text("https://api.devnet.solana.com"@, DEFAULT_KEYPAIR_PATH@, "confirmed"@)
        =~= "rpc-url = \"https://api.devnet.solana.com\"\nkeypair-path = \"~/.config/solana/id.json\"\ncommitment-level = \"confirmed\"\n"@);
    assert(trace(ConfigCommand::Generate, e) =~= seq![
        preset_question(),
        keypair_question(),
        commitment_question(),
        ActionModel::LocateConfig,
        ActionModel::WriteConfig(
            "rpc-url = \"https://api.devnet.solana.com\"\nkeypair-path = \"~/.config/solana/id.json\"\ncommitment-level = \"confirmed\"\n"@,
        ),
        ActionModel::Print(Tone::Emphasis, saved_text(path)),
        ActionModel::Finish(Ok(CommandExec::Process)),
    ]);
}

/// Generate, given the Custom preset, asks for the URL and writes the answer
/// as it was given as the document's `rpc-url`.
pub proof fn generate_custom_url(url: Seq<char>, keypair: Seq<char>, commitment: Seq<char>, path: Seq<char>)
    ensures
        trace(
            ConfigCommand::Generate,
            seq![
                EventModel::Answer(Ok("Custom"@)),
                EventModel::Answer(Ok(url)),
                EventModel::Answer(Ok(keypair)),
                EventModel::Answer(Ok(commitment)),
                EventModel::Located(Some(path)),
            ],
        ) == seq![
            preset_question(),
            custom_url_question(),
            keypair_question(),
            commitment_question(),
            ActionModel::LocateConfig,
            ActionModel::WriteConfig(config_text(url, keypair, commitment)),
        ],
        config_text(url, keypair, commitment).subrange(0, 11 + url.len() as int) == "rpc-url = \""@ + url,
{
    reveal_with_fuel(run, 6);
    reveal_strlit("Custom");
    reveal_strlit("Devnet");
    reveal_strlit("Testnet");
    reveal_strlit("Mainnet-Beta");
    assert("Custom"@[0] != "Devnet"@[0]);
    let e = seq![
        EventModel::Answer(Ok("Custom"@)),
        EventModel::Answer(Ok(url)),
        EventModel::Answer(Ok(keypair)),
        EventModel::Answer(Ok(commitment)),
        EventModel::Located(Some(path)),
    ];
    assert(e.drop_first().drop_first().drop_first().drop_first().drop_first() =~= Seq::<EventModel>::empty());
    assert(trace(ConfigCommand::Generate, e) =~= seq![
        preset_question(),
        custom_url_question(),
        keypair_question(),
        commitment_question(),
        ActionModel::LocateConfig,
        ActionModel::WriteConfig(config_text(url, keypair, commitment)),
    ]);
    reveal_strlit("rpc-url = \"");
    assert(config_text(url, keypair, commitment).subrange(0, 11 + url.len() as int) =~= "rpc-url = \""@ + url);
}

/// Edit, where `EDITOR` is not set, launches `nano` on the configuration
/// file, and once it returns confirms and lets the menu continue.
pub proof fn edit_without_editor_variable(path: Seq<char>)
    ensures
        DEFAULT_EDITOR@ == "nano"@,
        trace(
            ConfigCommand::Edit,
            seq![
                EventModel::Located(Some(path)),
                EventModel::EditorVar(None),
                EventModel::Launched(Ok(())),
                EventModel::Done,
            ],
        ) == seq![
            ActionModel::LocateConfig,
            ActionModel::LookupEditor,
            ActionModel::LaunchEditor(DEFAULT_EDITOR@),
            ActionModel::Print(Tone::Success, edited_text()),
            ActionModel::Finish(Ok(CommandExec::Process)),
        ],
{
    reveal_with_fuel(run, 5);
    let e = seq![
        EventModel::Located(Some(path)),
        EventModel::EditorVar(None),
        EventModel::Launched(Ok(())),
        EventModel::Done,
    ];
    assert(e.drop_first().drop_first().drop_first().drop_first() =~= Seq::<EventModel>::empty());
    assert(trace(ConfigCommand::Edit, e) =~= seq![
        ActionModel::LocateConfig,
        ActionModel::LookupEditor,
        ActionModel::LaunchEditor(DEFAULT_EDITOR@),
        ActionModel::Print(Tone::Success, edited_text()),
        ActionModel::Finish(Ok(CommandExec::Process)),
    ]);
}

/// Edit, where the editor named by `EDITOR` cannot be launched, fails with
/// an editor launch error whose message names that editor.
pub proof fn edit_with_missing_editor(path: Seq<char>, editor: Seq<char>, cause: Seq<char>)
    ensures
        trace(
            ConfigCommand::Edit,
            seq![
                EventModel::Located(Some(path)),
                EventModel::EditorVar(Some(editor)),
                EventModel::Launched(Err(cause)),
            ],
        ) == seq![
            ActionModel::LocateConfig,
            ActionModel::LookupEditor,
            ActionModel::LaunchEditor(editor),
            ActionModel::Finish(Err(ErrorModel::EditorLaunch(editor, cause))),
        ],
        error_text(ErrorModel::EditorLaunch(editor, cause)).subrange(23, 23 + editor.len() as int) == editor,
{
    reveal_with_fuel(run, 4);
    let e = seq![
        EventModel::Located(Some(path)),
        EventModel::EditorVar(Some(editor)),
        EventModel::Launched(Err(cause)),
    ];
    assert(e.drop_first().drop_first().drop_first() =~= Seq::<EventModel>::empty());
    assert(trace(ConfigCommand::Edit, e) =~= seq![
        ActionModel::LocateConfig,
        ActionModel::LookupEditor,
        ActionModel::LaunchEditor(editor),
        ActionModel::Finish(Err(ErrorModel::EditorLaunch(editor, cause))),
    ]);
    reveal_strlit("Failed to open editor '");
    assert(error_text(ErrorModel::EditorLaunch(editor, cause)).subrange(23, 23 + editor.len() as int) =~= editor);
}

/// GoBack hands out the go-back outcome as its only action, and its session
/// then waits for nothing: it asks for no I/O at all.
pub proof fn go_back_does_nothing_else()
    ensures
        trace(ConfigCommand::GoBack, Seq::empty()) == seq![ActionModel::Finish(Ok(CommandExec::GoBack))],
        forall|e: EventModel| !awaits(start_of(ConfigCommand::GoBack).0.stage, e),
{
    assert(trace(ConfigCommand::GoBack, Seq::empty()) =~= seq![ActionModel::Finish(Ok(CommandExec::GoBack))]);
}

/// Whether each event of `events` is one that the session waits for when it comes.
pub open spec fn accepted(s: SessionModel, events: Seq<EventModel>) -> bool
    decreases events.len(),
{
    events.len() == 0 || (awaits(s.stage, events[0]) && accepted(next(s, events[0]).0, events.drop_first()))
}

/// The stages that a run of Show passes through.
pub open spec fn show_stage(st: Stage) -> bool {
    st == Stage::ShowLocate || st == Stage::ShowCheck || st == Stage::ShowRead || st == Stage::ShowNotice
        || st == Stage::ShowHeading || st == Stage::ShowTable || st == Stage::Finished
}

/// Whether an action may change the configuration file.
pub open spec fn touches_file(a: ActionModel) -> bool {
    a is WriteConfig || a is LaunchEditor
}

proof fn lemma_show_run_keeps_file(s: SessionModel, events: Seq<EventModel>)
    requires
        show_stage(s.stage),
        accepted(s, events),
    ensures
        forall|i: int| 0 <= i < run(s, events).len() ==> !touches_file(#[trigger] run(s, events)[i]),
    decreases events.len(),
{
    if events.len() > 0 {
        let (t, a) = next(s, events[0]);
        lemma_show_run_keeps_file(t, events.drop_first());
        assert(run(s, events) == seq![a] + run(t, events.drop_first()));
        assert forall|i: int| 0 <= i < run(s, events).len() implies !touches_file(#[trigger] run(s, events)[i]) by {
            if i > 0 {
                assert(run(s, events)[i] == run(t, events.drop_first())[i - 1]);
            }
        }
    }
}

/// Show asks for no action that changes the configuration file, so a second
/// Show observes what the first did; and what it hands out, its printed
/// output included, depends on what it observes alone.
pub proof fn show_is_repeatable(events: Seq<EventModel>, again: Seq<EventModel>)
    requires
        accepted(start_of(ConfigCommand::Show).0, events),
        again == events,
    ensures
        forall|i: int| 0 <= i < trace(ConfigCommand::Show, events).len()
            ==> !touches_file(#[trigger] trace(ConfigCommand::Show, events)[i]),
        trace(ConfigCommand::Show, again) == trace(ConfigCommand::Show, events),
{
    let s = start_of(ConfigCommand::Show).0;
    lemma_show_run_keeps_file(s, events);
    assert forall|i: int| 0 <= i < trace(ConfigCommand::Show, events).len()
        implies !touches_file(#[trigger] trace(ConfigCommand::Show, events)[i]) by {
        if i > 0 {
            assert(trace(ConfigCommand::Show, events)[i] == run(s, events)[i - 1]);
        }
    }
}

} // verus!
