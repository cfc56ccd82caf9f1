//! Save-file rules: which versions of the save format can be read, what a
//! save of an older version becomes, and the parts of a save that hold the
//! session on screen.

use vstd::prelude::*;
use vstd::string::*;
use crate::game::{default_editor_script, default_editor_text, Screen};
use crate::hack::{HackExecution, HackView};
use crate::terminal::{opt_text, texts};
use crate::text::{decimal, push_decimal};

verus! {

/// The version of the save format that autosaves are written in.
pub const SAVE_VERSION: u64 = 3;

/// How a save of a given version is read.
#[derive(Clone, Copy, Debug, PartialEq, Eq, Structural)]
pub enum SaveFormat {
    /// Version 1: no session state; it gets the defaults.
    V1,
    /// Version 2: the session without the scanned flag of the connected server.
    V2,
    /// The current version.
    Current,
}

/// The message for a save version that cannot be read.
pub open spec fn unsupported_version_message(version: nat) -> Seq<char> {
    "unsupported save version "@ + decimal(version)
}

/// Which save versions can be read, and how: versions 1 and 2 are migrated,
/// version 3 is current, any other is refused with its message.
pub open spec fn spec_save_format(version: nat) -> Result<SaveFormat, Seq<char>> {
    if version == 1 {
        Ok(SaveFormat::V1)
    } else if version == 2 {
        Ok(SaveFormat::V2)
    } else if version == SAVE_VERSION {
        Ok(SaveFormat::Current)
    } else {
        Err(unsupported_version_message(version))
    }
}

/// Decides how a save of `version` is read.
pub fn save_format(version: u64) -> (format: Result<SaveFormat, String>)
    ensures
        match format {
            Ok(f) => spec_save_format(version as nat) == Ok::<SaveFormat, Seq<char>>(f),
            Err(message) => spec_save_format(version as nat) == Err::<SaveFormat, Seq<char>>(
                message@,
            ),
        },
{
    if version == 1 {
        Ok(SaveFormat::V1)
    } else if version == 2 {
        Ok(SaveFormat::V2)
    } else if version == SAVE_VERSION {
        Ok(SaveFormat::Current)
    } else {
        let mut message = String::from_str("unsupported save version ");
        push_decimal(&mut message, version);
        Err(message)
    }
}

/// The employer and job the player works at, as saved.
pub struct SavedActiveJob {
    pub employer_name: String,
    pub job_name: String,
}

impl SavedActiveJob {
    pub fn new(employer_name: &str, job_name: &str) -> (job: SavedActiveJob)
        ensures
            job.employer_name@ == employer_name@,
            job.job_name@ == job_name@,
    {
        SavedActiveJob {
            employer_name: String::from_str(employer_name),
            job_name: String::from_str(job_name),
        }
    }
}

/// The session on screen, as the current save format holds it.
pub struct SavedSession {
    pub screen: Screen,
    pub terminal_input: String,
    pub terminal_lines: Vec<String>,
    pub terminal_scanned: bool,
    pub terminal_server_scanned: bool,
    pub connected_server: Option<String>,
    pub root_server: Option<String>,
    pub backdoor_server: Option<String>,
    pub hack_execution: Option<HackExecution>,
    pub editor_unlocked: bool,
    pub editor_text: String,
    pub editor_output: Vec<String>,
}

/// The session on screen, as save format version 2 holds it.
pub struct V2SavedSession {
    pub screen: Screen,
    pub terminal_input: String,
    pub terminal_lines: Vec<String>,
    pub terminal_scanned: bool,
    pub connected_server: Option<String>,
    pub root_server: Option<String>,
    pub backdoor_server: Option<String>,
    pub hack_execution: Option<HackExecution>,
    pub editor_unlocked: bool,
    pub editor_text: String,
    pub editor_output: Vec<String>,
}

/// A saved session as plain values.
pub struct SessionView {
    pub screen: Screen,
    pub terminal_input: Seq<char>,
    pub terminal_lines: Seq<Seq<char>>,
    pub terminal_scanned: bool,
    pub terminal_server_scanned: bool,
    pub connected_server: Option<Seq<char>>,
    pub root_server: Option<Seq<char>>,
    pub backdoor_server: Option<Seq<char>>,
    pub hack: Option<HackView>,
    pub editor_unlocked: bool,
    pub editor_text: Seq<char>,
    pub editor_output: Seq<Seq<char>>,
}

/// The plain values of an optional hack.
pub open spec fn opt_hack(h: Option<HackExecution>) -> Option<HackView> {
    match h {
        Some(x) => Some(x@),
        None => None,
    }
}

impl View for SavedSession {
    type V = SessionView;

    open spec fn view(&self) -> SessionView {
        SessionView {
            screen: self.screen,
            terminal_input: self.terminal_input@,
            terminal_lines: texts(self.terminal_lines@),
            terminal_scanned: self.terminal_scanned,
            terminal_server_scanned: self.terminal_server_scanned,
            connected_server: opt_text(self.connected_server),
            root_server: opt_text(self.root_server),
            backdoor_server: opt_text(self.backdoor_server),
            hack: opt_hack(self.hack_execution),
            editor_unlocked: self.editor_unlocked,
            editor_text: self.editor_text@,
            editor_output: texts(self.editor_output@),
        }
    }
}

/// What a version 2 session becomes: the same, with the connected server
/// not yet scanned.
pub open spec fn migrated_v2(v2: V2SavedSession) -> SessionView {
    SessionView {
        screen: v2.screen,
        terminal_input: v2.terminal_input@,
        terminal_lines: texts(v2.terminal_lines@),
        terminal_scanned: v2.terminal_scanned,
        terminal_server_scanned: false,
        connected_server: opt_text(v2.connected_server),
        root_server: opt_text(v2.root_server),
        backdoor_server: opt_text(v2.backdoor_server),
        hack: opt_hack(v2.hack_execution),
        editor_unlocked: v2.editor_unlocked,
        editor_text: v2.editor_text@,
        editor_output: texts(v2.editor_output@),
    }
}

/// The session of a version 1 save, which held none: the intro screen, an
/// empty terminal, the editor locked with its starting script.
pub open spec fn v1_session() -> SessionView {
    SessionView {
        screen: Screen::Intro,
        terminal_input: seq![],
        terminal_lines: seq![],
        terminal_scanned: false,
        terminal_server_scanned: false,
        connected_server: None,
        root_server: None,
        backdoor_server: None,
        hack: None,
        editor_unlocked: false,
        editor_text: default_editor_script(),
        editor_output: seq![],
    }
}

impl SavedSession {
    /// The session given to a version 1 save.
    pub fn v1_defaults() -> (session: SavedSession)
        ensures
            session@ == v1_session(),
    {
        let session = SavedSession {
            screen: Screen::Intro,
            terminal_input: String::new(),
            terminal_lines: Vec::new(),
            terminal_scanned: false,
            terminal_server_scanned: false,
            connected_server: None,
            root_server: None,
            backdoor_server: None,
            hack_execution: None,
            editor_unlocked: false,
            editor_text: default_editor_text(),
            editor_output: Vec::new(),
        };
        assert(texts(session.terminal_lines@) =~= seq![]);
        assert(texts(session.editor_output@) =~= seq![]);
        session
    }

    /// Migrates a version 2 session.
    pub fn from_v2(v2: V2SavedSession) -> (session: SavedSession)
        ensures
            session@ == migrated_v2(v2),
    {
        SavedSession {
            screen: v2.screen,
            terminal_input: v2.terminal_input,
            terminal_lines: v2.terminal_lines,
            terminal_scanned: v2.terminal_scanned,
            terminal_server_scanned: false,
            connected_server: v2.connected_server,
            root_server: v2.root_server,
            backdoor_server: v2.backdoor_server,
            hack_execution: v2.hack_execution,
            editor_unlocked: v2.editor_unlocked,
            editor_text: v2.editor_text,
            editor_output: v2.editor_output,
        }
    }
}

/// Exactly the versions 1, 2 and 3 can be read; every other version is
/// refused, and its message names it.
pub proof fn lemma_readable_versions(version: nat)
    ensures
        spec_save_format(version) is Ok <==> 1 <= version <= 3,
        !(1 <= version <= 3) ==> spec_save_format(version) == Err::<SaveFormat, Seq<char>>(
            "unsupported save version "@ + decimal(version),
        ),
{
}

/// Migrating a version 2 session keeps every value it holds (screen,
/// terminal, hosts, hack and editor, the editor's unlocked flag included);
/// the one value it lacked, whether the connected server was scanned, is
/// set to not scanned.
pub proof fn lemma_v2_migration_keeps_every_field(v2: V2SavedSession)
    ensures
        migrated_v2(v2).screen == v2.screen,
        migrated_v2(v2).terminal_input == v2.terminal_input@,
        migrated_v2(v2).terminal_lines == texts(v2.terminal_lines@),
        migrated_v2(v2).terminal_scanned == v2.terminal_scanned,
        migrated_v2(v2).connected_server == opt_text(v2.connected_server),
        migrated_v2(v2).root_server == opt_text(v2.root_server),
        migrated_v2(v2).backdoor_server == opt_text(v2.backdoor_server),
        migrated_v2(v2).hack == opt_hack(v2.hack_execution),
        migrated_v2(v2).editor_unlocked == v2.editor_unlocked,
        migrated_v2(v2).editor_text == v2.editor_text@,
        migrated_v2(v2).editor_output == texts(v2.editor_output@),
        !migrated_v2(v2).terminal_server_scanned,
{
}

/// Each readable version is read its own way: version 1 as a version 1
/// save, version 2 as a version 2 save, version 3 as current.
pub proof fn lemma_each_version_read_its_way()
    ensures
        spec_save_format(1) == Ok::<SaveFormat, Seq<char>>(SaveFormat::V1),
        spec_save_format(2) == Ok::<SaveFormat, Seq<char>>(SaveFormat::V2),
        spec_save_format(3) == Ok::<SaveFormat, Seq<char>>(SaveFormat::Current),
{
}

/// A version 1 save, which held no session, gets a fresh one: the intro
/// screen, an empty terminal at home with nothing scanned, no hack, and
/// the editor locked with its starting script and no output.
pub proof fn lemma_v1_session_is_fresh()
    ensures
        v1_session().screen == Screen::Intro,
        v1_session().terminal_input.len() == 0,
        v1_session().terminal_lines.len() == 0,
        !v1_session().terminal_scanned,
        !v1_session().terminal_server_scanned,
        v1_session().connected_server is None,
        v1_session().root_server is None,
        v1_session().backdoor_server is None,
        v1_session().hack is None,
        !v1_session().editor_unlocked,
        v1_session().editor_text == default_editor_script(),
        v1_session().editor_output.len() == 0,
{
}

} // verus!
