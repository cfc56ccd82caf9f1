//! The flow of a run: levels ("tutorials") with a work shift, the hacking
//! terminal that opens after the shift, hacks that take in-game time, and
//! the editor that a hack unlocks.

use vstd::prelude::*;
use vstd::string::*;
use crate::clock::Clock;
use crate::hack::HackView;
use crate::terminal::{
    after_entry, after_hack_progress, entry_outcome, find_server, find_server_index, servers_view, texts, EntryOutcome, ServerListing, ServerView, Terminal, TerminalView,
};
use crate::text::{decimal, push_decimal};

verus! {

/// The screen the game shows.
#[derive(Clone, Copy, Debug, PartialEq, Eq, Structural)]
pub enum Screen {
    Intro,
    Working,
    TerminalPrompt,
    Terminal,
    Editor,
    Complete,
    Finished,
}

/// What the game flow needs to know of a level: its number, the length of
/// its work shift, the employer and job it offers and the servers that its
/// terminal can reach.
pub struct TutorialInfo {
    pub number: u8,
    pub duration_seconds: u64,
    pub employer_name: String,
    pub job_name: String,
    pub servers: Vec<ServerListing>,
}

/// A level as plain values.
pub struct TutorialView {
    pub number: u8,
    pub duration_seconds: nat,
    pub employer_name: Seq<char>,
    pub job_name: Seq<char>,
    pub servers: Seq<ServerView>,
}

impl View for TutorialInfo {
    type V = TutorialView;

    open spec fn view(&self) -> TutorialView {
        TutorialView {
            number: self.number,
            duration_seconds: self.duration_seconds as nat,
            employer_name: self.employer_name@,
            job_name: self.job_name@,
            servers: servers_view(self.servers@),
        }
    }
}

/// The state of a run that the game's rules decide, apart from the
/// player's fractional stats.
pub struct GameState {
    pub tutorial: TutorialInfo,
    pub clock: Clock,
    pub screen: Screen,
    pub terminal: Terminal,
    pub editor_unlocked: bool,
    pub editor_text: String,
    pub editor_output: Vec<String>,
    /// The status line shown under the screen.
    pub save_status: String,
}

/// A run as plain values.
#[verifier::ext_equal]
pub struct GameView {
    pub tutorial: TutorialView,
    pub clock: nat,
    pub screen: Screen,
    pub terminal: TerminalView,
    pub editor_unlocked: bool,
    pub editor_text: Seq<char>,
    pub editor_output: Seq<Seq<char>>,
    pub save_status: Seq<char>,
}

impl View for GameState {
    type V = GameView;

    open spec fn view(&self) -> GameView {
        GameView {
            tutorial: self.tutorial@,
            clock: self.clock@,
            screen: self.screen,
            terminal: self.terminal@,
            editor_unlocked: self.editor_unlocked,
            editor_text: self.editor_text@,
            editor_output: texts(self.editor_output@),
            save_status: self.save_status@,
        }
    }
}

/// The script the editor starts with.
pub open spec fn default_editor_script() -> Seq<char> {
    "fn main(ds) {\n    ds_print(ds, \"hello from automation\");\n}\n"@
}

/// The script the editor starts with.
pub fn default_editor_text() -> (text: String)
    ensures
        text@ == default_editor_script(),
{
    String::from_str("fn main(ds) {\n    ds_print(ds, \"hello from automation\");\n}\n")
}

impl GameView {
    /// A level with servers introduces hacking.
    pub open spec fn has_hacking_intro(self) -> bool {
        self.tutorial.servers.len() > 0
    }

    /// The run is well formed: a running hack stays within its duration.
    pub open spec fn well_formed(self) -> bool {
        self.terminal.well_formed()
    }
}

/// The run after the job is taken: the shift starts.
pub open spec fn after_start_job(g: GameView) -> GameView {
    GameView {
        screen: Screen::Working,
        save_status: "You took the "@ + g.tutorial.job_name + " job. Starting tutorial "@ + decimal(
            g.tutorial.number as nat,
        ) + "."@,
        ..g
    }
}

/// The run after up to `game_seconds` of the shift are worked, and how
/// many were credited: no more than what is left of the shift.
pub open spec fn after_work(g: GameView, game_seconds: nat) -> (GameView, nat) {
    let credited = crate::terminal::min_nat(game_seconds, (g.tutorial.duration_seconds - g.clock) as nat);
    (GameView { clock: g.clock + credited, ..g }, credited)
}

/// The run after up to `game_seconds` of the shift pass: they are worked,
/// and once the shift is over it ends.
pub open spec fn after_shift_time(g: GameView, game_seconds: nat) -> GameView {
    let worked = after_work(g, game_seconds).0;
    if worked.clock >= g.tutorial.duration_seconds {
        after_finish_tutorial(worked)
    } else {
        worked
    }
}

/// The run when the shift is over: the terminal prompt in a hacking level,
/// else the end-of-level choice.
pub open spec fn after_finish_tutorial(g: GameView) -> GameView {
    GameView {
        screen: if g.has_hacking_intro() {
            Screen::TerminalPrompt
        } else {
            Screen::Complete
        },
        ..g
    }
}

/// The run after the rest of the shift is skipped: the clock stands at the
/// end of the shift, and the shift is over.
pub open spec fn after_skip_tutorial(g: GameView) -> GameView {
    after_finish_tutorial(
        GameView {
            clock: g.tutorial.duration_seconds,
            save_status: "Skipped the rest of tutorial "@ + decimal(g.tutorial.number as nat) + "."@,
            ..g
        },
    )
}

/// What follows the choice about company reputation at the end of a level.
pub enum ReputationChoiceOutcome {
    /// The level with this number starts next.
    StartTutorial(u8),
    /// The run is over.
    Finished,
}

/// The next step after the end-of-level choice: level 0 leads to level 1,
/// level 1 to level 2, and any later level ends the run.
pub open spec fn reputation_choice_outcome(number: u8) -> ReputationChoiceOutcome {
    if number == 0 {
        ReputationChoiceOutcome::StartTutorial(1)
    } else if number == 1 {
        ReputationChoiceOutcome::StartTutorial(2)
    } else {
        ReputationChoiceOutcome::Finished
    }
}

/// The run after the end-of-level choice, with `status` as its message.
pub open spec fn after_reputation_choice(g: GameView, status: Seq<char>) -> GameView {
    if g.tutorial.number <= 1 {
        GameView { save_status: status, ..g }
    } else {
        GameView { save_status: status, screen: Screen::Finished, ..g }
    }
}

/// The run when the next level starts: a fresh clock on its intro screen,
/// the status message extended by `suffix`.
pub open spec fn after_start_next_tutorial(
    g: GameView,
    tutorial: TutorialView,
    suffix: Seq<char>,
) -> GameView {
    GameView {
        tutorial: tutorial,
        clock: 0,
        screen: Screen::Intro,
        save_status: g.save_status + suffix,
        ..g
    }
}

/// The run after the player asks for the terminal: it opens, freshly reset,
/// only in a hacking level once the shift is over.
pub open spec fn after_open_terminal(g: GameView) -> GameView {
    if g.has_hacking_intro() && g.clock >= g.tutorial.duration_seconds {
        GameView {
            terminal: TerminalView {
                input: seq![],
                lines: seq![
                    "connected to home server: dreamstack"@,
                    "Run `netscan` to discover nearby servers."@,
                ],
                scanned: false,
                server_scanned: false,
                connected_server: None,
                root_server: None,
                backdoor_server: None,
                ..g.terminal
            },
            save_status: "Terminal opened."@,
            screen: Screen::Terminal,
            ..g
        }
    } else {
        GameView { save_status: "Finish your shift before using Terminal."@, ..g }
    }
}

/// The run after the player asks for the editor: it opens once unlocked.
pub open spec fn after_open_editor(g: GameView) -> GameView {
    if g.editor_unlocked {
        GameView { screen: Screen::Editor, save_status: "Editor opened."@, ..g }
    } else {
        GameView { save_status: "Hack a server during tutorial 2 to unlock Editor."@, ..g }
    }
}

/// The run after the typed command line is entered; a hack that starts is
/// announced in the status line.
pub open spec fn after_terminal_command(g: GameView) -> GameView {
    let t = after_entry(g.terminal, g.tutorial.servers);
    match entry_outcome(g.terminal, g.tutorial.servers) {
        EntryOutcome::HackStarted => GameView {
            terminal: t,
            save_status: "Hacking "@ + g.terminal.connected_server->0 + "..."@,
            ..g
        },
        _ => GameView { terminal: t, ..g },
    }
}

/// The run after up to `game_seconds` of in-game time pass during a hack:
/// the hack and the clock advance together, by no more than what is left
/// of the hack.
pub open spec fn after_hack_time(g: GameView, game_seconds: nat) -> GameView {
    let (t, ran) = after_hack_progress(g.terminal, game_seconds);
    GameView { terminal: t, clock: g.clock + ran, ..g }
}

/// Whether the running hack has run its whole duration once up to
/// `game_seconds` pass.
pub open spec fn hack_ends_within(g: GameView, game_seconds: nat) -> bool {
    after_hack_time(g, game_seconds).terminal.hack matches Some(h) && h.is_complete()
}

/// The run after up to `game_seconds` pass during a hack: the hack and the
/// clock advance, and a hack that has run its whole duration ends.
pub open spec fn after_hack_step(g: GameView, game_seconds: nat) -> GameView {
    if hack_ends_within(g, game_seconds) {
        after_complete_hack(after_hack_time(g, game_seconds))
    } else {
        after_hack_time(g, game_seconds)
    }
}

/// How a hack ended.
pub enum HackCompletion {
    /// Its host is no longer listed.
    LostConnection,
    /// It drained the listed server at this index; the player earns its
    /// hack experience.
    Completed { server_index: usize },
}

/// The run after a running hack ends. If its host is no longer listed the
/// hack fails. Otherwise it completes: in level 1 that completes the level;
/// in level 2 it unlocks the editor.
pub open spec fn after_complete_hack(g: GameView) -> GameView {
    let h = g.terminal.hack->0;
    let host = h.hostname;
    let t = TerminalView { hack: None, ..g.terminal };
    match find_server(g.tutorial.servers, host) {
        None => GameView { terminal: t.with_line("hack failed: lost connection to "@ + host), ..g },
        Some(i) => {
            let reward = g.tutorial.servers[i].reward_text;
            let done = t.with_line("hack complete: gained "@ + reward + " hack exp"@);
            if g.tutorial.number == 1 {
                GameView {
                    terminal: done,
                    save_status: "Hacked "@ + host + " and completed tutorial 1."@,
                    screen: Screen::Complete,
                    ..g
                }
            } else if g.tutorial.number == 2 {
                GameView {
                    terminal: done.with_line(
                        "editor unlocked; open Hacking > Editor in the sidebar"@,
                    ),
                    editor_unlocked: true,
                    save_status: "Hacked "@ + host + " and gained "@ + reward + " hack exp."@,
                    ..g
                }
            } else {
                GameView {
                    terminal: done,
                    save_status: "Hacked "@ + host + " and gained "@ + reward + " hack exp."@,
                    ..g
                }
            }
        },
    }
}

/// A completed hack is followed by an autosave; a failed one is not.
pub open spec fn completion_autosaves(completion: HackCompletion) -> bool {
    completion is Completed
}

/// How `after_complete_hack` ended the hack.
pub open spec fn hack_completion(g: GameView) -> HackCompletion {
    match find_server(g.tutorial.servers, g.terminal.hack->0.hostname) {
        None => HackCompletion::LostConnection,
        Some(i) => HackCompletion::Completed { server_index: i as usize },
    }
}

/// The run with the running hack fast-forwarded to its end: the clock moves
/// on by the time the hack had left.
pub open spec fn after_fast_forward_hack(g: GameView) -> GameView {
    let h = g.terminal.hack->0;
    GameView {
        clock: (g.clock + h.duration_seconds - h.elapsed_seconds) as nat,
        terminal: TerminalView {
            hack: Some(HackView { elapsed_seconds: h.duration_seconds, ..h }),
            ..g.terminal
        },
        ..g
    }
}

/// The run after the running hack is skipped: fast-forwarded, then ended.
pub open spec fn after_skip_hack(g: GameView) -> GameView {
    if g.terminal.hack is None {
        g
    } else {
        after_complete_hack(after_fast_forward_hack(g))
    }
}

/// The run after an editor script ran: its printed lines, or, when it
/// failed, no output and the failure's message.
pub open spec fn after_script_run(g: GameView, result: Result<Seq<Seq<char>>, Seq<char>>) -> GameView {
    match result {
        Ok(output) => GameView { editor_output: output, save_status: "Rhai script ran."@, ..g },
        Err(e) => GameView {
            editor_output: seq![],
            save_status: "Rhai script failed: "@ + e,
            ..g
        },
    }
}

/// The status after an autosave: `Autosaved.` if there was no status yet,
/// or the failure with its message.
pub open spec fn status_after_autosave(status: Seq<char>, failure: Option<Seq<char>>) -> Seq<char> {
    match failure {
        None => if status.len() == 0 {
            "Autosaved."@
        } else {
            status
        },
        Some(e) => "Autosave failed: "@ + e,
    }
}


impl GameState {
    /// A run at the start of `tutorial`: intro screen, clock at zero, empty
    /// terminal, editor locked with its starting script.
    pub fn new(tutorial: TutorialInfo) -> (state: GameState)
        ensures
            state@ == (GameView {
                tutorial: tutorial@,
                clock: 0,
                screen: Screen::Intro,
                terminal: TerminalView {
                    input: seq![],
                    lines: seq![],
                    scanned: false,
                    server_scanned: false,
                    connected_server: None,
                    root_server: None,
                    backdoor_server: None,
                    hack: None,
                },
                editor_unlocked: false,
                editor_text: default_editor_script(),
                editor_output: seq![],
                save_status: seq![],
            }),
    {
        let state = GameState {
            tutorial,
            clock: Clock::new(),
            screen: Screen::Intro,
            terminal: Terminal::new(),
            editor_unlocked: false,
            editor_text: default_editor_text(),
            editor_output: Vec::new(),
            save_status: String::new(),
        };
        assert(texts(state.editor_output@) =~= seq![]);
        state
    }

    /// Whether this level introduces hacking (it has servers).
    pub fn has_hacking_intro(&self) -> (b: bool)
        ensures
            b == self@.has_hacking_intro(),
    {
        self.tutorial.servers.len() != 0
    }

    /// The title of the level.
    pub fn tutorial_title(&self) -> (title: &'static str)
        ensures
            title@ == (if self@.has_hacking_intro() {
                "Hacking System"@
            } else {
                "Job System"@
            }),
    {
        if self.has_hacking_intro() {
            "Hacking System"
        } else {
            "Job System"
        }
    }

    /// Takes the level's job: the shift starts. Returns that an autosave
    /// follows, which it always does.
    pub fn start_job(&mut self) -> (autosave: bool)
        ensures
            final(self)@ == after_start_job(old(self)@),
            autosave,
    {
        self.screen = Screen::Working;
        let mut status = String::from_str("You took the ");
        status.append(self.tutorial.job_name.as_str());
        status.append(" job. Starting tutorial ");
        push_decimal(&mut status, self.tutorial.number as u64);
        status.append(".");
        self.save_status = status;
        true
    }

    /// Works up to `game_seconds` of the shift, and ends the shift once it
    /// is over. Returns the seconds credited, for which the caller pays the
    /// job's rewards, and whether the shift ended, which an autosave follows.
    pub fn work_for(&mut self, game_seconds: u64) -> (r: (u64, bool))
        requires
            old(self)@.clock <= old(self)@.tutorial.duration_seconds,
        ensures
            final(self)@ == after_shift_time(old(self)@, game_seconds as nat),
            r.0 == after_work(old(self)@, game_seconds as nat).1,
            r.1 == (after_work(old(self)@, game_seconds as nat).0.clock
                >= old(self)@.tutorial.duration_seconds),
    {
        let remaining = self.tutorial.duration_seconds - self.clock.elapsed_seconds();
        let credited = if game_seconds < remaining {
            game_seconds
        } else {
            remaining
        };
        self.clock.advance_by(credited);
        if self.shift_over() {
            let autosave = self.finish_tutorial();
            (credited, autosave)
        } else {
            (credited, false)
        }
    }

    /// Whether the shift is over.
    pub fn shift_over(&self) -> (over: bool)
        ensures
            over == (self@.clock >= self@.tutorial.duration_seconds),
    {
        self.clock.elapsed_seconds() >= self.tutorial.duration_seconds
    }

    /// Ends the shift. Returns that an autosave follows, which it always
    /// does.
    pub fn finish_tutorial(&mut self) -> (autosave: bool)
        ensures
            final(self)@ == after_finish_tutorial(old(self)@),
            autosave,
    {
        self.screen = if self.has_hacking_intro() {
            Screen::TerminalPrompt
        } else {
            Screen::Complete
        };
        true
    }

    /// Skips the rest of the shift. Returns the seconds that were left, for
    /// which the caller pays the job's rewards, and that an autosave follows,
    /// which it always does.
    pub fn skip_tutorial(&mut self) -> (r: (u64, bool))
        requires
            old(self)@.clock <= old(self)@.tutorial.duration_seconds,
        ensures
            final(self)@ == after_skip_tutorial(old(self)@),
            r.0 == old(self)@.tutorial.duration_seconds - old(self)@.clock,
            r.1,
    {
        let remaining = self.tutorial.duration_seconds - self.clock.elapsed_seconds();
        self.clock.advance_by(remaining);
        let mut status = String::from_str("Skipped the rest of tutorial ");
        push_decimal(&mut status, self.tutorial.number as u64);
        status.append(".");
        self.save_status = status;
        let autosave = self.finish_tutorial();
        (remaining, autosave)
    }

    /// Records the end-of-level choice with `status` as its message. Returns
    /// what comes next, and whether an autosave follows now: when the run is
    /// over. (When a level starts, its start is followed by one.)
    pub fn advance_after_reputation_choice(&mut self, status: &str) -> (r: (
        ReputationChoiceOutcome,
        bool,
    ))
        ensures
            final(self)@ == after_reputation_choice(old(self)@, status@),
            r.0 == reputation_choice_outcome(old(self)@.tutorial.number),
            r.1 == (r.0 is Finished),
    {
        self.save_status = String::from_str(status);
        if self.tutorial.number == 0 {
            (ReputationChoiceOutcome::StartTutorial(1), false)
        } else if self.tutorial.number == 1 {
            (ReputationChoiceOutcome::StartTutorial(2), false)
        } else {
            self.screen = Screen::Finished;
            (ReputationChoiceOutcome::Finished, true)
        }
    }

    /// Starts the next level; `suffix` is added to the status message. The
    /// caller resets the player's stats. Returns that an autosave follows,
    /// which it always does.
    pub fn start_next_tutorial(&mut self, tutorial: TutorialInfo, suffix: &str) -> (autosave: bool)
        ensures
            final(self)@ == after_start_next_tutorial(old(self)@, tutorial@, suffix@),
            autosave,
    {
        self.tutorial = tutorial;
        self.clock = Clock::new();
        self.screen = Screen::Intro;
        self.save_status.append(suffix);
        true
    }

    /// Opens the terminal, if the shift of a hacking level is over.
    pub fn open_terminal(&mut self)
        ensures
            final(self)@ == after_open_terminal(old(self)@),
    {
        if self.has_hacking_intro() && self.clock.elapsed_seconds() >= self.tutorial.duration_seconds {
            self.terminal.input = String::new();
            let mut lines: Vec<String> = Vec::new();
            lines.push(String::from_str("connected to home server: dreamstack"));
            lines.push(String::from_str("Run `netscan` to discover nearby servers."));
            self.terminal.lines = lines;
            self.terminal.scanned = false;
            self.terminal.server_scanned = false;
            self.terminal.connected_server = None;
            self.terminal.root_server = None;
            self.terminal.backdoor_server = None;
            self.save_status = String::from_str("Terminal opened.");
            self.screen = Screen::Terminal;
            assert(texts(self.terminal.lines@) =~= seq![
                "connected to home server: dreamstack"@,
                "Run `netscan` to discover nearby servers."@,
            ]);
        } else {
            self.save_status = String::from_str("Finish your shift before using Terminal.");
        }
    }

    /// Opens the editor, if it is unlocked.
    pub fn open_editor(&mut self)
        ensures
            final(self)@ == after_open_editor(old(self)@),
    {
        if self.editor_unlocked {
            self.screen = Screen::Editor;
            self.save_status = String::from_str("Editor opened.");
        } else {
            self.save_status = String::from_str("Hack a server during tutorial 2 to unlock Editor.");
        }
    }

    /// Enters the typed terminal command line. Returns whether the caller
    /// should write an autosave (whenever the line was not empty).
    pub fn run_terminal_command(&mut self) -> (autosave: bool)
        ensures
            final(self)@ == after_terminal_command(old(self)@),
            autosave == (entry_outcome(old(self)@.terminal, old(self)@.tutorial.servers)
                != EntryOutcome::Ignored),
    {
        let host = self.terminal.connected_server.clone();
        match self.terminal.enter_command(&self.tutorial.servers) {
            EntryOutcome::Ignored => false,
            EntryOutcome::Ran => true,
            EntryOutcome::HackStarted => {
                let mut status = String::from_str("Hacking ");
                match &host {
                    Some(h) => status.append(h.as_str()),
                    None => {},
                }
                status.append("...");
                self.save_status = status;
                true
            },
        }
    }

    /// Lets up to `game_seconds` of in-game time pass for the running hack,
    /// and ends the hack once it has run its whole duration. Returns how many
    /// seconds passed, how the hack ended if it did (when it completed, the
    /// caller pays the server's hack experience), and whether an autosave
    /// follows (when it completed).
    pub fn advance_hack_execution(&mut self, game_seconds: u64) -> (r: (
        u64,
        Option<HackCompletion>,
        bool,
    ))
        requires
            old(self)@.well_formed(),
            old(self)@.clock + after_hack_progress(old(self)@.terminal, game_seconds as nat).1
                <= u64::MAX,
        ensures
            final(self)@ == after_hack_step(old(self)@, game_seconds as nat),
            r.0 == after_hack_progress(old(self)@.terminal, game_seconds as nat).1,
            r.1 == (if hack_ends_within(old(self)@, game_seconds as nat) {
                Some(hack_completion(after_hack_time(old(self)@, game_seconds as nat)))
            } else {
                None
            }),
            r.2 == (r.1 matches Some(c) && completion_autosaves(c)),
            r.1 matches Some(HackCompletion::Completed { server_index }) ==> server_index
                < old(self)@.tutorial.servers.len(),
            final(self)@.well_formed(),
    {
        let ran = self.terminal.advance_hack(game_seconds);
        self.clock.advance_by(ran);
        if self.hack_complete() {
            let (completion, autosave) = self.complete_hack();
            (ran, Some(completion), autosave)
        } else {
            (ran, None, false)
        }
    }

    /// Whether a hack is running and has run its whole duration.
    pub fn hack_complete(&self) -> (complete: bool)
        ensures
            complete == (self@.terminal.hack matches Some(h) && h.is_complete()),
    {
        match &self.terminal.hack_execution {
            Some(h) => h.elapsed_seconds >= h.duration_seconds,
            None => false,
        }
    }

    /// Ends the running hack. Returns how it ended (when it completed, the
    /// caller pays the server's hack experience) and whether an autosave
    /// follows (when it completed).
    pub fn complete_hack(&mut self) -> (r: (HackCompletion, bool))
        requires
            old(self)@.terminal.hack is Some,
        ensures
            final(self)@ == after_complete_hack(old(self)@),
            r.0 == hack_completion(old(self)@),
            r.1 == completion_autosaves(r.0),
            r.0 matches HackCompletion::Completed { server_index } ==> server_index
                < old(self)@.tutorial.servers.len(),
    {
        let hack = self.terminal.hack_execution.take().unwrap();
        let host = hack.hostname;
        match find_server_index(&self.tutorial.servers, host.as_str()) {
            None => {
                self.terminal.push_joined("hack failed: lost connection to ", host.as_str());
                (HackCompletion::LostConnection, false)
            },
            Some(i) => {
                let reward = self.tutorial.servers[i].reward_text.clone();
                let mut line = String::from_str("hack complete: gained ");
                line.append(reward.as_str());
                line.append(" hack exp");
                self.terminal.push_line(line);
                if self.tutorial.number == 1 {
                    let mut status = String::from_str("Hacked ");
                    status.append(host.as_str());
                    status.append(" and completed tutorial 1.");
                    self.save_status = status;
                    self.screen = Screen::Complete;
                    return (HackCompletion::Completed { server_index: i }, true);
                }
                if self.tutorial.number == 2 {
                    self.editor_unlocked = true;
                    self.terminal.push_text("editor unlocked; open Hacking > Editor in the sidebar");
                }
                let mut status = String::from_str("Hacked ");
                status.append(host.as_str());
                status.append(" and gained ");
                status.append(reward.as_str());
                status.append(" hack exp.");
                self.save_status = status;
                (HackCompletion::Completed { server_index: i }, true)
            },
        }
    }

    /// Skips the running hack to its end, if one runs; see `complete_hack`.
    /// Returns how it ended and whether an autosave follows.
    pub fn skip_hack_execution(&mut self) -> (r: (Option<HackCompletion>, bool))
        requires
            old(self)@.well_formed(),
            old(self)@.terminal.hack matches Some(h) ==> old(self)@.clock + (h.duration_seconds
                - h.elapsed_seconds) <= u64::MAX,
        ensures
            final(self)@ == after_skip_hack(old(self)@),
            old(self)@.terminal.hack is None ==> r.0 is None,
            old(self)@.terminal.hack is Some ==> r.0 == Some(
                hack_completion(after_fast_forward_hack(old(self)@)),
            ),
            r.1 == (r.0 matches Some(c) && completion_autosaves(c)),
    {
        let remaining = match &mut self.terminal.hack_execution {
            None => {
                return (None, false);
            },
            Some(hack) => {
                let remaining = hack.duration_seconds - hack.elapsed_seconds;
                hack.elapsed_seconds = hack.duration_seconds;
                remaining
            },
        };
        self.clock.advance_by(remaining);
        let (completion, autosave) = self.complete_hack();
        (Some(completion), autosave)
    }

    /// Records how an autosave went: `failure` holds the error's message
    /// when it failed.
    pub fn note_autosave(&mut self, failure: Option<&str>)
        ensures
            final(self)@ == (GameView {
                save_status: status_after_autosave(
                    old(self)@.save_status,
                    match failure {
                        Some(e) => Some(e@),
                        None => None,
                    },
                ),
                ..old(self)@
            }),
    {
        match failure {
            None => {
                if self.save_status.unicode_len() == 0 {
                    self.save_status = String::from_str("Autosaved.");
                }
            },
            Some(e) => {
                let mut status = String::from_str("Autosave failed: ");
                status.append(e);
                self.save_status = status;
            },
        }
    }
}



impl GameState {
    /// Records the result of running the editor's script: the lines it
    /// printed, or the message of its error.
    pub fn record_script_run(&mut self, result: Result<Vec<String>, String>)
        ensures
            final(self)@ == after_script_run(
                old(self)@,
                match result {
                    Ok(lines) => Ok(texts(lines@)),
                    Err(e) => Err(e@),
                },
            ),
    {
        match result {
            Ok(output) => {
                self.editor_output = output;
                self.save_status = String::from_str("Rhai script ran.");
            },
            Err(error) => {
                self.editor_output = Vec::new();
                let mut status = String::from_str("Rhai script failed: ");
                status.append(error.as_str());
                self.save_status = status;
                assert(texts(self.editor_output@) =~= seq![]);
            },
        }
    }

    /// Clears the editor's script.
    pub fn clear_editor(&mut self)
        ensures
            final(self)@ == (GameView {
                editor_text: seq![],
                save_status: "Editor cleared."@,
                ..old(self)@
            }),
    {
        self.editor_text = String::new();
        self.save_status = String::from_str("Editor cleared.");
    }
}

/// Waiting out a running hack leaves the run exactly as skipping the hack
/// does: the time step that reaches the hack's end ends it, with the same
/// clock, terminal, status and rewards as a skip.
pub proof fn lemma_waiting_out_hack_equals_skipping(g: GameView, game_seconds: nat)
    requires
        g.well_formed(),
        g.terminal.hack matches Some(h) && game_seconds >= h.duration_seconds - h.elapsed_seconds,
    ensures
        hack_ends_within(g, game_seconds),
        after_hack_step(g, game_seconds) == after_skip_hack(g),
        hack_completion(after_hack_time(g, game_seconds)) == hack_completion(
            after_fast_forward_hack(g),
        ),
{
    assert(after_hack_time(g, game_seconds) =~= after_fast_forward_hack(g));
}

/// Entering commands and letting time pass keep a run well formed: a
/// running hack never runs past its duration.
pub proof fn lemma_play_keeps_run_well_formed(g: GameView, game_seconds: nat)
    requires
        g.well_formed(),
    ensures
        after_terminal_command(g).well_formed(),
        after_hack_step(g, game_seconds).well_formed(),
        after_shift_time(g, game_seconds).well_formed(),
{
    crate::terminal::lemma_entry_keeps_hack_well_formed(g.terminal, g.tutorial.servers);
}

/// A time step during a shift ends the shift exactly when it reaches the
/// shift's end, and never ends a hack; a time step during a hack ends the
/// hack exactly when it reaches the hack's end.
pub proof fn lemma_time_steps_end_what_is_over(g: GameView, game_seconds: nat)
    requires
        g.clock <= g.tutorial.duration_seconds,
    ensures
        after_shift_time(g, game_seconds).clock == g.clock + crate::terminal::min_nat(
            game_seconds,
            (g.tutorial.duration_seconds - g.clock) as nat,
        ),
        after_shift_time(g, game_seconds).screen == (if g.clock + game_seconds
            >= g.tutorial.duration_seconds {
            if g.has_hacking_intro() {
                Screen::TerminalPrompt
            } else {
                Screen::Complete
            }
        } else {
            g.screen
        }),
        after_shift_time(g, game_seconds).terminal == g.terminal,
        g.terminal.hack matches Some(h) ==> (after_hack_step(g, game_seconds).terminal.hack is None
            <==> h.elapsed_seconds + game_seconds >= h.duration_seconds),
{
}

/// The terminal opens only in a level that has servers, and only once the
/// shift is over; otherwise the screen stays as it was.
pub proof fn lemma_terminal_opens_only_after_shift(g: GameView)
    ensures
        after_open_terminal(g).screen == Screen::Terminal <==> (g.screen == Screen::Terminal || (
        g.has_hacking_intro() && g.clock >= g.tutorial.duration_seconds)),
        !(g.has_hacking_intro() && g.clock >= g.tutorial.duration_seconds) ==> after_open_terminal(
            g,
        ).terminal == g.terminal,
{
}

/// The editor is unlocked only by a hack that completes in level 2: no
/// other step of a run changes whether it is unlocked.
pub proof fn lemma_editor_unlocks_only_by_a_level_2_hack(
    g: GameView,
    game_seconds: nat,
    status: Seq<char>,
    next: TutorialView,
)
    ensures
        after_complete_hack(g).editor_unlocked != g.editor_unlocked ==> g.tutorial.number == 2
            && hack_completion(g) is Completed && after_complete_hack(g).editor_unlocked,
        after_terminal_command(g).editor_unlocked == g.editor_unlocked,
        after_hack_step(g, game_seconds).editor_unlocked != g.editor_unlocked ==> g.tutorial.number
            == 2 && hack_ends_within(g, game_seconds) && hack_completion(
            after_hack_time(g, game_seconds),
        ) is Completed,
        after_open_terminal(g).editor_unlocked == g.editor_unlocked,
        after_open_editor(g).editor_unlocked == g.editor_unlocked,
        after_start_job(g).editor_unlocked == g.editor_unlocked,
        after_shift_time(g, game_seconds).editor_unlocked == g.editor_unlocked,
        after_finish_tutorial(g).editor_unlocked == g.editor_unlocked,
        after_skip_tutorial(g).editor_unlocked == g.editor_unlocked,
        after_reputation_choice(g, status).editor_unlocked == g.editor_unlocked,
        after_start_next_tutorial(g, next, status).editor_unlocked == g.editor_unlocked,
{
}

/// Opening the terminal after the shift of a hacking level starts a fresh
/// session at home: not connected, no root access or backdoor anywhere,
/// nothing scanned, the input cleared, the two greeting lines only and the
/// home prompt; a running hack is kept.
pub proof fn lemma_opened_terminal_is_at_home(g: GameView)
    requires
        g.has_hacking_intro(),
        g.clock >= g.tutorial.duration_seconds,
    ensures
        after_open_terminal(g).terminal.connected_server is None,
        after_open_terminal(g).terminal.root_server is None,
        after_open_terminal(g).terminal.backdoor_server is None,
        !after_open_terminal(g).terminal.scanned,
        !after_open_terminal(g).terminal.server_scanned,
        after_open_terminal(g).terminal.input.len() == 0,
        after_open_terminal(g).terminal.lines.len() == 2,
        after_open_terminal(g).terminal.lines[0] == "connected to home server: dreamstack"@,
        after_open_terminal(g).terminal.lines[1] == "Run `netscan` to discover nearby servers."@,
        after_open_terminal(g).terminal.prompt() == "home@dreamstack:~$"@,
        after_open_terminal(g).terminal.hack == g.terminal.hack,
        after_open_terminal(g).screen == Screen::Terminal,
{
}

/// Starting the next level takes the whole new level (its number, shift,
/// job and servers) with a fresh clock on its intro screen; whether the
/// run now introduces hacking, and where its shift ends, follow the new
/// level's servers alone.
pub proof fn lemma_next_level_is_taken_whole(g: GameView, tutorial: TutorialView, suffix: Seq<char>)
    ensures
        after_start_next_tutorial(g, tutorial, suffix).tutorial == tutorial,
        after_start_next_tutorial(g, tutorial, suffix).tutorial.servers == tutorial.servers,
        after_start_next_tutorial(g, tutorial, suffix).clock == 0,
        after_start_next_tutorial(g, tutorial, suffix).screen == Screen::Intro,
        after_start_next_tutorial(g, tutorial, suffix).has_hacking_intro() == (tutorial.servers.len()
            > 0),
        after_finish_tutorial(after_start_next_tutorial(g, tutorial, suffix)).screen == (if tutorial.servers.len()
            > 0 {
            Screen::TerminalPrompt
        } else {
            Screen::Complete
        }),
        after_start_next_tutorial(g, tutorial, suffix).terminal == g.terminal,
        after_start_next_tutorial(g, tutorial, suffix).editor_unlocked == g.editor_unlocked,
{
}

/// Ending a hack always removes it. A hack whose host is no longer listed
/// fails: only the log changes. A completed hack adds its reward line; in
/// level 1 it completes the level, in level 2 it unlocks the editor, and in
/// any other level it changes neither the screen nor the editor.
pub proof fn lemma_ending_a_hack(g: GameView)
    requires
        g.terminal.hack is Some,
    ensures
        after_complete_hack(g).terminal.hack is None,
        after_complete_hack(g).clock == g.clock,
        after_complete_hack(g).terminal.connected_server == g.terminal.connected_server,
        hack_completion(g) is LostConnection ==> after_complete_hack(g).save_status == g.save_status
            && after_complete_hack(g).screen == g.screen && after_complete_hack(g).editor_unlocked
            == g.editor_unlocked,
        hack_completion(g) is Completed ==> (after_complete_hack(g).screen == (if g.tutorial.number
            == 1 {
            Screen::Complete
        } else {
            g.screen
        }) && after_complete_hack(g).editor_unlocked == (g.editor_unlocked || g.tutorial.number
            == 2)),
        find_server(g.tutorial.servers, g.terminal.hack->0.hostname) matches Some(i) ==> (
        g.tutorial.servers[i].name == g.terminal.hack->0.hostname && after_complete_hack(
            g,
        ).terminal.lines[g.terminal.lines.len() as int] == "hack complete: gained "@
            + g.tutorial.servers[i].reward_text + " hack exp"@),
{
    crate::terminal::lemma_find_server_found(g.tutorial.servers, g.terminal.hack->0.hostname);
}

/// Working credits no more seconds than asked and no more than what is
/// left of the shift, and the clock moves by exactly the credited seconds.
pub proof fn lemma_work_is_bounded_by_the_shift(g: GameView, game_seconds: nat)
    requires
        g.clock <= g.tutorial.duration_seconds,
    ensures
        after_work(g, game_seconds).1 <= game_seconds,
        g.clock + after_work(g, game_seconds).1 <= g.tutorial.duration_seconds,
        after_shift_time(g, game_seconds).clock == g.clock + after_work(g, game_seconds).1,
        game_seconds <= g.tutorial.duration_seconds - g.clock ==> after_work(g, game_seconds).1
            == game_seconds,
        after_skip_tutorial(g).clock == g.tutorial.duration_seconds,
        after_skip_tutorial(g).screen == after_shift_time(g, g.tutorial.duration_seconds as nat).screen,
{
}

} // verus!
