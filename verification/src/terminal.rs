//! The home server terminal: its session state and the commands a player
//! types into it (`netscan`, `connect <hostname>`, `scan`, `nuke`,
//! `npm i -g backdoor`, `hack`, `home`).

use vstd::prelude::*;
use vstd::string::*;
use crate::text::{decimal, push_decimal, same_text, strip_prefix, trim, trimmed};
use crate::hack::{HackExecution, HackView};
use crate::search::{first_index_of, lemma_first_index_of_absent, lemma_first_index_of_found, lemma_first_index_of_is};

verus! {

/// A server that the terminal can find, with the values the terminal shows
/// of it. The numbers that the game keeps as fractions arrive already
/// written out as the terminal prints them.
pub struct ServerListing {
    pub name: String,
    pub hack_skill_needed: u8,
    /// The minimum security, with one decimal.
    pub security_text: String,
    /// The maximum money, with three decimals.
    pub money_text: String,
    /// The hack experience that a completed hack gives, with three decimals.
    pub reward_text: String,
    /// How long a hack of this server runs, in in-game seconds.
    pub hack_duration_seconds: u64,
}

/// A server listing as plain values.
pub struct ServerView {
    pub name: Seq<char>,
    pub hack_skill_needed: u8,
    pub security_text: Seq<char>,
    pub money_text: Seq<char>,
    pub reward_text: Seq<char>,
    pub hack_duration_seconds: nat,
}

impl View for ServerListing {
    type V = ServerView;

    open spec fn view(&self) -> ServerView {
        ServerView {
            name: self.name@,
            hack_skill_needed: self.hack_skill_needed,
            security_text: self.security_text@,
            money_text: self.money_text@,
            reward_text: self.reward_text@,
            hack_duration_seconds: self.hack_duration_seconds as nat,
        }
    }
}

/// The servers of a listing as plain values.
pub open spec fn servers_view(servers: Seq<ServerListing>) -> Seq<ServerView> {
    servers.map_values(|s: ServerListing| s@)
}

/// The names of the servers, in order.
pub open spec fn server_names(servers: Seq<ServerView>) -> Seq<Seq<char>> {
    servers.map_values(|s: ServerView| s.name)
}

/// The index of the first server named `name`, if any.
pub open spec fn find_server(servers: Seq<ServerView>, name: Seq<char>) -> Option<int> {
    first_index_of(server_names(servers), name)
}

/// What `find_server` finds: an index in range of a server of that name,
/// with no earlier server of that name; or, when it finds none, no server
/// of that name.
pub proof fn lemma_find_server_found(servers: Seq<ServerView>, name: Seq<char>)
    ensures
        find_server(servers, name) matches Some(i) ==> 0 <= i < servers.len() && servers[i].name
            == name && forall|j: int| 0 <= j < i ==> servers[j].name != name,
        find_server(servers, name) is None ==> forall|j: int|
            0 <= j < servers.len() ==> servers[j].name != name,
{
    let names = server_names(servers);
    lemma_first_index_of_found(names, name);
    match find_server(servers, name) {
        Some(i) => {
            assert(names[i] == servers[i].name);
            assert forall|j: int| 0 <= j < i implies servers[j].name != name by {
                assert(names[j] == servers[j].name);
            }
        },
        None => {
            assert forall|j: int| 0 <= j < servers.len() implies servers[j].name != name by {
                assert(names[j] == servers[j].name);
            }
        },
    }
}

/// The index of the first listed server named `name`.
pub fn find_server_index(servers: &Vec<ServerListing>, name: &str) -> (index: Option<usize>)
    ensures
        index matches Some(i) ==> i < servers@.len() && servers@[i as int].name@ == name@
            && find_server(servers_view(servers@), name@) == Some(i as int),
        index is None ==> find_server(servers_view(servers@), name@) is None,
{
    let ghost sv = servers_view(servers@);
    let n = servers.len();
    let mut i: usize = 0;
    while i < n
        invariant
            n == servers@.len(),
            sv == servers_view(servers@),
            i <= n,
            forall|j: int| 0 <= j < i ==> sv[j].name != name@,
        decreases n - i,
    {
        if same_text(servers[i].name.as_str(), name) {
            proof {
                assert forall|j: int| 0 <= j < i implies server_names(sv)[j] != name@ by {
                    assert(server_names(sv)[j] == sv[j].name);
                }
                assert(server_names(sv)[i as int] == sv[i as int].name);
                lemma_first_index_of_is(server_names(sv), name@, i as int);
            }
            return Some(i);
        }
        i = i + 1;
    }
    assert(!(exists|i: int| 0 <= i < sv.len() && sv[i].name == name@));
    proof {
        assert forall|j: int| 0 <= j < n implies server_names(sv)[j] != name@ by {
            assert(server_names(sv)[j] == sv[j].name);
        }
        lemma_first_index_of_absent(server_names(sv), name@);
    }
    None
}

/// A command typed into the terminal.
pub enum TerminalCommand {
    Netscan,
    Connect(String),
    Scan,
    Nuke,
    InstallBackdoor,
    Hack,
    Home,
    Unknown,
}

/// A terminal command as plain values.
pub enum CommandView {
    Netscan,
    Connect(Seq<char>),
    Scan,
    Nuke,
    InstallBackdoor,
    Hack,
    Home,
    Unknown,
}

impl View for TerminalCommand {
    type V = CommandView;

    open spec fn view(&self) -> CommandView {
        match self {
            TerminalCommand::Netscan => CommandView::Netscan,
            TerminalCommand::Connect(h) => CommandView::Connect(h@),
            TerminalCommand::Scan => CommandView::Scan,
            TerminalCommand::Nuke => CommandView::Nuke,
            TerminalCommand::InstallBackdoor => CommandView::InstallBackdoor,
            TerminalCommand::Hack => CommandView::Hack,
            TerminalCommand::Home => CommandView::Home,
            TerminalCommand::Unknown => CommandView::Unknown,
        }
    }
}

/// What a (trimmed, non-empty) command line asks for: the exact words
/// `netscan`, `scan`, `nuke`, `npm i -g backdoor`, `hack` and `home`, or
/// `connect ` followed by a hostname; anything else is unknown.
pub open spec fn command_of(line: Seq<char>) -> CommandView {
    if line == "netscan"@ {
        CommandView::Netscan
    } else if "connect "@.is_prefix_of(line) {
        CommandView::Connect(line.skip("connect "@.len() as int))
    } else if line == "scan"@ {
        CommandView::Scan
    } else if line == "nuke"@ {
        CommandView::Nuke
    } else if line == "npm i -g backdoor"@ {
        CommandView::InstallBackdoor
    } else if line == "hack"@ {
        CommandView::Hack
    } else if line == "home"@ {
        CommandView::Home
    } else {
        CommandView::Unknown
    }
}

/// Reads a command line.
pub fn parse_command(line: &str) -> (command: TerminalCommand)
    ensures
        command@ == command_of(line@),
{
    if same_text(line, "netscan") {
        TerminalCommand::Netscan
    } else if let Some(hostname) = strip_prefix(line, "connect ") {
        TerminalCommand::Connect(String::from_str(hostname))
    } else if same_text(line, "scan") {
        TerminalCommand::Scan
    } else if same_text(line, "nuke") {
        TerminalCommand::Nuke
    } else if same_text(line, "npm i -g backdoor") {
        TerminalCommand::InstallBackdoor
    } else if same_text(line, "hack") {
        TerminalCommand::Hack
    } else if same_text(line, "home") {
        TerminalCommand::Home
    } else {
        TerminalCommand::Unknown
    }
}

/// The state of the terminal session.
pub struct Terminal {
    /// The command line being typed.
    pub input: String,
    /// Everything the terminal has shown, oldest first.
    pub lines: Vec<String>,
    /// Whether `netscan` has found servers.
    pub scanned: bool,
    /// Whether the connected server has been scanned.
    pub server_scanned: bool,
    pub connected_server: Option<String>,
    /// The server on which `nuke` last granted root access.
    pub root_server: Option<String>,
    /// The server on which a backdoor was last installed.
    pub backdoor_server: Option<String>,
    pub hack_execution: Option<HackExecution>,
}

/// The terminal session as plain values.
#[verifier::ext_equal]
pub struct TerminalView {
    pub input: Seq<char>,
    pub lines: Seq<Seq<char>>,
    pub scanned: bool,
    pub server_scanned: bool,
    pub connected_server: Option<Seq<char>>,
    pub root_server: Option<Seq<char>>,
    pub backdoor_server: Option<Seq<char>>,
    pub hack: Option<HackView>,
}

/// The characters of an optional string.
pub open spec fn opt_text(s: Option<String>) -> Option<Seq<char>> {
    match s {
        Some(t) => Some(t@),
        None => None,
    }
}

/// The texts of a list of strings.
pub open spec fn texts(lines: Seq<String>) -> Seq<Seq<char>> {
    lines.map_values(|l: String| l@)
}

impl View for Terminal {
    type V = TerminalView;

    open spec fn view(&self) -> TerminalView {
        TerminalView {
            input: self.input@,
            lines: texts(self.lines@),
            scanned: self.scanned,
            server_scanned: self.server_scanned,
            connected_server: opt_text(self.connected_server),
            root_server: opt_text(self.root_server),
            backdoor_server: opt_text(self.backdoor_server),
            hack: match self.hack_execution {
                Some(h) => Some(h@),
                None => None,
            },
        }
    }
}

impl TerminalView {
    /// The session with one more line shown.
    pub open spec fn with_line(self, line: Seq<char>) -> TerminalView {
        TerminalView { lines: self.lines.push(line), ..self }
    }

    /// A running hack never runs past its duration.
    pub open spec fn well_formed(self) -> bool {
        self.hack matches Some(h) ==> h.well_formed()
    }

    /// The prompt: `home@dreamstack:~$` at home, else `root@HOST:~$` on the
    /// host where root access was granted and `user@HOST:~$` elsewhere.
    pub open spec fn prompt(self) -> Seq<char> {
        match self.connected_server {
            Some(host) => (if self.root_server == Some(host) {
                "root"@
            } else {
                "user"@
            }) + "@"@ + host + ":~$"@,
            None => "home@dreamstack:~$"@,
        }
    }
}

/// The line `netscan` shows for a server.
pub open spec fn netscan_line(server: ServerView) -> Seq<char> {
    server.name + " | skill "@ + decimal(server.hack_skill_needed as nat) + " | security "@
        + server.security_text + " | money "@ + server.money_text
}

/// The lines `netscan` shows for the servers, one each, in order.
pub open spec fn netscan_lines(servers: Seq<ServerView>) -> Seq<Seq<char>> {
    Seq::new(servers.len(), |i: int| netscan_line(servers[i]))
}

/// The terminal after `netscan`: with no servers it says so; else it lists
/// them, hints at `connect`, and counts the network as scanned.
pub open spec fn after_netscan(t: TerminalView, servers: Seq<ServerView>) -> TerminalView {
    if servers.len() == 0 {
        t.with_line("no servers found"@)
    } else {
        TerminalView {
            lines: t.lines + seq!["servers found:"@] + netscan_lines(servers) + seq![
                "Run `connect <hostname>` to connect to a server."@,
            ],
            scanned: true,
            ..t
        }
    }
}

/// The terminal after `connect HOST`: refused before a `netscan` or for an
/// unknown host; else connected to the host, not yet scanned.
pub open spec fn after_connect(t: TerminalView, servers: Seq<ServerView>, host: Seq<char>) -> TerminalView {
    if !t.scanned {
        t.with_line("run `netscan` before connecting"@)
    } else {
        match find_server(servers, host) {
            None => t.with_line("connect failed: unknown host "@ + host),
            Some(i) => TerminalView {
                connected_server: Some(servers[i].name),
                server_scanned: false,
                ..t
            }.with_line("connected to "@ + servers[i].name).with_line(
                "Run `scan` to inspect the connected server."@,
            ),
        }
    }
}

/// The terminal after `scan`: refused at home; fails when the connected
/// host is no longer listed; else shows the server's report and counts it
/// as scanned.
pub open spec fn after_scan(t: TerminalView, servers: Seq<ServerView>) -> TerminalView {
    match t.connected_server {
        None => t.with_line("connect to a server before scanning"@),
        Some(host) => match find_server(servers, host) {
            None => t.with_line("scan failed: lost connection to "@ + host),
            Some(i) => TerminalView {
                lines: t.lines + seq![
                    "scan report: "@ + servers[i].name,
                    "required hack skill: "@ + decimal(servers[i].hack_skill_needed as nat),
                    "minimum security: "@ + servers[i].security_text,
                    "maximum money: "@ + servers[i].money_text,
                    "Run `nuke`; if successful, it will give you root access to the server."@,
                ],
                server_scanned: true,
                ..t
            },
        },
    }
}

/// The terminal after `nuke`: refused at home; else root access on the
/// connected host.
pub open spec fn after_nuke(t: TerminalView) -> TerminalView {
    match t.connected_server {
        None => t.with_line("connect to a server before running nuke"@),
        Some(host) => TerminalView { root_server: Some(host), ..t }.with_line(
            "nuke successful: root access granted on "@ + host,
        ).with_line("Run `npm i -g backdoor` to install a backdoor."@),
    }
}

/// The terminal after `npm i -g backdoor`: refused at home and without root
/// access on the connected host; else a backdoor on it.
pub open spec fn after_install_backdoor(t: TerminalView) -> TerminalView {
    match t.connected_server {
        None => t.with_line("connect to a server before installing a backdoor"@),
        Some(host) => if t.root_server != Some(host) {
            t.with_line("root access required before installing a backdoor"@)
        } else {
            TerminalView { backdoor_server: Some(host), ..t }.with_line(
                "backdoor installed on "@ + host,
            ).with_line("Run `hack` to drain the server."@)
        },
    }
}

/// The terminal after `hack`: refused at home and without a backdoor on the
/// connected host; fails when the host is no longer listed; else a hack of
/// the host starts, to run for the server's hack duration.
pub open spec fn after_hack(t: TerminalView, servers: Seq<ServerView>) -> TerminalView {
    match t.connected_server {
        None => t.with_line("connect to a server before hacking"@),
        Some(host) => if t.backdoor_server != Some(host) {
            t.with_line("install a backdoor before hacking"@)
        } else {
            match find_server(servers, host) {
                None => t.with_line("hack failed: lost connection to "@ + host),
                Some(i) => TerminalView {
                    hack: Some(
                        HackView {
                            hostname: host,
                            elapsed_seconds: 0,
                            duration_seconds: servers[i].hack_duration_seconds,
                        },
                    ),
                    ..t
                }.with_line(
                    "hack started: execution time "@ + decimal(
                        servers[i].hack_duration_seconds / 3600,
                    ) + " in-game hours"@,
                ),
            }
        },
    }
}

/// The terminal after `home`: already home, or disconnected and back home.
pub open spec fn after_home(t: TerminalView) -> TerminalView {
    match t.connected_server {
        None => t.with_line("already connected to home server"@),
        Some(host) => TerminalView { connected_server: None, server_scanned: false, ..t }.with_line(
            "disconnected from "@ + host + "; returned home"@,
        ),
    }
}

/// The terminal after a command line `line` that asks for `command`.
pub open spec fn after_command(
    t: TerminalView,
    servers: Seq<ServerView>,
    line: Seq<char>,
    command: CommandView,
) -> TerminalView {
    match command {
        CommandView::Netscan => after_netscan(t, servers),
        CommandView::Connect(host) => after_connect(t, servers, host),
        CommandView::Scan => after_scan(t, servers),
        CommandView::Nuke => after_nuke(t),
        CommandView::InstallBackdoor => after_install_backdoor(t),
        CommandView::Hack => after_hack(t, servers),
        CommandView::Home => after_home(t),
        CommandView::Unknown => t.with_line("unknown command: "@ + line),
    }
}

/// The terminal after the typed command line is entered. An empty line (after
/// trimming white space) does nothing. While a hack runs, every command is
/// blocked. Otherwise the line is echoed after the prompt, the input is
/// cleared and the command runs.
pub open spec fn after_entry(t: TerminalView, servers: Seq<ServerView>) -> TerminalView {
    let line = trimmed(t.input);
    if line.len() == 0 {
        t
    } else if t.hack is Some {
        TerminalView { input: seq![], ..t }.with_line("command blocked: hack already running"@)
    } else {
        let echoed = TerminalView { input: seq![], ..t }.with_line(t.prompt() + " "@ + line);
        after_command(echoed, servers, line, command_of(line))
    }
}

/// The smaller of two numbers.
pub open spec fn min_nat(a: nat, b: nat) -> nat {
    if a <= b { a } else { b }
}

/// The terminal after up to `game_seconds` of in-game time pass during a
/// hack, and how many of them the hack ran: a hack runs no further than
/// its duration; with no hack, nothing runs.
pub open spec fn after_hack_progress(t: TerminalView, game_seconds: nat) -> (TerminalView, nat) {
    match t.hack {
        None => (t, 0),
        Some(h) => {
            let ran = min_nat(game_seconds, (h.duration_seconds - h.elapsed_seconds) as nat);
            (
                TerminalView {
                    hack: Some(HackView { elapsed_seconds: h.elapsed_seconds + ran, ..h }),
                    ..t
                },
                ran,
            )
        },
    }
}

/// What entering a command line led to.
pub enum EntryOutcome {
    /// The line was empty: nothing happened.
    Ignored,
    /// The command ran (or was refused with a message).
    Ran,
    /// The command started a hack.
    HackStarted,
}

/// What entering the command line of `t` leads to.
pub open spec fn entry_outcome(t: TerminalView, servers: Seq<ServerView>) -> EntryOutcome {
    if trimmed(t.input).len() == 0 {
        EntryOutcome::Ignored
    } else if t.hack is None && after_entry(t, servers).hack is Some {
        EntryOutcome::HackStarted
    } else {
        EntryOutcome::Ran
    }
}

impl Terminal {
    /// An empty terminal session: no lines, nothing scanned or connected.
    pub fn new() -> (t: Terminal)
        ensures
            t@ == (TerminalView {
                input: seq![],
                lines: seq![],
                scanned: false,
                server_scanned: false,
                connected_server: None,
                root_server: None,
                backdoor_server: None,
                hack: None,
            }),
    {
        let t = Terminal {
            input: String::new(),
            lines: Vec::new(),
            scanned: false,
            server_scanned: false,
            connected_server: None,
            root_server: None,
            backdoor_server: None,
            hack_execution: None,
        };
        assert(texts(t.lines@) =~= seq![]);
        t
    }

    /// Shows one more line.
    pub fn push_line(&mut self, line: String)
        ensures
            final(self)@ == old(self)@.with_line(line@),
    {
        self.lines.push(line);
        assert(texts(self.lines@) =~= texts(old(self).lines@).push(line@));
    }

    /// Shows one more line.
    pub fn push_text(&mut self, line: &str)
        ensures
            final(self)@ == old(self)@.with_line(line@),
    {
        self.push_line(String::from_str(line));
    }

    /// Shows one more line, made of two parts.
    pub fn push_joined(&mut self, head: &str, tail: &str)
        ensures
            final(self)@ == old(self)@.with_line(head@ + tail@),
    {
        let mut line = String::from_str(head);
        line.append(tail);
        self.push_line(line);
    }

    /// The prompt shown before the command line.
    pub fn terminal_prompt(&self) -> (prompt: String)
        ensures
            prompt@ == self@.prompt(),
    {
        match &self.connected_server {
            Some(host) => {
                let is_root = match &self.root_server {
                    Some(root) => same_text(root.as_str(), host.as_str()),
                    None => false,
                };
                let mut prompt = if is_root {
                    String::from_str("root")
                } else {
                    String::from_str("user")
                };
                prompt.append("@");
                prompt.append(host.as_str());
                prompt.append(":~$");
                prompt
            },
            None => String::from_str("home@dreamstack:~$"),
        }
    }

    /// The line `netscan` shows for a server.
    fn netscan_line_text(server: &ServerListing) -> (line: String)
        ensures
            line@ == netscan_line(server@),
    {
        let mut line = server.name.clone();
        line.append(" | skill ");
        push_decimal(&mut line, server.hack_skill_needed as u64);
        line.append(" | security ");
        line.append(server.security_text.as_str());
        line.append(" | money ");
        line.append(server.money_text.as_str());
        line
    }

    /// `netscan`: lists the servers within reach.
    pub fn run_netscan(&mut self, servers: &Vec<ServerListing>)
        ensures
            final(self)@ == after_netscan(old(self)@, servers_view(servers@)),
    {
        let ghost sv = servers_view(servers@);
        if servers.len() == 0 {
            self.push_text("no servers found");
            return;
        }
        let ghost start = self@;
        self.push_text("servers found:");
        let n = servers.len();
        let mut i: usize = 0;
        while i < n
            invariant
                n == servers@.len(),
                sv == servers_view(servers@),
                i <= n,
                self@ == (TerminalView {
                    lines: start.lines + seq!["servers found:"@] + netscan_lines(sv).take(i as int),
                    ..start
                }),
            decreases n - i,
        {
            let line = Self::netscan_line_text(&servers[i]);
            self.push_line(line);
            assert(netscan_lines(sv).take(i + 1) =~= netscan_lines(sv).take(i as int).push(
                netscan_line(sv[i as int]),
            ));
            i = i + 1;
        }
        assert(netscan_lines(sv).take(n as int) =~= netscan_lines(sv));
        self.push_text("Run `connect <hostname>` to connect to a server.");
        self.scanned = true;
    }

    /// `connect HOST`: connects to a listed server after a `netscan`.
    pub fn connect_server(&mut self, servers: &Vec<ServerListing>, hostname: &str)
        ensures
            final(self)@ == after_connect(old(self)@, servers_view(servers@), hostname@),
    {
        if !self.scanned {
            self.push_text("run `netscan` before connecting");
            return;
        }
        match find_server_index(servers, hostname) {
            None => {
                self.push_joined("connect failed: unknown host ", hostname);
            },
            Some(i) => {
                let name = servers[i].name.clone();
                self.connected_server = Some(name.clone());
                self.server_scanned = false;
                self.push_joined("connected to ", name.as_str());
                self.push_text("Run `scan` to inspect the connected server.");
            },
        }
    }

    /// `scan`: reports on the connected server.
    pub fn scan_connected_server(&mut self, servers: &Vec<ServerListing>)
        ensures
            final(self)@ == after_scan(old(self)@, servers_view(servers@)),
    {
        let host = match &self.connected_server {
            Some(h) => h.clone(),
            None => {
                self.push_text("connect to a server before scanning");
                return;
            },
        };
        match find_server_index(servers, host.as_str()) {
            None => {
                self.push_joined("scan failed: lost connection to ", host.as_str());
            },
            Some(i) => {
                let ghost start = self@;
                let server = &servers[i];
                self.push_joined("scan report: ", server.name.as_str());
                let mut skill = String::from_str("required hack skill: ");
                push_decimal(&mut skill, server.hack_skill_needed as u64);
                self.push_line(skill);
                self.push_joined("minimum security: ", server.security_text.as_str());
                self.push_joined("maximum money: ", server.money_text.as_str());
                self.push_text(
                    "Run `nuke`; if successful, it will give you root access to the server.",
                );
                self.server_scanned = true;
                let ghost sv = servers_view(servers@);
                assert(sv[i as int] == servers@[i as int]@);
                assert(self@.lines =~= start.lines + seq![
                    "scan report: "@ + sv[i as int].name,
                    "required hack skill: "@ + decimal(sv[i as int].hack_skill_needed as nat),
                    "minimum security: "@ + sv[i as int].security_text,
                    "maximum money: "@ + sv[i as int].money_text,
                    "Run `nuke`; if successful, it will give you root access to the server."@,
                ]);
            },
        }
    }

    /// `nuke`: gains root access on the connected server.
    pub fn nuke_connected_server(&mut self)
        ensures
            final(self)@ == after_nuke(old(self)@),
    {
        let host = match &self.connected_server {
            Some(h) => h.clone(),
            None => {
                self.push_text("connect to a server before running nuke");
                return;
            },
        };
        self.root_server = Some(host.clone());
        self.push_joined("nuke successful: root access granted on ", host.as_str());
        self.push_text("Run `npm i -g backdoor` to install a backdoor.");
    }

    /// `npm i -g backdoor`: installs a backdoor where root access was granted.
    pub fn install_backdoor(&mut self)
        ensures
            final(self)@ == after_install_backdoor(old(self)@),
    {
        let host = match &self.connected_server {
            Some(h) => h.clone(),
            None => {
                self.push_text("connect to a server before installing a backdoor");
                return;
            },
        };
        let rooted = match &self.root_server {
            Some(root) => same_text(root.as_str(), host.as_str()),
            None => false,
        };
        if !rooted {
            self.push_text("root access required before installing a backdoor");
            return;
        }
        self.backdoor_server = Some(host.clone());
        self.push_joined("backdoor installed on ", host.as_str());
        self.push_text("Run `hack` to drain the server.");
    }

    /// `hack`: starts draining the connected server through its backdoor.
    /// Returns whether a hack started.
    pub fn hack_connected_server(&mut self, servers: &Vec<ServerListing>) -> (started: bool)
        ensures
            final(self)@ == after_hack(old(self)@, servers_view(servers@)),
            started == (old(self)@.connected_server is Some
                && old(self)@.backdoor_server == old(self)@.connected_server
                && find_server(servers_view(servers@), old(self)@.connected_server->0) is Some),
    {
        let host = match &self.connected_server {
            Some(h) => h.clone(),
            None => {
                self.push_text("connect to a server before hacking");
                return false;
            },
        };
        let has_backdoor = match &self.backdoor_server {
            Some(b) => same_text(b.as_str(), host.as_str()),
            None => false,
        };
        if !has_backdoor {
            self.push_text("install a backdoor before hacking");
            return false;
        }
        match find_server_index(servers, host.as_str()) {
            None => {
                self.push_joined("hack failed: lost connection to ", host.as_str());
                false
            },
            Some(i) => {
                let duration = servers[i].hack_duration_seconds;
                self.hack_execution = Some(
                    HackExecution {
                        hostname: host.clone(),
                        elapsed_seconds: 0,
                        duration_seconds: duration,
                    },
                );
                let mut line = String::from_str("hack started: execution time ");
                push_decimal(&mut line, duration / 3_600);
                line.append(" in-game hours");
                self.push_line(line);
                true
            },
        }
    }

    /// `home`: disconnects from the connected server.
    pub fn return_home(&mut self)
        ensures
            final(self)@ == after_home(old(self)@),
    {
        let host = match &self.connected_server {
            Some(h) => h.clone(),
            None => {
                self.push_text("already connected to home server");
                return;
            },
        };
        self.connected_server = None;
        let mut line = String::from_str("disconnected from ");
        line.append(host.as_str());
        line.append("; returned home");
        self.push_line(line);
        self.server_scanned = false;
    }

    /// Enters the typed command line: see `after_entry`.
    pub fn enter_command(&mut self, servers: &Vec<ServerListing>) -> (outcome: EntryOutcome)
        ensures
            final(self)@ == after_entry(old(self)@, servers_view(servers@)),
            outcome == entry_outcome(old(self)@, servers_view(servers@)),
    {
        let line = String::from_str(trim(self.input.as_str()));
        if line.unicode_len() == 0 {
            return EntryOutcome::Ignored;
        }
        if self.hack_execution.is_some() {
            self.push_text("command blocked: hack already running");
            self.input = String::new();
            return EntryOutcome::Ran;
        }
        let mut echo = self.terminal_prompt();
        echo.append(" ");
        echo.append(line.as_str());
        self.input = String::new();
        self.push_line(echo);
        match parse_command(line.as_str()) {
            TerminalCommand::Netscan => self.run_netscan(servers),
            TerminalCommand::Connect(host) => self.connect_server(servers, host.as_str()),
            TerminalCommand::Scan => self.scan_connected_server(servers),
            TerminalCommand::Nuke => self.nuke_connected_server(),
            TerminalCommand::InstallBackdoor => self.install_backdoor(),
            TerminalCommand::Hack => {
                if self.hack_connected_server(servers) {
                    return EntryOutcome::HackStarted;
                }
            },
            TerminalCommand::Home => self.return_home(),
            TerminalCommand::Unknown => self.push_joined("unknown command: ", line.as_str()),
        }
        EntryOutcome::Ran
    }

    /// Lets up to `game_seconds` pass for the running hack; returns how many
    /// seconds it ran.
    pub fn advance_hack(&mut self, game_seconds: u64) -> (ran: u64)
        requires
            old(self)@.well_formed(),
        ensures
            final(self)@ == after_hack_progress(old(self)@, game_seconds as nat).0,
            ran == after_hack_progress(old(self)@, game_seconds as nat).1,
            final(self)@.well_formed(),
    {
        match &mut self.hack_execution {
            None => 0,
            Some(hack) => {
                let remaining = hack.duration_seconds - hack.elapsed_seconds;
                let ran = if game_seconds < remaining {
                    game_seconds
                } else {
                    remaining
                };
                hack.elapsed_seconds = hack.elapsed_seconds + ran;
                ran
            },
        }
    }
}


/// Only the command line, and the command, decide what an entry does to
/// the rest: whatever runs, the lines shown before stay as they were, in
/// order, and every non-empty line adds at least one line.
pub proof fn lemma_entry_extends_log(t: TerminalView, servers: Seq<ServerView>)
    ensures
        t.lines.is_prefix_of(after_entry(t, servers).lines),
        trimmed(t.input).len() > 0 ==> after_entry(t, servers).lines.len() > t.lines.len(),
{
    let line = trimmed(t.input);
    let r = after_entry(t, servers);
    if line.len() > 0 {
        if t.hack is None {
            let e = TerminalView { input: seq![], ..t }.with_line(t.prompt() + " "@ + line);
            lemma_command_extends_log(e, servers, line, command_of(line));
            assert(t.lines.is_prefix_of(e.lines));
            assert(r.lines.len() >= e.lines.len());
            assert forall|i: int| 0 <= i < t.lines.len() implies r.lines[i] == t.lines[i] by {
                assert(r.lines[i] == e.lines[i]);
            }
        }
    }
}

proof fn lemma_command_extends_log(
    t: TerminalView,
    servers: Seq<ServerView>,
    line: Seq<char>,
    command: CommandView,
)
    ensures
        t.lines.is_prefix_of(after_command(t, servers, line, command).lines),
{
    let r = after_command(t, servers, line, command);
    assert(t.lines.is_prefix_of(r.lines)) by {
        match command {
            CommandView::Netscan => {
                if servers.len() > 0 {
                    assert(r.lines =~= t.lines + (seq!["servers found:"@] + netscan_lines(servers)
                        + seq!["Run `connect <hostname>` to connect to a server."@]));
                }
            },
            CommandView::Scan => {
                if t.connected_server is Some {
                    if find_server(servers, t.connected_server->0) is Some {
                        let i = find_server(servers, t.connected_server->0)->0;
                        assert(r.lines =~= t.lines + seq![
                            "scan report: "@ + servers[i].name,
                            "required hack skill: "@ + decimal(servers[i].hack_skill_needed as nat),
                            "minimum security: "@ + servers[i].security_text,
                            "maximum money: "@ + servers[i].money_text,
                            "Run `nuke`; if successful, it will give you root access to the server."@,
                        ]);
                    }
                }
            },
            _ => {},
        }
    }
}

/// No command makes a running hack run past its duration: a hack that
/// starts has run for no time yet, and others are left as they are.
pub proof fn lemma_entry_keeps_hack_well_formed(t: TerminalView, servers: Seq<ServerView>)
    requires
        t.well_formed(),
    ensures
        after_entry(t, servers).well_formed(),
{
}

/// A hack starts only on the connected host, only where a backdoor was
/// installed, only through the `hack` command, and only when no hack runs;
/// it starts from zero elapsed seconds.
pub proof fn lemma_hack_starts_only_through_backdoor(t: TerminalView, servers: Seq<ServerView>)
    requires
        after_entry(t, servers).hack is Some,
        after_entry(t, servers).hack != t.hack,
    ensures
        t.hack is None,
        command_of(trimmed(t.input)) == CommandView::Hack,
        t.connected_server is Some,
        t.backdoor_server == t.connected_server,
        after_entry(t, servers).hack->0.hostname == t.connected_server->0,
        after_entry(t, servers).hack->0.elapsed_seconds == 0,
{
}

/// While a hack runs, every non-empty command line is refused: the input is
/// cleared, one line says so, and nothing else changes.
pub proof fn lemma_running_hack_blocks_commands(t: TerminalView, servers: Seq<ServerView>)
    requires
        t.hack is Some,
        trimmed(t.input).len() > 0,
    ensures
        after_entry(t, servers) == (TerminalView {
            input: seq![],
            lines: t.lines.push("command blocked: hack already running"@),
            ..t
        }),
{
}

/// `nuke` on a connected host grants root access on that host, whether or
/// not the host was scanned: the root server becomes the connected host,
/// the two lines announce it, the prompt turns to `root@HOST:~$`, nothing
/// else changes, and a backdoor can then be installed there.
pub proof fn lemma_nuke_grants_root_on_connected_host(t: TerminalView)
    requires
        t.connected_server is Some,
    ensures
        after_nuke(t).root_server == t.connected_server,
        after_nuke(t).lines == t.lines + seq![
            "nuke successful: root access granted on "@ + t.connected_server->0,
            "Run `npm i -g backdoor` to install a backdoor."@,
        ],
        after_nuke(t).prompt() == "root@"@ + t.connected_server->0 + ":~$"@,
        after_nuke(t).connected_server == t.connected_server,
        after_nuke(t).backdoor_server == t.backdoor_server,
        after_nuke(t).scanned == t.scanned,
        after_nuke(t).server_scanned == t.server_scanned,
        after_nuke(t).hack == t.hack,
        after_nuke(t).input == t.input,
        after_install_backdoor(after_nuke(t)).backdoor_server == t.connected_server,
{
    reveal_strlit("root@");
    reveal_strlit("root");
    reveal_strlit("@");
    assert(after_nuke(t).prompt() =~= "root@"@ + t.connected_server->0 + ":~$"@);
    assert(after_nuke(t).lines =~= t.lines + seq![
        "nuke successful: root access granted on "@ + t.connected_server->0,
        "Run `npm i -g backdoor` to install a backdoor."@,
    ]);
}

/// Entering `nuke` while connected and with no hack running grants root
/// access on the connected host, whether or not it was scanned.
pub proof fn lemma_entering_nuke_grants_root(t: TerminalView, servers: Seq<ServerView>)
    requires
        trimmed(t.input) == "nuke"@,
        t.hack is None,
        t.connected_server is Some,
    ensures
        after_entry(t, servers).root_server == t.connected_server,
        after_entry(t, servers).prompt() == "root@"@ + t.connected_server->0 + ":~$"@,
        after_entry(t, servers).input == Seq::<char>::empty(),
{
    lemma_nuke_is_nuke();
    let line = trimmed(t.input);
    assert(line.len() > 0) by {
        reveal_strlit("nuke");
    }
    let e = TerminalView { input: seq![], ..t }.with_line(t.prompt() + " "@ + line);
    assert(after_entry(t, servers) == after_nuke(e));
    lemma_nuke_grants_root_on_connected_host(e);
}

proof fn lemma_nuke_is_nuke()
    ensures
        command_of("nuke"@) == CommandView::Nuke,
{
    reveal_strlit("nuke");
    reveal_strlit("netscan");
    reveal_strlit("connect ");
    reveal_strlit("scan");
    assert("nuke"@ != "netscan"@) by {
        assert("nuke"@.len() != "netscan"@.len());
    }
    assert(!"connect "@.is_prefix_of("nuke"@)) by {
        assert("connect "@.len() > "nuke"@.len());
    }
    assert("nuke"@ != "scan"@) by {
        assert("nuke"@[0] != "scan"@[0]);
    }
}

/// `connect HOST` connects only after a `netscan`, and only to a listed
/// server: it then connects to exactly the server named HOST, which is not
/// yet scanned, and keeps root access, backdoor and any hack as they were.
/// A refused `connect` changes nothing but the log.
pub proof fn lemma_connect_reaches_the_named_server(
    t: TerminalView,
    servers: Seq<ServerView>,
    host: Seq<char>,
)
    ensures
        ({
            let r = after_connect(t, servers, host);
            let listed = exists|i: int| 0 <= i < servers.len() && servers[i].name == host;
            &&& (t.scanned && listed) ==> r.connected_server == Some(host) && !r.server_scanned
            &&& !(t.scanned && listed) ==> r.connected_server == t.connected_server
                && r.server_scanned == t.server_scanned
            &&& r.root_server == t.root_server
            &&& r.backdoor_server == t.backdoor_server
            &&& r.hack == t.hack
            &&& r.scanned == t.scanned
            &&& r.input == t.input
        }),
{
    lemma_find_server_found(servers, host);
}

/// `home` leaves the connected server: at home, not scanned, with root
/// access and backdoors kept where they were; at home already, only the
/// log changes.
pub proof fn lemma_home_keeps_access(t: TerminalView)
    ensures
        after_home(t).connected_server is None,
        t.connected_server is Some ==> !after_home(t).server_scanned,
        t.connected_server is None ==> after_home(t).server_scanned == t.server_scanned,
        after_home(t).root_server == t.root_server,
        after_home(t).backdoor_server == t.backdoor_server,
        after_home(t).hack == t.hack,
        after_home(t).scanned == t.scanned,
        after_home(t).lines.len() == t.lines.len() + 1,
        after_home(t).prompt() == "home@dreamstack:~$"@,
{
}

/// `npm i -g backdoor` installs a backdoor exactly where root access was
/// granted on the connected host; elsewhere it changes only the log. It
/// never changes root access or the connection.
pub proof fn lemma_backdoor_needs_root_here(t: TerminalView)
    ensures
        (t.connected_server is Some && t.root_server == t.connected_server) ==> after_install_backdoor(
            t,
        ).backdoor_server == t.connected_server,
        !(t.connected_server is Some && t.root_server == t.connected_server) ==> after_install_backdoor(
            t,
        ).backdoor_server == t.backdoor_server,
        after_install_backdoor(t).root_server == t.root_server,
        after_install_backdoor(t).connected_server == t.connected_server,
        after_install_backdoor(t).hack == t.hack,
{
}

/// A hack that starts runs against the connected host for the hack
/// duration of that host's listed server, from zero elapsed seconds.
pub proof fn lemma_hack_runs_for_the_server_duration(t: TerminalView, servers: Seq<ServerView>)
    requires
        t.hack is None,
        after_hack(t, servers).hack is Some,
    ensures
        ({
            let h = after_hack(t, servers).hack->0;
            let host = t.connected_server->0;
            &&& t.connected_server is Some
            &&& t.backdoor_server == t.connected_server
            &&& h.hostname == host
            &&& h.elapsed_seconds == 0
            &&& exists|i: int|
                0 <= i < servers.len() && servers[i].name == host && h.duration_seconds
                    == servers[i].hack_duration_seconds
        }),
{
    let host = t.connected_server->0;
    lemma_find_server_found(servers, host);
    let i = find_server(servers, host)->0;
    assert(0 <= i < servers.len() && servers[i].name == host);
}

/// Entering a non-empty line while no hack runs first echoes it after the
/// prompt (trimmed) and clears the input; an empty line changes nothing.
pub proof fn lemma_entry_echoes_the_line(t: TerminalView, servers: Seq<ServerView>)
    ensures
        trimmed(t.input).len() == 0 ==> after_entry(t, servers) == t,
        (trimmed(t.input).len() > 0 && t.hack is None) ==> after_entry(t, servers).lines[t.lines.len() as int]
            == t.prompt() + " "@ + trimmed(t.input) && after_entry(t, servers).input.len() == 0,
{
    let line = trimmed(t.input);
    if line.len() > 0 && t.hack is None {
        let e = TerminalView { input: seq![], ..t }.with_line(t.prompt() + " "@ + line);
        lemma_command_extends_log(e, servers, line, command_of(line));
        assert(after_entry(t, servers).lines[t.lines.len() as int] == e.lines[t.lines.len() as int]);
        assert(after_command(e, servers, line, command_of(line)).input == e.input);
    }
}

/// Any line made of `connect ` and a hostname asks to connect to exactly
/// that hostname, whatever it is (empty, with spaces, anything).
pub proof fn lemma_connect_takes_the_rest_as_host(host: Seq<char>)
    ensures
        command_of("connect "@ + host) == CommandView::Connect(host),
{
    reveal_strlit("connect ");
    reveal_strlit("netscan");
    let line = "connect "@ + host;
    assert(line != "netscan"@) by {
        if host.len() == 0 {
            assert(line.len() != "netscan"@.len());
        } else {
            assert(line.len() > "netscan"@.len());
        }
    }
    assert("connect "@.is_prefix_of(line)) by {
        assert(line.subrange(0, 8) =~= "connect "@);
    }
    assert(line.skip(8) =~= host);
}

} // verus!
