use dreamstack::game::{GameState, HackCompletion, Screen, TutorialInfo};
use dreamstack::terminal::{parse_command, ServerListing, Terminal, TerminalCommand};

fn server0() -> ServerListing {
    ServerListing {
        name: "server0".to_string(),
        hack_skill_needed: 1,
        security_text: "1.0".to_string(),
        money_text: "100000.000".to_string(),
        reward_text: "25.000".to_string(),
        hack_duration_seconds: 7_200,
    }
}

fn tutorial_1() -> TutorialInfo {
    TutorialInfo {
        number: 1,
        duration_seconds: 28_800,
        employer_name: "employer0".to_string(),
        job_name: "employee".to_string(),
        servers: vec![server0()],
    }
}

fn app_ready_to_hack() -> GameState {
    let mut app = GameState::new(tutorial_1());
    app.screen = Screen::Terminal;
    app.terminal.scanned = true;
    app.terminal.server_scanned = true;
    app.terminal.connected_server = Some("server0".to_string());
    app.terminal.root_server = Some("server0".to_string());
    app.terminal.backdoor_server = Some("server0".to_string());
    app.clock.advance_by(app.tutorial.duration_seconds);
    app
}

fn enter(app: &mut GameState, command: &str) -> bool {
    app.terminal.input = command.to_string();
    app.run_terminal_command()
}

fn shift_over_in_tutorial_1() -> GameState {
    let mut app = GameState::new(tutorial_1());
    app.start_job();
    app.skip_tutorial();
    app.open_terminal();
    app
}

#[test]
fn successful_hack_starts_execution_without_completing_immediately() {
    let mut app = app_ready_to_hack();

    assert!(enter(&mut app, "hack"));

    assert_eq!(app.clock.elapsed_seconds(), 28_800);
    assert!(!app.hack_complete());
    assert_eq!(app.terminal.hack_execution.as_ref().unwrap().duration_seconds, 7_200);
    assert_eq!(app.terminal.hack_execution.as_ref().unwrap().elapsed_seconds, 0);
    assert_eq!(app.save_status, "Hacking server0...");
    assert_eq!(
        app.terminal.lines.last().unwrap(),
        "hack started: execution time 2 in-game hours"
    );
}

#[test]
fn successful_hack_completes_after_execution_time_passes() {
    let mut app = app_ready_to_hack();
    enter(&mut app, "hack");

    let (ran, completion, autosave) = app.advance_hack_execution(7_200);

    assert_eq!(ran, 7_200);
    assert_eq!(app.clock.elapsed_seconds(), 36_000);
    match completion {
        Some(HackCompletion::Completed { server_index }) => {
            assert_eq!(app.tutorial.servers[server_index].reward_text, "25.000")
        }
        _ => panic!("the hack should complete"),
    }
    assert!(autosave);
    assert!(app.terminal.hack_execution.is_none());
    assert_eq!(app.screen, Screen::Complete);
}

#[test]
fn skip_hack_completes_active_hack() {
    let mut app = app_ready_to_hack();
    enter(&mut app, "hack");

    let (completion, autosave) = app.skip_hack_execution();

    assert_eq!(app.clock.elapsed_seconds(), 36_000);
    assert!(matches!(completion, Some(HackCompletion::Completed { server_index: 0 })));
    assert!(autosave);
    assert!(app.terminal.hack_execution.is_none());
}

#[test]
fn hack_time_is_spread_over_frames_and_capped() {
    let mut app = app_ready_to_hack();
    enter(&mut app, "hack");
    let (ran, completion, autosave) = app.advance_hack_execution(3_600);
    assert_eq!(ran, 3_600);
    assert!(completion.is_none());
    assert!(!autosave);
    assert!(!app.hack_complete());
    assert_eq!(
        app.terminal.hack_execution.as_ref().unwrap().elapsed_seconds,
        3_600
    );
    let (ran, completion, autosave) = app.advance_hack_execution(10_000);
    assert_eq!(ran, 3_600);
    assert!(matches!(completion, Some(HackCompletion::Completed { server_index: 0 })));
    assert!(autosave);
    assert!(app.terminal.hack_execution.is_none());
    assert_eq!(app.clock.elapsed_seconds(), 36_000);
    let (ran, completion, autosave) = app.advance_hack_execution(100);
    assert_eq!(ran, 0);
    assert!(completion.is_none());
    assert!(!autosave);
    assert_eq!(app.clock.elapsed_seconds(), 36_000);
}

#[test]
fn waiting_out_a_hack_equals_skipping_it() {
    let mut waited = app_ready_to_hack();
    enter(&mut waited, "hack");
    waited.advance_hack_execution(9_999);

    let mut skipped = app_ready_to_hack();
    enter(&mut skipped, "hack");
    skipped.skip_hack_execution();

    assert_eq!(waited.clock.elapsed_seconds(), skipped.clock.elapsed_seconds());
    assert_eq!(waited.terminal.lines, skipped.terminal.lines);
    assert_eq!(waited.save_status, skipped.save_status);
    assert_eq!(waited.screen, skipped.screen);
}

#[test]
fn completing_the_tutorial_1_hack_completes_the_level() {
    let mut app = app_ready_to_hack();
    enter(&mut app, "hack");
    app.skip_hack_execution();
    assert_eq!(app.screen, Screen::Complete);
    assert_eq!(app.save_status, "Hacked server0 and completed tutorial 1.");
    assert_eq!(app.terminal.lines.last().unwrap(), "hack complete: gained 25.000 hack exp");
    assert!(!app.editor_unlocked);
}

#[test]
fn completing_a_tutorial_2_hack_unlocks_the_editor() {
    let mut app = app_ready_to_hack();
    app.tutorial.number = 2;
    enter(&mut app, "hack");
    app.skip_hack_execution();
    assert!(app.editor_unlocked);
    assert_eq!(app.screen, Screen::Terminal);
    assert_eq!(app.save_status, "Hacked server0 and gained 25.000 hack exp.");
    let n = app.terminal.lines.len();
    assert_eq!(app.terminal.lines[n - 2], "hack complete: gained 25.000 hack exp");
    assert_eq!(
        app.terminal.lines[n - 1],
        "editor unlocked; open Hacking > Editor in the sidebar"
    );
    app.open_editor();
    assert_eq!(app.screen, Screen::Editor);
    assert_eq!(app.save_status, "Editor opened.");
}

#[test]
fn hack_of_a_vanished_host_fails() {
    let mut app = app_ready_to_hack();
    enter(&mut app, "hack");
    app.tutorial.servers.clear();
    let (completion, autosave) = app.skip_hack_execution();
    assert!(matches!(completion, Some(HackCompletion::LostConnection)));
    assert!(!autosave);
    assert_eq!(app.terminal.lines.last().unwrap(), "hack failed: lost connection to server0");
    assert!(app.terminal.hack_execution.is_none());
}

#[test]
fn skip_without_a_hack_does_nothing() {
    let mut app = app_ready_to_hack();
    assert!(matches!(app.skip_hack_execution(), (None, false)));
    assert_eq!(app.clock.elapsed_seconds(), 28_800);
}

#[test]
fn full_hacking_walkthrough() {
    let mut app = shift_over_in_tutorial_1();
    assert_eq!(app.screen, Screen::Terminal);
    assert_eq!(
        app.terminal.lines,
        vec![
            "connected to home server: dreamstack".to_string(),
            "Run `netscan` to discover nearby servers.".to_string(),
        ]
    );

    enter(&mut app, "netscan");
    enter(&mut app, "  connect server0  ");
    enter(&mut app, "scan");
    enter(&mut app, "nuke");
    enter(&mut app, "npm i -g backdoor");
    enter(&mut app, "hack");

    let expected = vec![
        "connected to home server: dreamstack",
        "Run `netscan` to discover nearby servers.",
        "home@dreamstack:~$ netscan",
        "servers found:",
        "server0 | skill 1 | security 1.0 | money 100000.000",
        "Run `connect <hostname>` to connect to a server.",
        "home@dreamstack:~$ connect server0",
        "connected to server0",
        "Run `scan` to inspect the connected server.",
        "user@server0:~$ scan",
        "scan report: server0",
        "required hack skill: 1",
        "minimum security: 1.0",
        "maximum money: 100000.000",
        "Run `nuke`; if successful, it will give you root access to the server.",
        "user@server0:~$ nuke",
        "nuke successful: root access granted on server0",
        "Run `npm i -g backdoor` to install a backdoor.",
        "root@server0:~$ npm i -g backdoor",
        "backdoor installed on server0",
        "Run `hack` to drain the server.",
        "root@server0:~$ hack",
        "hack started: execution time 2 in-game hours",
    ];
    assert_eq!(app.terminal.lines, expected);
    assert!(app.terminal.scanned);
    assert!(app.terminal.server_scanned);
    assert_eq!(app.terminal.input, "");
    assert_eq!(app.save_status, "Hacking server0...");
}

#[test]
fn commands_are_blocked_while_a_hack_runs() {
    let mut app = app_ready_to_hack();
    enter(&mut app, "hack");
    let before = app.terminal.lines.len();
    assert!(enter(&mut app, "home"));
    assert_eq!(app.terminal.lines.len(), before + 1);
    assert_eq!(app.terminal.lines.last().unwrap(), "command blocked: hack already running");
    assert_eq!(app.terminal.connected_server.as_deref(), Some("server0"));
    assert_eq!(app.terminal.input, "");
}

#[test]
fn empty_command_does_nothing() {
    let mut app = shift_over_in_tutorial_1();
    let lines = app.terminal.lines.clone();
    assert!(!enter(&mut app, "  \t "));
    assert_eq!(app.terminal.lines, lines);
    assert_eq!(app.terminal.input, "  \t ");
}

#[test]
fn refuses_commands_out_of_order() {
    let mut app = shift_over_in_tutorial_1();
    enter(&mut app, "connect server0");
    assert_eq!(app.terminal.lines.last().unwrap(), "run `netscan` before connecting");
    enter(&mut app, "scan");
    assert_eq!(app.terminal.lines.last().unwrap(), "connect to a server before scanning");
    enter(&mut app, "nuke");
    assert_eq!(app.terminal.lines.last().unwrap(), "connect to a server before running nuke");
    enter(&mut app, "npm i -g backdoor");
    assert_eq!(
        app.terminal.lines.last().unwrap(),
        "connect to a server before installing a backdoor"
    );
    enter(&mut app, "hack");
    assert_eq!(app.terminal.lines.last().unwrap(), "connect to a server before hacking");
    enter(&mut app, "home");
    assert_eq!(app.terminal.lines.last().unwrap(), "already connected to home server");
    enter(&mut app, "netscan");
    enter(&mut app, "connect server9");
    assert_eq!(app.terminal.lines.last().unwrap(), "connect failed: unknown host server9");
    enter(&mut app, "connect server0");
    enter(&mut app, "npm i -g backdoor");
    assert_eq!(
        app.terminal.lines.last().unwrap(),
        "root access required before installing a backdoor"
    );
    enter(&mut app, "hack");
    assert_eq!(app.terminal.lines.last().unwrap(), "install a backdoor before hacking");
    enter(&mut app, "dance");
    assert_eq!(app.terminal.lines.last().unwrap(), "unknown command: dance");
    enter(&mut app, "home");
    assert_eq!(app.terminal.lines.last().unwrap(), "disconnected from server0; returned home");
    assert!(app.terminal.connected_server.is_none());
    assert!(!app.terminal.server_scanned);
    assert!(app.terminal.hack_execution.is_none());
}

#[test]
fn netscan_without_servers_finds_none() {
    let mut terminal = Terminal::new();
    terminal.input = "netscan".to_string();
    terminal.enter_command(&Vec::new());
    assert_eq!(
        terminal.lines,
        vec!["home@dreamstack:~$ netscan".to_string(), "no servers found".to_string()]
    );
    assert!(!terminal.scanned);
}

#[test]
fn scan_of_a_vanished_host_fails() {
    let mut app = app_ready_to_hack();
    app.tutorial.servers.clear();
    enter(&mut app, "scan");
    assert_eq!(app.terminal.lines.last().unwrap(), "scan failed: lost connection to server0");
    enter(&mut app, "hack");
    assert_eq!(app.terminal.lines.last().unwrap(), "hack failed: lost connection to server0");
    assert!(app.terminal.hack_execution.is_none());
}

#[test]
fn prompt_shows_where_and_who() {
    let mut terminal = Terminal::new();
    assert_eq!(terminal.terminal_prompt(), "home@dreamstack:~$");
    terminal.connected_server = Some("server0".to_string());
    assert_eq!(terminal.terminal_prompt(), "user@server0:~$");
    terminal.root_server = Some("server1".to_string());
    assert_eq!(terminal.terminal_prompt(), "user@server0:~$");
    terminal.root_server = Some("server0".to_string());
    assert_eq!(terminal.terminal_prompt(), "root@server0:~$");
}

#[test]
fn parses_commands() {
    assert!(matches!(parse_command("netscan"), TerminalCommand::Netscan));
    match parse_command("connect server0") {
        TerminalCommand::Connect(host) => assert_eq!(host, "server0"),
        _ => panic!("expected connect"),
    }
    match parse_command("connect ") {
        TerminalCommand::Connect(host) => assert_eq!(host, ""),
        _ => panic!("expected connect"),
    }
    assert!(matches!(parse_command("connect"), TerminalCommand::Unknown));
    assert!(matches!(parse_command("scan"), TerminalCommand::Scan));
    assert!(matches!(parse_command("nuke"), TerminalCommand::Nuke));
    assert!(matches!(parse_command("npm i -g backdoor"), TerminalCommand::InstallBackdoor));
    assert!(matches!(parse_command("hack"), TerminalCommand::Hack));
    assert!(matches!(parse_command("home"), TerminalCommand::Home));
    assert!(matches!(parse_command("HACK"), TerminalCommand::Unknown));
}
