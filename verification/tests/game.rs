use dreamstack::game::{default_editor_text, GameState, ReputationChoiceOutcome, Screen, TutorialInfo};
use dreamstack::terminal::ServerListing;

fn tutorial(number: u8, servers: Vec<ServerListing>) -> TutorialInfo {
    TutorialInfo {
        number,
        duration_seconds: 28_800,
        employer_name: "employer0".to_string(),
        job_name: "employee".to_string(),
        servers,
    }
}

fn server0() -> ServerListing {
    ServerListing {
        name: "server0".to_string(),
        hack_skill_needed: 1,
        security_text: "1.0".to_string(),
        money_text: "100000.000".to_string(),
        reward_text: "25.000".to_string(),
        hack_duration_seconds: 7_200,
    }
}

#[test]
fn starts_on_the_intro_screen() {
    let app = GameState::new(tutorial(0, Vec::new()));
    assert_eq!(app.screen, Screen::Intro);
    assert_eq!(app.clock.elapsed_seconds(), 0);
    assert!(!app.editor_unlocked);
    assert_eq!(app.editor_text, default_editor_text());
    assert_eq!(
        app.editor_text,
        "fn main(ds) {\n    ds_print(ds, \"hello from automation\");\n}\n"
    );
    assert_eq!(app.tutorial_title(), "Job System");
    assert!(!app.has_hacking_intro());
}

#[test]
fn taking_the_job_starts_the_shift() {
    let mut app = GameState::new(tutorial(0, Vec::new()));
    assert!(app.start_job());
    assert_eq!(app.screen, Screen::Working);
    assert_eq!(app.save_status, "You took the employee job. Starting tutorial 0.");
}

#[test]
fn work_is_credited_up_to_the_end_of_the_shift() {
    let mut app = GameState::new(tutorial(0, Vec::new()));
    app.start_job();
    assert_eq!(app.work_for(60), (60, false));
    assert!(!app.shift_over());
    assert_eq!(app.screen, Screen::Working);
    assert_eq!(app.work_for(100_000), (28_740, true));
    assert_eq!(app.clock.elapsed_seconds(), 28_800);
    assert!(app.shift_over());
    assert_eq!(app.screen, Screen::Complete);
}

#[test]
fn skipping_the_shift_credits_what_is_left() {
    let mut app = GameState::new(tutorial(1, vec![server0()]));
    app.start_job();
    app.work_for(800);
    assert_eq!(app.skip_tutorial(), (28_000, true));
    assert_eq!(app.clock.elapsed_seconds(), 28_800);
    assert_eq!(app.save_status, "Skipped the rest of tutorial 1.");
    assert_eq!(app.screen, Screen::TerminalPrompt);
    assert_eq!(app.tutorial_title(), "Hacking System");
}

#[test]
fn terminal_opens_only_after_the_shift_of_a_hacking_level() {
    let mut app = GameState::new(tutorial(1, vec![server0()]));
    app.start_job();
    app.open_terminal();
    assert_eq!(app.screen, Screen::Working);
    assert_eq!(app.save_status, "Finish your shift before using Terminal.");

    let mut job_only = GameState::new(tutorial(0, Vec::new()));
    job_only.skip_tutorial();
    job_only.open_terminal();
    assert_eq!(job_only.screen, Screen::Complete);
    assert_eq!(job_only.save_status, "Finish your shift before using Terminal.");

    app.skip_tutorial();
    app.terminal.input = "netscan".to_string();
    app.open_terminal();
    assert_eq!(app.screen, Screen::Terminal);
    assert_eq!(app.save_status, "Terminal opened.");
    assert_eq!(app.terminal.input, "");
    assert_eq!(app.terminal.lines.len(), 2);
}

#[test]
fn editor_stays_locked_until_unlocked() {
    let mut app = GameState::new(tutorial(2, vec![server0()]));
    app.open_editor();
    assert_eq!(app.screen, Screen::Intro);
    assert_eq!(app.save_status, "Hack a server during tutorial 2 to unlock Editor.");
}

#[test]
fn reputation_choice_leads_to_the_next_level() {
    let mut app = GameState::new(tutorial(0, Vec::new()));
    let next = app.advance_after_reputation_choice("Company reputation will carry forward as favor.");
    assert!(matches!(next, (ReputationChoiceOutcome::StartTutorial(1), false)));
    assert!(app.start_next_tutorial(tutorial(1, vec![server0()]), " Starting tutorial 1."));
    assert_eq!(
        app.save_status,
        "Company reputation will carry forward as favor. Starting tutorial 1."
    );
    assert_eq!(app.screen, Screen::Intro);
    assert_eq!(app.clock.elapsed_seconds(), 0);
    assert_eq!(app.tutorial.number, 1);

    let next = app.advance_after_reputation_choice("Company reputation will not carry forward.");
    assert!(matches!(next, (ReputationChoiceOutcome::StartTutorial(2), false)));

    let mut last = GameState::new(tutorial(2, vec![server0()]));
    let next = last.advance_after_reputation_choice("done");
    assert!(matches!(next, (ReputationChoiceOutcome::Finished, true)));
    assert_eq!(last.screen, Screen::Finished);
    assert_eq!(last.save_status, "done");
}

#[test]
fn autosave_results_update_the_status() {
    let mut app = GameState::new(tutorial(0, Vec::new()));
    app.note_autosave(None);
    assert_eq!(app.save_status, "Autosaved.");
    app.start_job();
    app.note_autosave(None);
    assert_eq!(app.save_status, "You took the employee job. Starting tutorial 0.");
    app.note_autosave(Some("disk full"));
    assert_eq!(app.save_status, "Autosave failed: disk full");
}

#[test]
fn editor_records_script_runs() {
    let mut app = GameState::new(tutorial(2, Vec::new()));
    app.record_script_run(Ok(vec!["money".to_string(), "1024".to_string()]));
    assert_eq!(app.editor_output, vec!["money".to_string(), "1024".to_string()]);
    assert_eq!(app.save_status, "Rhai script ran.");
    app.record_script_run(Err("syntax error".to_string()));
    assert!(app.editor_output.is_empty());
    assert_eq!(app.save_status, "Rhai script failed: syntax error");
    app.clear_editor();
    assert_eq!(app.editor_text, "");
    assert_eq!(app.save_status, "Editor cleared.");
}

#[test]
fn the_shift_ends_in_the_step_that_reaches_its_end() {
    let mut app = GameState::new(tutorial(1, vec![server0()]));
    app.start_job();
    assert_eq!(app.work_for(28_799), (28_799, false));
    assert_eq!(app.screen, Screen::Working);
    assert_eq!(app.work_for(1), (1, true));
    assert_eq!(app.screen, Screen::TerminalPrompt);
    assert_eq!(app.clock.elapsed_seconds(), 28_800);
}
