use dreamstack::game::Screen;
use dreamstack::save::{save_format, SaveFormat, SavedActiveJob, SavedSession, V2SavedSession, SAVE_VERSION};

const V1_SAVE: &str = r#"
    {
      "meta": { "version": 1 },
      "state": {
        "player": {
          "money": 880.0,
          "charisma_experience": 576.0,
          "charisma_skill": 1,
          "hack_experience": 25.0,
          "hack_skill": 1,
          "botanical_gardens": -1.0,
          "company_standings": []
        },
        "active_tutorial": 1,
        "tutorial": {
          "elapsed_seconds": 28800,
          "active_job": {
            "employer_name": "employer0",
            "job_name": "employee"
          }
        }
      }
    }
    "#;

const V2_SAVE: &str = r#"
    {
      "meta": { "version": 2 },
      "state": {
        "player": {
          "money": 880.0,
          "charisma_experience": 576.0,
          "charisma_skill": 1,
          "hack_experience": 25.0,
          "hack_skill": 1,
          "botanical_gardens": -1.0,
          "company_standings": []
        },
        "active_tutorial": 1,
        "tutorial": {
          "elapsed_seconds": 28800,
          "active_job": {
            "employer_name": "employer0",
            "job_name": "employee"
          }
        },
        "app": {
          "screen": "terminal",
          "terminal_input": "scan",
          "terminal_lines": ["connected"],
          "terminal_scanned": true,
          "connected_server": "server0",
          "root_server": null,
          "backdoor_server": null,
          "hack_execution": null,
          "editor_unlocked": false,
          "editor_text": "fn main(ds) {}",
          "editor_output": [],
          "company_reputation_rate_favor": 0.0
        }
      }
    }
    "#;

fn version_of(json: &str) -> u64 {
    let value: serde_json::Value = serde_json::from_str(json).unwrap();
    value["meta"]["version"].as_u64().unwrap()
}

fn text(value: &serde_json::Value) -> String {
    value.as_str().unwrap().to_string()
}

fn optional_text(value: &serde_json::Value) -> Option<String> {
    value.as_str().map(|s| s.to_string())
}

fn texts(value: &serde_json::Value) -> Vec<String> {
    value.as_array().unwrap().iter().map(text).collect()
}

#[test]
fn migrates_v1_save_format() {
    assert_eq!(save_format(version_of(V1_SAVE)).unwrap(), SaveFormat::V1);
    let app = SavedSession::v1_defaults();

    assert_eq!(app.screen, Screen::Intro);
    assert!(!app.terminal_server_scanned);
    assert_eq!(app.editor_text, dreamstack::game::default_editor_text());
    assert!(app.terminal_lines.is_empty());
    assert!(app.hack_execution.is_none());
}

#[test]
fn migrates_v2_save_format() {
    assert_eq!(save_format(version_of(V2_SAVE)).unwrap(), SaveFormat::V2);
    let value: serde_json::Value = serde_json::from_str(V2_SAVE).unwrap();
    let saved = &value["state"]["app"];
    assert_eq!(saved["screen"], "terminal");
    assert!(saved["hack_execution"].is_null());
    let app = SavedSession::from_v2(V2SavedSession {
        screen: Screen::Terminal,
        terminal_input: text(&saved["terminal_input"]),
        terminal_lines: texts(&saved["terminal_lines"]),
        terminal_scanned: saved["terminal_scanned"].as_bool().unwrap(),
        connected_server: optional_text(&saved["connected_server"]),
        root_server: optional_text(&saved["root_server"]),
        backdoor_server: optional_text(&saved["backdoor_server"]),
        hack_execution: None,
        editor_unlocked: saved["editor_unlocked"].as_bool().unwrap(),
        editor_text: text(&saved["editor_text"]),
        editor_output: texts(&saved["editor_output"]),
    });

    assert_eq!(value["state"]["active_tutorial"], 1);
    assert_eq!(app.terminal_input, "scan");
    assert!(app.terminal_scanned);
    assert!(!app.terminal_server_scanned);
    assert_eq!(app.connected_server.as_deref(), Some("server0"));
    assert_eq!(app.terminal_lines, vec!["connected".to_string()]);
    assert_eq!(app.editor_text, "fn main(ds) {}");
}

#[test]
fn rejects_unsupported_save_version() {
    let error = save_format(version_of(r#"{"meta":{"version":99},"state":{}}"#)).unwrap_err();

    assert!(error.contains("unsupported save version 99"));
}

#[test]
fn reads_exactly_versions_one_to_three() {
    assert_eq!(SAVE_VERSION, 3);
    assert_eq!(save_format(3).unwrap(), SaveFormat::Current);
    assert_eq!(save_format(0).unwrap_err(), "unsupported save version 0");
    assert_eq!(save_format(4).unwrap_err(), "unsupported save version 4");
    assert_eq!(
        save_format(u64::MAX).unwrap_err(),
        format!("unsupported save version {}", u64::MAX)
    );
}

#[test]
fn saved_active_job_keeps_names() {
    let job = SavedActiveJob::new("employer0", "employee");
    assert_eq!(job.employer_name, "employer0");
    assert_eq!(job.job_name, "employee");
}
