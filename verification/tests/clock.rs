use dreamstack::clock::Clock;
use dreamstack::hack::{format_duration, HackExecution};
use dreamstack::text::{decimal_string, same_text, strip_prefix, trim};

fn time_parts(seconds: u64) -> (u64, u64, u64) {
    let clock = Clock::from_elapsed_seconds(seconds);
    (clock.hour(), clock.minute(), clock.second())
}

#[test]
fn reports_time_parts_starts_at_midnight() {
    assert_eq!(time_parts(0), (0, 0, 0));
}

#[test]
fn reports_time_parts_one_second() {
    assert_eq!(time_parts(1), (0, 0, 1));
}

#[test]
fn reports_time_parts_last_second_before_minute() {
    assert_eq!(time_parts(59), (0, 0, 59));
}

#[test]
fn reports_time_parts_one_minute() {
    assert_eq!(time_parts(60), (0, 1, 0));
}

#[test]
fn reports_time_parts_last_second_before_hour() {
    assert_eq!(time_parts(3_599), (0, 59, 59));
}

#[test]
fn reports_time_parts_one_hour() {
    assert_eq!(time_parts(3_600), (1, 0, 0));
}

#[test]
fn reports_time_parts_last_second_before_day_wraps() {
    assert_eq!(time_parts(86_399), (23, 59, 59));
}

#[test]
fn reports_time_parts_day_wraps() {
    assert_eq!(time_parts(86_400), (0, 0, 0));
}

#[test]
fn ticks_one_ingame_second() {
    let mut clock = Clock::default();

    clock.advance_by(1);

    assert_eq!(clock.elapsed_seconds(), 1);
    assert_eq!(clock.second(), 1);
}

#[test]
fn advances_by_multiple_ingame_seconds() {
    let mut clock = Clock::default();

    clock.advance_by(120);

    assert_eq!(clock.elapsed_seconds(), 120);
    assert_eq!(clock.minute(), 2);
}

#[test]
fn formats_time() {
    assert_eq!(Clock::from_elapsed_seconds(3_661).display_text(), "01:01:01");
}

#[test]
fn formats_time_of_day_after_a_day() {
    assert_eq!(Clock::from_elapsed_seconds(90_061).display_text(), "01:01:01");
    assert_eq!(Clock::from_elapsed_seconds(86_399).display_text(), "23:59:59");
}

#[test]
fn advancing_in_two_steps_equals_one_step() {
    let mut split = Clock::new();
    split.advance_by(28_800);
    split.advance_by(7_200);
    let mut whole = Clock::new();
    whole.advance_by(36_000);
    assert_eq!(split.elapsed_seconds(), whole.elapsed_seconds());
    assert_eq!(split.elapsed_seconds(), 36_000);
}

#[test]
fn time_parts_rebuild_time_of_day() {
    for seconds in [0u64, 59, 3_661, 45_296, 86_399, 86_400, 1_000_000] {
        let (h, m, s) = time_parts(seconds);
        assert_eq!(h * 3_600 + m * 60 + s, seconds % 86_400);
    }
}

#[test]
fn hack_progress_text_shows_elapsed_and_total_time() {
    let hack_execution = HackExecution {
        hostname: "server0".to_string(),
        elapsed_seconds: 3_600,
        duration_seconds: 7_200,
    };

    assert_eq!(
        hack_execution.progress_text(),
        "hacking server0: 01:00:00 / 02:00:00"
    );
}

#[test]
fn formats_durations() {
    assert_eq!(format_duration(0), "00:00:00");
    assert_eq!(format_duration(7_200), "02:00:00");
    assert_eq!(format_duration(3_661), "01:01:01");
    assert_eq!(format_duration(100 * 3_600 + 5), "100:00:05");
}

#[test]
fn writes_decimals() {
    assert_eq!(decimal_string(0), "0");
    assert_eq!(decimal_string(7), "7");
    assert_eq!(decimal_string(1024), "1024");
    assert_eq!(decimal_string(u64::MAX), u64::MAX.to_string());
}

#[test]
fn trims_compares_and_strips() {
    assert_eq!(trim("  connect server0 \t\n"), "connect server0");
    assert_eq!(trim(" \u{3000}hack\u{2028}"), "hack");
    assert_eq!(trim("   "), "");
    assert_eq!(trim(""), "");
    assert!(same_text("scan", "scan"));
    assert!(!same_text("scan", "scans"));
    assert_eq!(strip_prefix("connect server0", "connect "), Some("server0"));
    assert_eq!(strip_prefix("connect", "connect "), None);
    assert_eq!(strip_prefix("connéct x", "connect "), None);
}
