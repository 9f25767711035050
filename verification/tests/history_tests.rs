use hassha::history::{
    add_history_entry, chrono_lite_timestamp, days_to_month_day, format_history, is_leap_year,
    u64_to_dec, u64_to_dec_padded, History, HistoryEntry,
};

const MAX_HISTORY_ENTRIES: usize = hassha::history::MAX_HISTORY_ENTRIES;

fn entry(timestamp: &str, event: &str, melody: &str, project_dir: &str) -> HistoryEntry {
    HistoryEntry {
        timestamp: timestamp.to_string(),
        event: event.to_string(),
        melody: melody.to_string(),
        project_dir: project_dir.to_string(),
        tool_name: None,
        matcher: None,
    }
}

#[test]
fn test_history_truncation() {
    let mut history = History::default();

    // Add more than MAX entries
    for i in 0..15 {
        history.entries.insert(
            0,
            entry(
                &format!("2024-01-{:02}T10:00:00Z", i + 1),
                "Stop",
                &format!("melody-{}", i),
                "/test",
            ),
        );
    }

    history.entries.truncate(MAX_HISTORY_ENTRIES);

    assert_eq!(history.entries.len(), MAX_HISTORY_ENTRIES);
}

#[test]
fn test_append_keeps_newest_ten() {
    let mut history = History::default();
    for i in 0..15 {
        add_history_entry(
            &mut history,
            entry(
                &format!("2024-01-{:02}T10:00:00Z", i + 1),
                "Stop",
                &format!("melody-{}", i),
                "/test",
            ),
        );
    }
    // exactly 10 entries remain, newest first, the oldest 5 dropped
    assert_eq!(history.entries.len(), 10);
    for (k, e) in history.entries.iter().enumerate() {
        assert_eq!(e.melody, format!("melody-{}", 14 - k));
    }
    assert!(history.entries.iter().all(|e| e.melody != "melody-0"));
    assert!(history.entries.iter().all(|e| e.melody != "melody-4"));
}

#[test]
fn test_format_history_empty() {
    let history = History::default();
    assert_eq!(format_history(&history), "No melody history yet.");
}

#[test]
fn test_format_history_one_entry() {
    let mut history = History::default();
    let mut e = entry("2024-01-15T10:30:00Z", "Stop", "JY-Shibuya", "/home/user/project");
    e.tool_name = Some("Bash".to_string());
    e.matcher = Some("Bash|Write".to_string());
    add_history_entry(&mut history, e);
    let expected = "Recent melody history (last 10):\n\n1. [2024-01-15T10:30:00Z] Stop\n   Melody: JY-Shibuya\n   Project: /home/user/project\n   Tool: Bash\n   Matcher: Bash|Write\n\n";
    assert_eq!(format_history(&history), expected);
}

#[test]
fn test_timestamp_epoch() {
    assert_eq!(chrono_lite_timestamp(0), "1970-01-01T00:00:00Z");
}

#[test]
fn test_timestamp_known_instants() {
    assert_eq!(chrono_lite_timestamp(1700000000), "2023-11-14T22:13:20Z");
    assert_eq!(chrono_lite_timestamp(951827696), "2000-02-29T12:34:56Z");
    assert_eq!(chrono_lite_timestamp(1709210096), "2024-02-29T12:34:56Z");
    assert_eq!(chrono_lite_timestamp(978307199), "2000-12-31T23:59:59Z");
}

#[test]
fn test_is_leap_year() {
    assert!(is_leap_year(2000));
    assert!(!is_leap_year(1900));
    assert!(is_leap_year(2024));
    assert!(!is_leap_year(2023));
    assert!(is_leap_year(1972));
}

#[test]
fn test_days_to_month_day() {
    assert_eq!(days_to_month_day(0, false), (1, 1));
    assert_eq!(days_to_month_day(30, false), (1, 31));
    assert_eq!(days_to_month_day(31, false), (2, 1));
    assert_eq!(days_to_month_day(59, false), (3, 1));
    assert_eq!(days_to_month_day(59, true), (2, 29));
    assert_eq!(days_to_month_day(60, true), (3, 1));
    assert_eq!(days_to_month_day(364, false), (12, 31));
    assert_eq!(days_to_month_day(365, true), (12, 31));
}

#[test]
fn test_decimal_rendering() {
    assert_eq!(u64_to_dec(0), "0");
    assert_eq!(u64_to_dec(7), "7");
    assert_eq!(u64_to_dec(1970), "1970");
    assert_eq!(u64_to_dec(18446744073709551615), "18446744073709551615");
    assert_eq!(u64_to_dec_padded(7, 2), "07");
    assert_eq!(u64_to_dec_padded(2024, 4), "2024");
    assert_eq!(u64_to_dec_padded(12345, 4), "12345");
    assert_eq!(u64_to_dec_padded(0, 2), "00");
}
