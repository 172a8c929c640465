use windows_diagnostics::calendar::LocalTime;
use windows_diagnostics::cleanup_history::{
    daily_totals, format_gib, format_size, lifetime_totals, parse_history, record, record_clear,
    today, today_totals, Category, DayTotals,
};

fn now() -> LocalTime {
    LocalTime { year: 2025, month: 3, day_of_week: 2, day: 4, hour: 9, minute: 7, second: 5 }
}

fn reference_size(bytes: u64) -> String {
    const KB: f64 = 1024.0;
    const MB: f64 = KB * 1024.0;
    const GB: f64 = MB * 1024.0;
    let b = bytes as f64;
    if b >= GB {
        format!("{:.3} GB", b / GB)
    } else if b >= MB {
        format!("{:.2} MB", b / MB)
    } else if b >= KB {
        format!("{:.1} KB", b / KB)
    } else {
        format!("{bytes} B")
    }
}

#[test]
fn category_names() {
    assert_eq!(Category::Logs.as_str(), "logs");
    assert_eq!(Category::Temp.as_str(), "temp");
    assert_eq!(Category::parse(" LOG "), Some(Category::Logs));
    assert_eq!(Category::parse("Temps"), Some(Category::Temp));
    assert_eq!(Category::parse("other"), None);
}

#[test]
fn day_total_saturates() {
    let d = DayTotals { date: "2025-03-04".to_string(), logs_bytes: 5, temp_bytes: 7 };
    assert_eq!(d.total_bytes(), 12);
    let big = DayTotals { date: "x".to_string(), logs_bytes: u64::MAX, temp_bytes: 1 };
    assert_eq!(big.total_bytes(), u64::MAX);
}

#[test]
fn format_size_matches_float_formatting() {
    let samples = [
        0u64,
        1,
        1023,
        1024,
        1536,
        1075,
        10_240,
        1_048_575,
        1_048_576,
        5 * 1_048_576 + 123,
        1_073_741_823,
        1_073_741_824,
        1_610_612_736,
        123_456_789_012,
        9_007_199_254_740_993,
        u64::MAX,
    ];
    for b in samples {
        assert_eq!(format_size(b), reference_size(b), "bytes = {b}");
        assert_eq!(format_gib(b), reference_size(b), "bytes = {b}");
    }
    assert_eq!(format_size(512), "512 B");
    assert_eq!(format_size(1536), "1.5 KB");
    assert_eq!(format_size(1_073_741_824), "1.000 GB");
}

#[test]
fn today_is_the_date_of_the_stamp() {
    assert_eq!(today(now()), "2025-03-04");
}

#[test]
fn record_lines() {
    assert_eq!(record_clear(Category::Logs, 2048, 3, now()), Some("2025-03-04|logs|2048\n".to_string()));
    // Unknown size: 512 bytes per removed item.
    assert_eq!(record_clear(Category::Temp, 0, 3, now()), Some("2025-03-04|temp|1536\n".to_string()));
    assert_eq!(record_clear(Category::Temp, 0, 0, now()), None);
    assert_eq!(
        record_clear(Category::Temp, 0, u64::MAX, now()),
        Some(format!("2025-03-04|temp|{}\n", u64::MAX))
    );
    assert_eq!(record(Category::Logs, 10, now()), Some("2025-03-04|logs|10\n".to_string()));
    assert_eq!(record(Category::Logs, 0, now()), None);
}

#[test]
fn parse_history_skips_malformed_lines() {
    let text = "2025-03-01 10:00|logs|100\r\nbad line\n2025-03-02|TEMP| 200 \n2025|logs|5\n2025-03-02|temp|x\n2025-03-03|logs|+7";
    let raw = parse_history(text);
    assert_eq!(
        raw,
        vec![
            ("2025-03-01".to_string(), Category::Logs, 100),
            ("2025-03-02".to_string(), Category::Temp, 200),
            ("2025-03-03".to_string(), Category::Logs, 7),
        ]
    );
}

#[test]
fn recorded_line_reads_back() {
    let mut text = String::from("2025-03-01|logs|100\n");
    let line = record_clear(Category::Temp, 4096, 0, now()).unwrap();
    text.push_str(&line);
    let raw = parse_history(&text);
    assert_eq!(raw.len(), 2);
    assert_eq!(raw[1], ("2025-03-04".to_string(), Category::Temp, 4096));
}

fn sample() -> Vec<(String, Category, u64)> {
    vec![
        ("2025-03-01".to_string(), Category::Logs, 100),
        ("2025-03-03".to_string(), Category::Temp, 50),
        ("2025-03-01".to_string(), Category::Temp, 30),
        ("2025-03-03".to_string(), Category::Logs, u64::MAX),
        ("2025-03-03".to_string(), Category::Logs, 5),
    ]
}

fn at(year: u16, month: u16, day: u16) -> LocalTime {
    LocalTime { year, month, day_of_week: 0, day, hour: 12, minute: 0, second: 0 }
}

fn rows(r: &[DayTotals]) -> Vec<(String, u64, u64)> {
    r.iter().map(|d| (d.date.clone(), d.logs_bytes, d.temp_bytes)).collect()
}

#[test]
fn daily_totals_are_the_last_calendar_days() {
    assert_eq!(
        rows(&daily_totals(&sample(), at(2025, 3, 4), 5)),
        vec![
            ("2025-02-28".to_string(), 0, 0),
            ("2025-03-01".to_string(), 100, 30),
            ("2025-03-02".to_string(), 0, 0),
            ("2025-03-03".to_string(), u64::MAX, 50),
            ("2025-03-04".to_string(), 0, 0),
        ]
    );
    let last_two = daily_totals(&sample(), at(2025, 3, 4), 2);
    assert_eq!(last_two.len(), 2);
    assert_eq!(last_two[0].date, "2025-03-03");
    assert_eq!(last_two[1].date, "2025-03-04");
    // days is clamped to 1..=90
    assert_eq!(daily_totals(&sample(), at(2025, 3, 4), 0).len(), 1);
    let ninety = daily_totals(&sample(), at(2025, 3, 4), 500);
    assert_eq!(ninety.len(), 90);
    assert_eq!(ninety[0].date, "2024-12-05");
}

#[test]
fn missing_days_are_filled_with_zeros() {
    let raw = vec![("2024-05-01".to_string(), Category::Logs, 100)];
    assert_eq!(
        rows(&daily_totals(&raw, at(2024, 5, 3), 3)),
        vec![
            ("2024-05-01".to_string(), 100, 0),
            ("2024-05-02".to_string(), 0, 0),
            ("2024-05-03".to_string(), 0, 0),
        ]
    );
}

#[test]
fn window_crosses_month_year_and_leap_day() {
    let dates: Vec<String> = daily_totals(&[], at(2024, 3, 1), 3).into_iter().map(|d| d.date).collect();
    assert_eq!(dates, vec!["2024-02-28", "2024-02-29", "2024-03-01"]);
    let dates: Vec<String> = daily_totals(&[], at(2025, 1, 1), 2).into_iter().map(|d| d.date).collect();
    assert_eq!(dates, vec!["2024-12-31", "2025-01-01"]);
}

#[test]
fn lifetime_and_today() {
    assert_eq!(lifetime_totals(&sample()), (u64::MAX, 80));
    let t = today_totals(&sample(), at(2025, 3, 3));
    assert_eq!((t.date.as_str(), t.logs_bytes, t.temp_bytes), ("2025-03-03", u64::MAX, 50));
    let t = today_totals(&sample(), at(2025, 3, 4));
    assert_eq!((t.date.as_str(), t.logs_bytes, t.temp_bytes), ("2025-03-04", 0, 0));
    // A record dated after today does not hide what was recorded today.
    let mut raw = sample();
    raw.push(("2025-03-09".to_string(), Category::Logs, 9));
    raw.push(("2025-03-04".to_string(), Category::Logs, 7));
    let t = today_totals(&raw, at(2025, 3, 4));
    assert_eq!((t.logs_bytes, t.temp_bytes), (7, 0));
    let window = daily_totals(&raw, at(2025, 3, 4), 3);
    assert_eq!(rows(&window).last().unwrap(), &("2025-03-04".to_string(), 7, 0));
}
