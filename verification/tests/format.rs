use twitch_tui::ui::format::{format_uptime, format_uptime_minutes, format_viewers, format_viewers_full};

#[test]
fn test_format_viewers() {
    assert_eq!(format_viewers(0), "0");
    assert_eq!(format_viewers(42), "42");
    assert_eq!(format_viewers(999), "999");
    assert_eq!(format_viewers(1000), "1.0k");
    assert_eq!(format_viewers(23400), "23.4k");
    assert_eq!(format_viewers(42391), "42.4k");
    assert_eq!(format_viewers(1000000), "1.0m");
    assert_eq!(format_viewers(2500000), "2.5m");
}

#[test]
fn test_format_viewers_full() {
    assert_eq!(format_viewers_full(0), "0");
    assert_eq!(format_viewers_full(42), "42");
    assert_eq!(format_viewers_full(42391), "42,391");
    assert_eq!(format_viewers_full(1000000), "1,000,000");
}

#[test]
fn test_format_uptime_minutes() {
    let five_min_ago = (chrono::Utc::now() - chrono::Duration::minutes(5)).to_rfc3339();
    assert_eq!(format_uptime(&five_min_ago), "5m");
}

#[test]
fn test_format_uptime_hours_minutes() {
    let two_hours_ago = (chrono::Utc::now() - chrono::Duration::hours(2) - chrono::Duration::minutes(15))
        .to_rfc3339();
    assert_eq!(format_uptime(&two_hours_ago), "2h 15m");
}

#[test]
fn test_format_uptime_days() {
    let one_day_ago = (chrono::Utc::now() - chrono::Duration::hours(27)).to_rfc3339();
    assert_eq!(format_uptime(&one_day_ago), "1d 3h");
}

#[test]
fn test_format_uptime_invalid() {
    assert_eq!(format_uptime("not-a-date"), "");
}

fn by_float(count: u32) -> String {
    if count >= 1_000_000 {
        format!("{:.1}m", count as f64 / 1_000_000.0)
    } else if count >= 1_000 {
        format!("{:.1}k", count as f64 / 1_000.0)
    } else {
        count.to_string()
    }
}

#[test]
fn viewers_round_like_binary64_printing() {
    // Every count below two hundred thousand, the counts halfway between two
    // tenths of a thousand, those halfway between two tenths of a million,
    // and the largest count.
    for c in 0..200_000u32 {
        assert_eq!(format_viewers(c), by_float(c), "count {}", c);
    }
    let mut c: u32 = 50;
    while c < 3_000_000 {
        assert_eq!(format_viewers(c), by_float(c), "count {}", c);
        c += 100;
    }
    let mut c: u64 = 50_000;
    while c <= u32::MAX as u64 {
        assert_eq!(format_viewers(c as u32), by_float(c as u32), "count {}", c);
        c += 100_000;
    }
    assert_eq!(format_viewers(u32::MAX), by_float(u32::MAX));
}

#[test]
fn viewers_ties_and_edges() {
    assert_eq!(format_viewers(1050), "1.1k");
    assert_eq!(format_viewers(1150), "1.1k");
    assert_eq!(format_viewers(1250), "1.2k");
    assert_eq!(format_viewers(1750), "1.8k");
    assert_eq!(format_viewers(999_949), "999.9k");
    assert_eq!(format_viewers(999_950), "1000.0k");
    assert_eq!(format_viewers(999_999), "1000.0k");
    assert_eq!(format_viewers(u32::MAX), "4295.0m");
}

#[test]
fn viewers_full_groups() {
    assert_eq!(format_viewers_full(999), "999");
    assert_eq!(format_viewers_full(1000), "1,000");
    assert_eq!(format_viewers_full(123456), "123,456");
    assert_eq!(format_viewers_full(u32::MAX), "4,294,967,295");
}

#[test]
fn uptime_from_minutes() {
    assert_eq!(format_uptime_minutes(0), "0m");
    assert_eq!(format_uptime_minutes(59), "59m");
    assert_eq!(format_uptime_minutes(60), "1h 00m");
    assert_eq!(format_uptime_minutes(135), "2h 15m");
    assert_eq!(format_uptime_minutes(1439), "23h 59m");
    assert_eq!(format_uptime_minutes(1440), "1d 0h");
    assert_eq!(format_uptime_minutes(1620), "1d 3h");
    assert_eq!(format_uptime_minutes(-5), "-5m");
    assert_eq!(format_uptime_minutes(-125), "-5m");
    assert_eq!(format_uptime_minutes(-120), "0m");
    assert_eq!(format_uptime_minutes(i64::MIN), "-8m");
}
