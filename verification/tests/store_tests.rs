use chrono::{DateTime, Duration, FixedOffset, Local, TimeZone, Utc};
use sch2jn::store::{
    bytes_to_append, format_entry, next_write, LogEntry, LogStore, StoreError, BYTE_ORDER_MARK,
};
use sch2jn::time::{Retention, Timestamp};
use sch2jn::{log_msg, LOG_FILE_PATH};

fn split_of(t: &DateTime<FixedOffset>) -> Timestamp {
    Timestamp {
        secs: t.timestamp(),
        nanos: t.timestamp_subsec_nanos(),
        offset: t.offset().local_minus_utc(),
    }
}

fn morning() -> DateTime<FixedOffset> {
    FixedOffset::east_opt(2 * 3600).unwrap().with_ymd_and_hms(2024, 5, 10, 9, 30, 15).unwrap()
}

fn right_now() -> Timestamp {
    split_of(&Local::now().fixed_offset())
}

fn stamp_of_line(line: &str) -> DateTime<FixedOffset> {
    let token = line.trim_start_matches(BYTE_ORDER_MARK).split(' ').next().unwrap();
    DateTime::parse_from_rfc3339(token).expect("a line that opens with a timestamp")
}

#[test]
fn the_log_lies_below_logs() {
    assert_eq!(LOG_FILE_PATH, "logs/log.txt");
}

#[test]
fn the_byte_order_mark_is_u_feff() {
    assert_eq!(BYTE_ORDER_MARK, '\u{feff}');
    assert_eq!(BYTE_ORDER_MARK.to_string().as_bytes(), [0xEF, 0xBB, 0xBF]);
}

#[test]
fn an_entry_is_stamp_marker_message_and_line_feed() {
    assert_eq!(
        format_entry("2024-05-10T09:30:15+02:00", "🔔", "msg with  spaces"),
        "2024-05-10T09:30:15+02:00 🔔 msg with  spaces\n"
    );
    assert_eq!(format_entry("", "", ""), "  \n");
}

#[test]
fn an_entry_is_written_with_the_time_as_chrono_writes_it() {
    let entry = LogEntry::new(split_of(&morning()), "🔔", "msg");
    assert_eq!(entry.to_line(), Ok("2024-05-10T09:30:15+02:00 🔔 msg\n".to_string()));
    assert_eq!(entry.to_console(), "🔔 msg");
}

#[test]
fn an_entry_keeps_its_nanoseconds_and_its_offset() {
    let at = Timestamp { secs: 1_000_000_000, nanos: 123_456_789, offset: -8 * 3600 };
    let line = LogEntry::new(at, "x", "y").to_line().unwrap();
    assert_eq!(line, "2001-09-08T17:46:40.123456789-08:00 x y\n");
    assert_eq!(split_of(&stamp_of_line(&line)), at);
}

#[test]
fn an_entry_in_a_leap_second_is_written_as_second_sixty() {
    let at = Timestamp { secs: 1_435_708_799, nanos: 1_500_000_000, offset: 0 };
    assert_eq!(
        LogEntry::new(at, "x", "y").to_line(),
        Ok("2015-06-30T23:59:60.500+00:00 x y\n".to_string())
    );
}

#[test]
fn an_entry_outside_the_calendar_is_refused() {
    let never = LogEntry::new(Timestamp { secs: i64::MAX, nanos: 0, offset: 0 }, "x", "y");
    assert_eq!(never.to_line(), Err(StoreError::TimestampOutOfRange));
    assert_eq!(next_write(0, &never), Err(StoreError::TimestampOutOfRange));
    let mut store = LogStore::new();
    assert_eq!(store.append_entry(&never), Err(StoreError::TimestampOutOfRange));
    assert_eq!(store.contents(), None);
}

#[test]
fn an_entry_with_an_impossible_offset_is_refused() {
    let day_off = LogEntry::new(Timestamp { secs: 0, nanos: 0, offset: 86_400 }, "x", "y");
    assert_eq!(day_off.to_line(), Err(StoreError::TimestampOutOfRange));
    let nearly = LogEntry::new(Timestamp { secs: 0, nanos: 0, offset: 86_340 }, "x", "y");
    assert_eq!(nearly.to_line(), Ok("1970-01-01T23:59:00+23:59 x y\n".to_string()));
    let west = LogEntry::new(Timestamp { secs: 0, nanos: 0, offset: -86_400 }, "x", "y");
    assert_eq!(west.to_line(), Err(StoreError::TimestampOutOfRange));
}

#[test]
fn an_entry_with_too_many_nanoseconds_is_refused() {
    let entry = LogEntry::new(Timestamp { secs: 59, nanos: 2_000_000_000, offset: 0 }, "x", "y");
    assert_eq!(entry.to_line(), Err(StoreError::TimestampOutOfRange));
    let no_leap = LogEntry::new(Timestamp { secs: 58, nanos: 1_000_000_000, offset: 0 }, "x", "y");
    assert_eq!(no_leap.to_line(), Err(StoreError::TimestampOutOfRange));
}

#[test]
fn a_fresh_file_gets_the_mark_before_its_first_entry() {
    assert_eq!(bytes_to_append(0, "a b c\n"), b"\xEF\xBB\xBFa b c\n".to_vec());
    assert_eq!(bytes_to_append(0, ""), vec![0xEF, 0xBB, 0xBF]);
}

#[test]
fn a_file_with_content_gets_the_entry_alone() {
    assert_eq!(bytes_to_append(1, "a b c\n"), b"a b c\n".to_vec());
    assert_eq!(bytes_to_append(u64::MAX, "a 🔔 c\n"), "a 🔔 c\n".as_bytes().to_vec());
}

#[test]
fn next_write_names_bytes_and_console_line() {
    let entry = LogEntry::new(split_of(&morning()), "🔔", "msg");
    let fresh = next_write(0, &entry).unwrap();
    assert_eq!(fresh.bytes, "\u{feff}2024-05-10T09:30:15+02:00 🔔 msg\n".as_bytes().to_vec());
    assert_eq!(fresh.console, "🔔 msg");
    let later = next_write(77, &entry).unwrap();
    assert_eq!(later.bytes, "2024-05-10T09:30:15+02:00 🔔 msg\n".as_bytes().to_vec());
    assert_eq!(later.console, "🔔 msg");
}

#[test]
fn log_msg_stamps_with_the_current_time() {
    let before = Local::now();
    let write = log_msg(10, "Starting server", "🚀");
    let after = Local::now();
    let line = String::from_utf8(write.bytes).unwrap();
    assert!(line.ends_with(" 🚀 Starting server\n"));
    let stamp = stamp_of_line(&line);
    assert!(before <= stamp && stamp <= after);
    assert_eq!(stamp.offset().local_minus_utc(), before.offset().local_minus_utc());
    assert_eq!(write.console, "🚀 Starting server");
}

#[test]
fn log_msg_marks_a_fresh_file() {
    let write = log_msg(0, "first", "✅");
    assert_eq!(&write.bytes[..3], &[0xEF, 0xBB, 0xBF]);
    let rest = String::from_utf8(write.bytes[3..].to_vec()).unwrap();
    assert!(rest.ends_with(" ✅ first\n"));
    assert!(!rest.contains(BYTE_ORDER_MARK));
}

#[test]
fn a_new_store_has_no_file() {
    assert_eq!(LogStore::new().contents(), None);
}

#[test]
fn a_store_holds_the_text_it_was_given() {
    assert_eq!(LogStore::with_text("a\nb\n").contents(), Some("a\nb\n".to_string()));
    assert_eq!(LogStore::with_text("").contents(), Some(String::new()));
}

#[test]
fn reading_a_missing_file_returns_nothing_and_creates_none() {
    let mut store = LogStore::new();
    assert_eq!(store.read_and_prune(&Retention::default(), &right_now()), "");
    assert_eq!(store.contents(), None);
}

#[test]
fn reading_an_empty_file_returns_nothing_and_leaves_it_empty() {
    let mut store = LogStore::with_text("");
    assert_eq!(store.read_and_prune(&Retention::default(), &right_now()), "");
    assert_eq!(store.contents(), Some(String::new()));
}

#[test]
fn the_first_append_creates_the_file_with_the_mark() {
    let mut store = LogStore::new();
    assert_eq!(store.append_entry(&LogEntry::new(split_of(&morning()), "🔔", "msg")), Ok(()));
    assert_eq!(
        store.contents(),
        Some("\u{feff}2024-05-10T09:30:15+02:00 🔔 msg\n".to_string())
    );
}

#[test]
fn an_append_to_an_empty_file_writes_the_mark() {
    let mut store = LogStore::with_text("");
    store.append_entry(&LogEntry::new(split_of(&morning()), "🔔", "msg")).unwrap();
    assert_eq!(
        store.contents(),
        Some("\u{feff}2024-05-10T09:30:15+02:00 🔔 msg\n".to_string())
    );
}

#[test]
fn the_mark_is_written_once_however_many_appends_follow() {
    let mut store = LogStore::new();
    for i in 0..25 {
        let at = split_of(&(morning() + Duration::seconds(i)));
        store.append_entry(&LogEntry::new(at, "🔔", &format!("entry {}", i))).unwrap();
    }
    let text = store.contents().unwrap();
    assert!(text.starts_with(BYTE_ORDER_MARK));
    assert_eq!(text.matches(BYTE_ORDER_MARK).count(), 1);
    assert_eq!(text.as_bytes().iter().filter(|b| **b == 0xEF).count(), 1);
    assert_eq!(text.lines().count(), 25);
    assert!(text.ends_with("2024-05-10T09:30:39+02:00 🔔 entry 24\n"));
}

#[test]
fn the_file_in_memory_is_what_the_writes_add_up_to() {
    let mut store = LogStore::new();
    let mut disk: Vec<u8> = Vec::new();
    for i in 0..4 {
        let entry = LogEntry::new(split_of(&(morning() + Duration::hours(i))), "📥", "päyload");
        disk.extend(next_write(disk.len() as u64, &entry).unwrap().bytes);
        store.append_entry(&entry).unwrap();
    }
    assert_eq!(store.contents().unwrap().into_bytes(), disk);
}

#[test]
fn an_appended_entry_is_read_back() {
    let mut store = LogStore::new();
    store.append("msg", "🔔");
    let content = store.read_and_prune(&Retention::default(), &right_now());
    assert!(content.contains("msg"));
    assert!(content.contains("🔔"));
    assert!(content.ends_with(" 🔔 msg\n"));
    assert_eq!(store.contents(), Some(content));
}

#[test]
fn a_second_appended_entry_is_read_back_behind_the_first() {
    let mut store = LogStore::new();
    store.append("first", "🔔");
    store.append("second", "📬");
    let content = store.read_and_prune(&Retention::default(), &right_now());
    let lines: Vec<&str> = content.lines().collect();
    assert_eq!(lines.len(), 2);
    assert!(lines[0].starts_with(BYTE_ORDER_MARK));
    assert!(lines[0].ends_with(" 🔔 first"));
    assert!(lines[1].ends_with(" 📬 second"));
    assert!(!lines[1].contains(BYTE_ORDER_MARK));
}

#[test]
fn an_appended_entry_leaves_after_its_window() {
    let mut store = LogStore::with_text("legacy line\n");
    let now = Utc.with_ymd_and_hms(2024, 5, 10, 12, 0, 0).unwrap().fixed_offset();
    store.append_entry(&LogEntry::new(split_of(&now), "🔔", "msg")).unwrap();
    let week = Retention::default();
    let soon = split_of(&(now + Duration::days(7) - Duration::nanoseconds(1)));
    assert_eq!(
        store.read_and_prune(&week, &soon),
        "legacy line\n2024-05-10T12:00:00+00:00 🔔 msg\n"
    );
    let late = split_of(&(now + Duration::days(7)));
    assert_eq!(store.read_and_prune(&week, &late), "legacy line\n");
    assert_eq!(store.contents(), Some("legacy line\n".to_string()));
}

#[test]
fn a_read_returns_what_it_leaves_in_the_file() {
    let mut store = LogStore::with_text("2000-01-01T00:00:00Z x old\nkeep me\r\nlast");
    let content = store.read_and_prune(&Retention::default(), &right_now());
    assert_eq!(content, "keep me\nlast\n");
    assert_eq!(store.contents(), Some(content));
}

#[test]
fn a_second_read_at_the_same_time_returns_the_same() {
    let now = split_of(&morning());
    let mut store = LogStore::with_text(
        "2024-05-01T00:00:00Z x old\n2024-05-09T00:00:00Z x new\nno stamp\n\n",
    );
    let first = store.read_and_prune(&Retention::default(), &now);
    let file = store.contents();
    let second = store.read_and_prune(&Retention::default(), &now);
    assert_eq!(first, "2024-05-09T00:00:00Z x new\nno stamp\n\n");
    assert_eq!(second, first);
    assert_eq!(store.contents(), file);
}

#[test]
fn the_first_entry_of_a_file_outlives_its_window() {
    let mut store = LogStore::new();
    let then = Utc.with_ymd_and_hms(2020, 1, 1, 0, 0, 0).unwrap().fixed_offset();
    store.append_entry(&LogEntry::new(split_of(&then), "🔔", "first")).unwrap();
    store.append_entry(&LogEntry::new(split_of(&then), "🔔", "second")).unwrap();
    assert_eq!(
        store.read_and_prune(&Retention::default(), &right_now()),
        "\u{feff}2020-01-01T00:00:00+00:00 🔔 first\n"
    );
}

#[test]
fn clearing_empties_the_file() {
    let mut store = LogStore::with_text("a\nb\n");
    store.clear();
    assert_eq!(store.contents(), Some(String::new()));
    assert_eq!(store.read_and_prune(&Retention::default(), &right_now()), "");
}

#[test]
fn clearing_creates_the_file() {
    let mut store = LogStore::new();
    store.clear();
    assert_eq!(store.contents(), Some(String::new()));
}

#[test]
fn the_mark_is_written_again_after_clearing() {
    let mut store = LogStore::new();
    store.append_entry(&LogEntry::new(split_of(&morning()), "🔔", "one")).unwrap();
    store.clear();
    store.append_entry(&LogEntry::new(split_of(&morning()), "🧹", "Logs cleared.")).unwrap();
    assert_eq!(
        store.contents(),
        Some("\u{feff}2024-05-10T09:30:15+02:00 🧹 Logs cleared.\n".to_string())
    );
}

#[test]
fn a_message_with_a_line_feed_makes_two_lines() {
    let mut store = LogStore::with_text("head\n");
    let now = Utc.with_ymd_and_hms(2024, 5, 10, 12, 0, 0).unwrap().fixed_offset();
    store.append_entry(&LogEntry::new(split_of(&now), "🔔", "one\n2000-01-01T00:00:00Z two")).unwrap();
    assert_eq!(
        store.read_and_prune(&Retention::default(), &split_of(&now)),
        "head\n2024-05-10T12:00:00+00:00 🔔 one\n"
    );
}

fn triples_in(bytes: &[u8]) -> usize {
    bytes.windows(3).filter(|w| *w == [0xEF, 0xBB, 0xBF]).count()
}

#[test]
fn a_stamp_is_one_word_in_visible_ascii() {
    for (secs, nanos, offset) in [
        (0i64, 0u32, 0i32),
        (1_715_342_400, 123_456_789, 7200),
        (1_715_342_400, 1_000, -34_200),
        (1_435_708_799, 1_999_999_999, 0),
        (-1, 999_000_000, 86_399),
        (-62_167_219_200, 0, -86_399),
        (-62_167_219_201, 0, 0),
        (253_402_300_800, 0, 0),
        (8_210_266_876_799, 999_999_999, 86_399),
        (-8_334_601_228_800, 0, -86_399),
        (1_000_000_000, 0, 31),
    ] {
        let line = LogEntry::new(Timestamp { secs, nanos, offset }, "", "").to_line().unwrap();
        let stamp = line.strip_suffix("  \n").unwrap();
        assert!(!stamp.is_empty());
        assert!(stamp.chars().all(|c| ('!'..='~').contains(&c)), "{:?}", stamp);
        assert!(stamp.chars().all(|c| c.is_ascii_digit() || "+-:.T".contains(c)), "{:?}", stamp);
    }
}

#[test]
fn the_mark_stands_once_on_disk_after_many_writes() {
    let mut disk: Vec<u8> = Vec::new();
    for i in 0..40 {
        let write = log_msg(disk.len() as u64, &format!("ï»¿ entry \u{fefe} {} \u{ffef}", i), "\u{bbbf}🔔");
        disk.extend(write.bytes);
        assert_eq!(&disk[..3], &[0xEF, 0xBB, 0xBF]);
        assert_eq!(triples_in(&disk), 1);
    }
    assert_eq!(String::from_utf8(disk).unwrap().lines().count(), 40);
}

#[test]
fn a_message_with_the_mark_spells_it_again() {
    let write = log_msg(0, "\u{feff}", "x");
    assert_eq!(triples_in(&write.bytes), 2);
}

#[test]
fn a_file_without_the_mark_gets_none_later() {
    let write = log_msg(5, "msg", "x");
    assert_eq!(triples_in(&write.bytes), 0);
}

#[test]
fn a_stamp_from_a_clock_with_odd_seconds_reads_back_half_a_minute_off() {
    let at = Timestamp { secs: 1_715_342_400, nanos: 0, offset: 31 };
    let line = LogEntry::new(at, "x", "y").to_line().unwrap();
    assert_eq!(line, "2024-05-10T12:00:31+00:01 x y\n");
    let read = split_of(&stamp_of_line(&line));
    assert_eq!(read, Timestamp { secs: 1_715_342_400 - 29, nanos: 0, offset: 60 });
    let mut store = LogStore::with_text("head\n");
    store.append_entry(&LogEntry::new(at, "x", "y")).unwrap();
    let window = Retention::seconds(20);
    let now = Timestamp { secs: 1_715_342_400 + 10, nanos: 0, offset: 0 };
    assert!(window.is_within(&now, &at));
    assert_eq!(store.read_and_prune(&window, &now), "head\n");
}

#[test]
fn a_stamp_from_a_clock_on_the_minute_reads_back_as_it_was() {
    for offset in [0, 60, -60, 3600, 19_800, -34_200, 86_340, -86_340] {
        for (secs, nanos) in [(0i64, 0u32), (1_715_342_400, 123_456_789), (1_435_708_799, 1_500_000_000)] {
            let at = Timestamp { secs, nanos, offset };
            let line = LogEntry::new(at, "x", "y").to_line().unwrap();
            assert_eq!(split_of(&stamp_of_line(&line)), at);
        }
    }
}
