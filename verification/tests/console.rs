use pa::console::{
    colored_name, console_message, format_to_console_err, name_tint, print_report, print_to_console,
    print_to_console_at, reprint, LocalTime, Print, Report, TimeParts, Tint,
};

fn noon() -> TimeParts {
    TimeParts {
        year: 2024,
        month: 2,
        day: 29,
        hour: 12,
        minute: 3,
        second: 4,
        nanosecond: 56_999_999,
        offset_hours: 9,
        offset_minutes: 30,
        offset_seconds: 0,
    }
}

fn stamp(parts: TimeParts) -> String {
    LocalTime::new(parts).unwrap().timestamp()
}

fn text(print: Print) -> (String, bool) {
    match print {
        Print::Stdout(text) => (text, false),
        Print::Stderr(text) => (text, true),
    }
}

// The switch for colours belongs to the whole process, so one test goes through both of its
// positions.
#[test]
fn colours_follow_the_switch() {
    colored::control::set_override(true);
    let codes = ["95", "92", "93", "94", "95", "96"];
    for index in 0..18usize {
        assert_eq!(
            colored_name("web", index),
            format!("\x1b[{}mweb\x1b[0m", codes[index % 6])
        );
    }
    for index in 0..6usize {
        assert_eq!(colored_name("api", index), colored_name("api", index + 6));
    }
    assert_eq!(colored_name("", 1), "\x1b[92m\x1b[0m");
    // A colour that is reset within the name is taken up again.
    assert_eq!(
        colored_name("a\x1b[0mb\x1b[0m", 3),
        "\x1b[94ma\x1b[0m\x1b[94mb\x1b[0m\x1b[94m\x1b[0m"
    );
    assert_eq!(colored_name("\x1b[0", 2), "\x1b[93m\x1b[0\x1b[0m");
    let now = LocalTime::new(noon());
    let (line, is_err) = text(print_to_console_at("db", "  ready \n", false, now));
    assert_eq!(line, "[\x1b[90m2024-02-29T12:03:04.056+09:30\x1b[0m] db:: ready");
    assert!(!is_err);

    colored::control::set_override(false);
    for index in 0..6usize {
        assert_eq!(colored_name("web", index), "web");
    }
    let (line, is_err) = text(print_to_console_at("db", "down", true, now));
    assert_eq!(line, "[2024-02-29T12:03:04.056+09:30] db:: down");
    assert!(is_err);
    let report = format_to_console_err("Job failed\n".to_string());
    let (line, is_err) = text(print_report("db", report));
    assert!(line == "Failed to get local time" || line.ends_with("] db:: Job failed"));
    assert!(is_err);
    // Unless the local time cannot be told, it is that of the clock.
    let before = time::OffsetDateTime::now_utc().unix_timestamp();
    let (line, is_err) = text(print_to_console("db", " up\n", false));
    let after = time::OffsetDateTime::now_utc().unix_timestamp();
    if line == "Failed to get local time" {
        assert!(is_err);
    } else {
        assert!(!is_err);
        assert_eq!(&line[30..], "] db:: up");
        let format = time::format_description::parse_borrowed::<1>(
            "[year]-[month]-[day]T[hour]:[minute]:[second].[subsecond digits:3][offset_hour sign:mandatory]:[offset_minute]",
        )
        .unwrap();
        let told = time::OffsetDateTime::parse(&line[1..30], &format).unwrap().unix_timestamp();
        assert!(before <= told && told <= after);
    }
    colored::control::unset_override();
}

#[test]
fn positions_have_their_colours() {
    let tints = [
        Tint::BrightPurple,
        Tint::BrightGreen,
        Tint::BrightYellow,
        Tint::BrightBlue,
        Tint::BrightMagenta,
        Tint::BrightCyan,
    ];
    for index in 0..13usize {
        assert_eq!(name_tint(index), tints[index % 6]);
    }
    assert_eq!(name_tint(usize::MAX), tints[usize::MAX % 6]);
}

#[test]
fn no_time_is_told_instead_of_the_line() {
    let (line, is_err) = text(print_to_console_at("db", "ready", false, None));
    assert_eq!(line, "Failed to get local time");
    assert!(is_err);
}

#[test]
fn plain_reports_need_no_time() {
    let report = Report::Plain(Print::Stdout("Job a completed successfully".to_string()));
    let (line, is_err) = text(print_report("a", report));
    assert_eq!(line, "Job a completed successfully");
    assert!(!is_err);
}

#[test]
fn console_lines_hold_stamp_name_and_trimmed_text() {
    assert_eq!(console_message("now", "web", "\tup \r\n"), "[now] web:: up");
    assert_eq!(console_message("", "", " "), "[] :: ");
}

#[test]
fn timestamps_have_fixed_columns() {
    assert_eq!(stamp(noon()), "2024-02-29T12:03:04.056+09:30");
    let early = TimeParts {
        year: 7,
        month: 1,
        day: 2,
        hour: 0,
        minute: 0,
        second: 0,
        nanosecond: 999_999,
        offset_hours: 0,
        offset_minutes: -30,
        offset_seconds: -1,
    };
    assert_eq!(stamp(early), "0007-01-02T00:00:00.000-00:30");
    let before = TimeParts { year: -44, month: 3, day: 15, offset_minutes: 0, offset_seconds: 0, ..early };
    assert_eq!(stamp(before), "-0044-03-15T00:00:00.000+00:00");
    let late = TimeParts {
        year: 9999,
        month: 12,
        day: 31,
        hour: 23,
        minute: 59,
        second: 59,
        nanosecond: 999_999_999,
        offset_hours: -25,
        offset_minutes: -59,
        offset_seconds: -59,
    };
    assert_eq!(stamp(late), "9999-12-31T23:59:59.999-25:59");
    let behind = TimeParts { year: -9999, offset_hours: 0, offset_minutes: 0, offset_seconds: -1, ..late };
    assert_eq!(stamp(behind), "-9999-12-31T23:59:59.999-00:00");
}

#[test]
fn timestamps_are_as_wide_as_their_column() {
    assert_eq!(stamp(noon()).len(), 29);
    assert_eq!(stamp(TimeParts { year: -1, ..noon() }.with_day(28)).len(), 30);
}

trait WithDay {
    fn with_day(self, day: u8) -> TimeParts;
}

impl WithDay for TimeParts {
    fn with_day(self, day: u8) -> TimeParts {
        TimeParts { day, ..self }
    }
}

#[test]
fn days_are_those_of_the_time_crate() {
    for year in [-9999, -401, -400, -100, -4, -1, 0, 1, 4, 100, 400, 1900, 2000, 2023, 2024, 9999] {
        for month in 1..=12u8 {
            for day in 0..=32u8 {
                let parts = TimeParts { year, month, day, ..noon() };
                let known = time::Date::from_calendar_date(
                    year,
                    time::Month::try_from(month).unwrap(),
                    day,
                );
                assert_eq!(LocalTime::new(parts).is_some(), known.is_ok());
            }
        }
    }
}

#[test]
fn parts_out_of_range_are_no_time() {
    assert!(LocalTime::new(TimeParts { year: 10_000, ..noon() }).is_none());
    assert!(LocalTime::new(TimeParts { year: -10_000, ..noon() }).is_none());
    assert!(LocalTime::new(TimeParts { month: 0, ..noon() }).is_none());
    assert!(LocalTime::new(TimeParts { month: 13, ..noon() }).is_none());
    assert!(LocalTime::new(TimeParts { hour: 24, ..noon() }).is_none());
    assert!(LocalTime::new(TimeParts { minute: 60, ..noon() }).is_none());
    assert!(LocalTime::new(TimeParts { second: 60, ..noon() }).is_none());
    assert!(LocalTime::new(TimeParts { nanosecond: 1_000_000_000, ..noon() }).is_none());
    assert!(LocalTime::new(TimeParts { offset_hours: 26, ..noon() }).is_none());
    assert!(LocalTime::new(TimeParts { offset_hours: -9, ..noon() }).is_none());
    assert!(LocalTime::new(TimeParts { offset_minutes: 60, ..noon() }).is_none());
    assert!(LocalTime::new(TimeParts { offset_seconds: -1, ..noon() }).is_none());
}

#[test]
fn empty_reads_are_not_printed() {
    assert!(reprint(String::new(), false).is_none());
    match reprint("\n".to_string(), true) {
        Some(Report::Console { text, is_err }) => {
            assert_eq!(text, "\n");
            assert!(is_err);
        }
        _ => panic!("a read of one line break is printed"),
    }
    assert!(matches!(
        reprint("x".to_string(), false),
        Some(Report::Console { is_err: false, .. })
    ));
}
