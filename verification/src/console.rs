//! What appears on the console: coloured job names, and lines behind a timestamp.
use crate::text::{pad_right, trim};
use vstd::prelude::*;

verus! {

/// How a timestamp is laid out, in the notation of the `time` crate.
pub const TIMESTAMP_FORMAT: &'static str =
    "[year]-[month]-[day]T[hour]:[minute]:[second].[subsecond digits:3][offset_hour sign:mandatory]:[offset_minute]";

/// The width that a timestamp is filled up to.
pub const TIMESTAMP_WIDTH: usize = 29;

/// The escape sequence that ends a style.
pub open spec fn reset() -> Seq<char> {
    "\x1b[0m"@
}

/// The escape sequence that begins the foreground colour with the number `code`.
pub open spec fn style(code: Seq<char>) -> Seq<char> {
    "\x1b["@ + code + "m"@
}

/// `s` with `begin` behind every sequence in it that ends a style.
pub open spec fn restyled(s: Seq<char>, begin: Seq<char>) -> Seq<char>
    decreases s.len(),
{
    if s.len() < 4 {
        s
    } else if s.take(4) == reset() {
        reset() + begin + restyled(s.skip(4), begin)
    } else {
        seq![s.first()] + restyled(s.drop_first(), begin)
    }
}

/// `s` in the foreground colour with the number `code`.
pub open spec fn paint(code: Seq<char>, s: Seq<char>) -> Seq<char> {
    style(code) + restyled(s, style(code)) + reset()
}

/// `s` as it is shown with the foreground colour with the number `code`: in it where the console
/// is coloured, plain where it is not.
pub open spec fn shown(colors: bool, code: Seq<char>, s: Seq<char>) -> Seq<char> {
    if colors {
        paint(code, s)
    } else {
        s
    }
}

/// `r` is `s` as it is shown with the foreground colour with the number `code`, for some setting
/// of the console.
pub open spec fn painted(r: Seq<char>, code: Seq<char>, s: Seq<char>) -> bool {
    exists|colors: bool| r == #[trigger] shown(colors, code, s)
}

/// `colored::Colorize::bright_black` and the text of its result: the text with foreground 90,
/// taken up again behind every reset sequence in it, or unchanged where the process is not to
/// colour its output. Which of the two holds is up to the environment and to the switch in
/// `colored::control`, and is left open. The switch is taken to stay as it is during a call.
#[verifier::external_body]
fn bright_black(s: &str) -> (r: String)
    ensures
        painted(r@, "90"@, s@),
{
    colored::Colorize::bright_black(s).to_string()
}

/// `colored::Colorize::bright_green` and the text of its result: as `bright_black`, with
/// foreground 92.
#[verifier::external_body]
fn bright_green(s: &str) -> (r: String)
    ensures
        painted(r@, "92"@, s@),
{
    colored::Colorize::bright_green(s).to_string()
}

/// `colored::Colorize::bright_yellow` and the text of its result: as `bright_black`, with
/// foreground 93.
#[verifier::external_body]
fn bright_yellow(s: &str) -> (r: String)
    ensures
        painted(r@, "93"@, s@),
{
    colored::Colorize::bright_yellow(s).to_string()
}

/// `colored::Colorize::bright_blue` and the text of its result: as `bright_black`, with
/// foreground 94.
#[verifier::external_body]
fn bright_blue(s: &str) -> (r: String)
    ensures
        painted(r@, "94"@, s@),
{
    colored::Colorize::bright_blue(s).to_string()
}

/// `colored::Colorize::bright_magenta` and the text of its result: as `bright_black`, with
/// foreground 95.
#[verifier::external_body]
fn bright_magenta(s: &str) -> (r: String)
    ensures
        painted(r@, "95"@, s@),
{
    colored::Colorize::bright_magenta(s).to_string()
}

/// `colored::Colorize::bright_purple` and the text of its result: as `bright_black`, with
/// foreground 95, which is that of magenta too.
#[verifier::external_body]
fn bright_purple(s: &str) -> (r: String)
    ensures
        painted(r@, "95"@, s@),
{
    colored::Colorize::bright_purple(s).to_string()
}

/// `colored::Colorize::bright_cyan` and the text of its result: as `bright_black`, with
/// foreground 96.
#[verifier::external_body]
fn bright_cyan(s: &str) -> (r: String)
    ensures
        painted(r@, "96"@, s@),
{
    colored::Colorize::bright_cyan(s).to_string()
}

/// The colours that are in use.
#[derive(Debug, Clone, Copy, PartialEq, Eq, Structural)]
pub enum Tint {
    BrightBlack,
    BrightPurple,
    BrightGreen,
    BrightYellow,
    BrightBlue,
    BrightMagenta,
    BrightCyan,
}

/// `r` is what came of putting `s` in the colour `tint`, under the setting that the console had.
pub closed spec fn applied(tint: Tint, s: &str, r: String) -> bool {
    match tint {
        Tint::BrightBlack => call_ensures(bright_black, (s,), r),
        Tint::BrightPurple => call_ensures(bright_purple, (s,), r),
        Tint::BrightGreen => call_ensures(bright_green, (s,), r),
        Tint::BrightYellow => call_ensures(bright_yellow, (s,), r),
        Tint::BrightBlue => call_ensures(bright_blue, (s,), r),
        Tint::BrightMagenta => call_ensures(bright_magenta, (s,), r),
        Tint::BrightCyan => call_ensures(bright_cyan, (s,), r),
    }
}

/// `r` is the text that came of putting the text `s` in the colour `tint`, under the setting that
/// the console had. This cannot be said of a text that was never given to the colour, not even
/// where the setting would leave it plain.
pub open spec fn coloured(tint: Tint, s: Seq<char>, r: Seq<char>) -> bool {
    exists|a: &str, b: String| a@ == s && b@ == r && #[trigger] applied(tint, a, b)
}

impl Tint {
    /// The number of the colour.
    pub open spec fn code(self) -> Seq<char> {
        match self {
            Tint::BrightBlack => "90"@,
            Tint::BrightPurple => "95"@,
            Tint::BrightGreen => "92"@,
            Tint::BrightYellow => "93"@,
            Tint::BrightBlue => "94"@,
            Tint::BrightMagenta => "95"@,
            Tint::BrightCyan => "96"@,
        }
    }

    /// `s` in this colour, or plain where the console is not to be coloured. Which of the two
    /// holds is up to the environment.
    pub fn apply(self, s: &str) -> (r: String)
        ensures
            painted(r@, self.code(), s@),
            coloured(self, s@, r@),
    {
        let r = match self {
            Tint::BrightBlack => bright_black(s),
            Tint::BrightPurple => bright_purple(s),
            Tint::BrightGreen => bright_green(s),
            Tint::BrightYellow => bright_yellow(s),
            Tint::BrightBlue => bright_blue(s),
            Tint::BrightMagenta => bright_magenta(s),
            Tint::BrightCyan => bright_cyan(s),
        };
        assert(applied(self, s, r));
        r
    }
}

/// The colour of the job at position `index` of its set.
pub open spec fn job_tint(index: int) -> Tint {
    if index % 6 == 0 {
        Tint::BrightPurple
    } else if index % 6 == 1 {
        Tint::BrightGreen
    } else if index % 6 == 2 {
        Tint::BrightYellow
    } else if index % 6 == 3 {
        Tint::BrightBlue
    } else if index % 6 == 4 {
        Tint::BrightMagenta
    } else {
        Tint::BrightCyan
    }
}

/// The colour of the job at position `index` of its set.
pub fn name_tint(index: usize) -> (r: Tint)
    ensures
        r == job_tint(index as int),
{
    match index % 6 {
        0 => Tint::BrightPurple,
        1 => Tint::BrightGreen,
        2 => Tint::BrightYellow,
        3 => Tint::BrightBlue,
        4 => Tint::BrightMagenta,
        _ => Tint::BrightCyan,
    }
}

/// The name of the job at position `index` of its set, in the colour of that position, or plain
/// where the console is not to be coloured. Which of the two holds is up to the environment.
pub fn colored_name(name: &str, index: usize) -> (r: String)
    ensures
        painted(r@, job_tint(index as int).code(), name@),
        coloured(job_tint(index as int), name@, r@),
{
    name_tint(index).apply(name)
}

/// A point in local time, by its parts. The parts of the offset from UTC have one sign.
#[derive(Debug, Clone, Copy)]
pub struct TimeParts {
    pub year: i32,
    pub month: u8,
    pub day: u8,
    pub hour: u8,
    pub minute: u8,
    pub second: u8,
    pub nanosecond: u32,
    pub offset_hours: i8,
    pub offset_minutes: i8,
    pub offset_seconds: i8,
}

/// Whether `year` has a 29th of February.
pub open spec fn leap_year(year: int) -> bool {
    year % 4 == 0 && (year % 100 != 0 || year % 400 == 0)
}

/// How many days a month has.
pub open spec fn days_in_month(year: int, month: int) -> int {
    if month == 2 {
        if leap_year(year) {
            29
        } else {
            28
        }
    } else if month == 4 || month == 6 || month == 9 || month == 11 {
        30
    } else {
        31
    }
}

/// `n` in exactly `width` decimal digits, of its last `width` ones.
pub open spec fn digits(n: int, width: nat) -> Seq<char>
    decreases width,
{
    if width == 0 {
        Seq::empty()
    } else {
        digits(n / 10, (width - 1) as nat).push("0123456789"@[n % 10])
    }
}

/// The absolute value of `n`.
pub open spec fn magnitude(n: int) -> int {
    if n < 0 {
        -n
    } else {
        n
    }
}

impl TimeParts {
    /// The parts are those of a day in the calendar, between the years -9999 and 9999, of a
    /// time of day and of an offset.
    pub open spec fn valid(&self) -> bool {
        &&& -9999 <= self.year <= 9999
        &&& 1 <= self.month <= 12
        &&& 1 <= self.day <= days_in_month(self.year as int, self.month as int)
        &&& self.hour < 24
        &&& self.minute < 60
        &&& self.second < 60
        &&& self.nanosecond < 1_000_000_000
        &&& -25 <= self.offset_hours <= 25
        &&& -60 < self.offset_minutes < 60
        &&& -60 < self.offset_seconds < 60
        &&& self.west() ==> self.offset_hours <= 0 && self.offset_minutes <= 0
            && self.offset_seconds <= 0
    }

    /// The offset lies behind UTC.
    pub open spec fn west(&self) -> bool {
        self.offset_hours < 0 || self.offset_minutes < 0 || self.offset_seconds < 0
    }

    /// The time as text: date, time of day to the millisecond, offset to the minute.
    pub open spec fn timestamp(&self) -> Seq<char> {
        (if self.year < 0 {
            "-"@
        } else {
            Seq::empty()
        }) + digits(magnitude(self.year as int), 4) + "-"@ + digits(self.month as int, 2) + "-"@
            + digits(self.day as int, 2) + "T"@ + digits(self.hour as int, 2) + ":"@ + digits(
            self.minute as int,
            2,
        ) + ":"@ + digits(self.second as int, 2) + "."@ + digits(
            self.nanosecond as int / 1_000_000,
            3,
        ) + (if self.west() {
            "-"@
        } else {
            "+"@
        }) + digits(magnitude(self.offset_hours as int), 2) + ":"@ + digits(
            magnitude(self.offset_minutes as int),
            2,
        )
    }

    /// Whether the parts are those of a point in time.
    pub fn is_valid(&self) -> (r: bool)
        ensures
            r == self.valid(),
    {
        let leap = self.year % 4 == 0 && (self.year % 100 != 0 || self.year % 400 == 0);
        let days: u8 = if self.month == 2 {
            if leap {
                29
            } else {
                28
            }
        } else if self.month == 4 || self.month == 6 || self.month == 9 || self.month == 11 {
            30
        } else {
            31
        };
        let west = self.offset_hours < 0 || self.offset_minutes < 0 || self.offset_seconds < 0;
        -9999 <= self.year && self.year <= 9999 && 1 <= self.month && self.month <= 12 && 1
            <= self.day && self.day <= days && self.hour < 24 && self.minute < 60 && self.second
            < 60 && self.nanosecond < 1_000_000_000 && -25 <= self.offset_hours
            && self.offset_hours <= 25 && -60 < self.offset_minutes && self.offset_minutes < 60
            && -60 < self.offset_seconds && self.offset_seconds < 60 && (!west || (
        self.offset_hours <= 0 && self.offset_minutes <= 0 && self.offset_seconds <= 0))
    }
}

/// A point in local time.
#[derive(Debug, Clone, Copy)]
pub struct LocalTime {
    parts: TimeParts,
}

impl View for LocalTime {
    type V = TimeParts;

    closed spec fn view(&self) -> TimeParts {
        self.parts
    }
}

impl LocalTime {
    #[verifier::type_invariant]
    spec fn well_formed(self) -> bool {
        self.parts.valid()
    }

    /// The point in time with these parts, if there is one.
    pub fn new(parts: TimeParts) -> (r: Option<LocalTime>)
        ensures
            r is Some == parts.valid(),
            r is Some ==> r->0@ == parts,
    {
        if parts.is_valid() {
            Some(LocalTime { parts })
        } else {
            None
        }
    }

    /// The time as text.
    pub fn timestamp(&self) -> (r: String)
        ensures
            self@.valid(),
            r@ == self@.timestamp(),
    {
        proof {
            use_type_invariant(self);
        }
        match format_date_time(TIMESTAMP_FORMAT, &self.parts) {
            Some(text) => text,
            None => String::new(),
        }
    }
}

/// `time::OffsetDateTime::format`, on the date and time that `Date::from_calendar_date`,
/// `Time::from_hms_nano`, `UtcOffset::from_hms` and `OffsetDateTime::new_in_offset` make of the
/// parts `t`, with the layout that `format_description::parse_borrowed` reads: under
/// `TIMESTAMP_FORMAT` it gives every part in its own number of digits and always succeeds.
#[verifier::external_body]
fn format_date_time(format: &str, t: &TimeParts) -> (r: Option<String>)
    requires
        format@ == TIMESTAMP_FORMAT@,
        t.valid(),
    ensures
        r is Some,
        r->0@ == t.timestamp(),
{
    let items = time::format_description::parse_borrowed::<1>(format).ok()?;
    let month = time::Month::try_from(t.month).ok()?;
    let date = time::Date::from_calendar_date(t.year, month, t.day).ok()?;
    let clock = time::Time::from_hms_nano(t.hour, t.minute, t.second, t.nanosecond).ok()?;
    let offset =
        time::UtcOffset::from_hms(t.offset_hours, t.offset_minutes, t.offset_seconds).ok()?;
    time::OffsetDateTime::new_in_offset(date, clock, offset).format(&items).ok()
}

/// A line as it goes out.
#[derive(Debug)]
pub enum Print {
    Stdout(String),
    Stderr(String),
}

/// A line as it goes out, by its text.
pub enum PrintView {
    Stdout(Seq<char>),
    Stderr(Seq<char>),
}

impl View for Print {
    type V = PrintView;

    open spec fn view(&self) -> PrintView {
        match self {
            Print::Stdout(text) => PrintView::Stdout(text@),
            Print::Stderr(text) => PrintView::Stderr(text@),
        }
    }
}

/// What a job has to tell.
#[derive(Debug)]
pub enum Report {
    /// A line that goes out behind a timestamp and the name of the job.
    Console { text: String, is_err: bool },
    /// A line that goes out as it is.
    Plain(Print),
}

/// What a job has to tell, by its text.
pub enum ReportView {
    Console { text: Seq<char>, is_err: bool },
    Plain(PrintView),
}

impl View for Report {
    type V = ReportView;

    open spec fn view(&self) -> ReportView {
        match self {
            Report::Console { text, is_err } => ReportView::Console { text: text@, is_err: *is_err },
            Report::Plain(print) => ReportView::Plain(print@),
        }
    }
}

/// The view of a report that may be absent.
pub open spec fn report_view(r: Option<Report>) -> Option<ReportView> {
    match r {
        Some(report) => Some(report@),
        None => None,
    }
}

/// The report of a failure or a step: a console line on the error stream.
pub open spec fn notice(text: Seq<char>) -> ReportView {
    ReportView::Console { text, is_err: true }
}

/// A console line on the error stream.
pub fn format_to_console_err(text: String) -> (r: Report)
    ensures
        r@ == notice(text@),
{
    Report::Console { text, is_err: true }
}

/// A console line: the timestamp in brackets, the name, and the text without the white space
/// around it.
pub open spec fn console_line(stamp: Seq<char>, name: Seq<char>, line: Seq<char>) -> Seq<char> {
    "["@ + stamp + "] "@ + name + ":: "@ + crate::text::trimmed(line)
}

/// The console line for a timestamp that is already coloured.
pub fn console_message(stamp: &str, name: &str, line: &str) -> (r: String)
    ensures
        r@ == console_line(stamp@, name@, line@),
{
    "[".to_owned().concat(stamp).concat("] ").concat(name).concat(":: ").concat(trim(line))
}

/// A line of text, on the stream that it belongs to.
pub open spec fn on_stream(text: Seq<char>, is_err: bool) -> PrintView {
    if is_err {
        PrintView::Stderr(text)
    } else {
        PrintView::Stdout(text)
    }
}

/// `r` is the line that is printed for `line` of the job `name` at the time `now`: behind the
/// timestamp, which is coloured where the console is. Without a time, that is told instead.
pub open spec fn printed(
    r: PrintView,
    name: Seq<char>,
    line: Seq<char>,
    is_err: bool,
    now: Option<TimeParts>,
) -> bool {
    match now {
        Some(t) => {
            let stamp = crate::text::padded(t.timestamp(), TIMESTAMP_WIDTH as nat);
            exists|colors: bool|
                r == on_stream(
                    console_line(
                        #[trigger] shown(colors, Tint::BrightBlack.code(), stamp),
                        name,
                        line,
                    ),
                    is_err,
                ) && coloured(
                    Tint::BrightBlack,
                    stamp,
                    shown(colors, Tint::BrightBlack.code(), stamp),
                )
        },
        None => r == PrintView::Stderr("Failed to get local time"@),
    }
}

/// The parts of a time that may be absent.
pub open spec fn time_view(now: Option<LocalTime>) -> Option<TimeParts> {
    match now {
        Some(t) => Some(t@),
        None => None,
    }
}

/// `time::OffsetDateTime::now_local`, by the parts of its result: the current time and the
/// offset of the local time zone, or none where the offset cannot be told. Every time that it
/// gives has the parts of a point in time; which one is up to the clock and is left open.
#[verifier::external_body]
fn now_local() -> (r: Option<TimeParts>)
    ensures
        r is Some ==> r->0.valid(),
{
    let now = time::OffsetDateTime::now_local().ok()?;
    let (year, month, day) = now.to_calendar_date();
    let (hour, minute, second, nanosecond) = now.to_hms_nano();
    let (offset_hours, offset_minutes, offset_seconds) = now.offset().as_hms();
    let month = u8::from(month);
    Some(TimeParts {
        year, month, day, hour, minute, second, nanosecond,
        offset_hours, offset_minutes, offset_seconds,
    })
}

/// The line that is printed for `line` of the job `name` at the time `now`.
pub fn print_to_console_at(
    name: &str,
    line: &str,
    is_err: bool,
    now: Option<LocalTime>,
) -> (r: Print)
    ensures
        printed(r@, name@, line@, is_err, time_view(now)),
{
    match now {
        Some(t) => {
            let stamp = Tint::BrightBlack.apply(
                pad_right(t.timestamp().as_str(), TIMESTAMP_WIDTH).as_str(),
            );
            let msg = console_message(stamp.as_str(), name, line);
            if is_err {
                Print::Stderr(msg)
            } else {
                Print::Stdout(msg)
            }
        },
        None => Print::Stderr("Failed to get local time".to_owned()),
    }
}

/// `now` is what came of asking the clock for the local time.
pub closed spec fn asked_of_clock(now: Option<TimeParts>) -> bool {
    call_ensures(now_local, (), now)
}

/// `r` is the line that is printed for `line` of the job `name` at the time that the clock gave, or
/// without one where it gave none.
pub open spec fn printed_now(
    r: PrintView,
    name: Seq<char>,
    line: Seq<char>,
    is_err: bool,
) -> bool {
    exists|now: Option<TimeParts>|
        asked_of_clock(now) && (now is Some ==> now->0.valid()) && #[trigger] printed(
            r,
            name,
            line,
            is_err,
            now,
        )
}

/// The line that is printed for `line` of the job `name` now.
pub fn print_to_console(name: &str, line: &str, is_err: bool) -> (r: Print)
    ensures
        printed_now(r@, name@, line@, is_err),
{
    let asked = now_local();
    assert(asked_of_clock(asked));
    let now = match asked {
        Some(parts) => LocalTime::new(parts),
        None => None,
    };
    let r = print_to_console_at(name, line, is_err, now);
    assert(printed(r@, name@, line@, is_err, time_view(now)));
    r
}

/// The line that is printed for a report of the job `name` now.
pub fn print_report(name: &str, report: Report) -> (r: Print)
    ensures
        match report@ {
            ReportView::Plain(print) => r@ == print,
            ReportView::Console { text, is_err } => printed_now(r@, name@, text, is_err),
        },
{
    match report {
        Report::Plain(print) => print,
        Report::Console { text, is_err } => print_to_console(name, text.as_str(), is_err),
    }
}

/// What one read from a process gives to print: the text that was read, unless there was none.
pub fn reprint(buf: String, is_err: bool) -> (r: Option<Report>)
    ensures
        report_view(r) == if buf@.len() > 0 {
            Some(ReportView::Console { text: buf@, is_err })
        } else {
            None
        },
{
    if !buf.as_str().is_empty() {
        Some(Report::Console { text: buf, is_err })
    } else {
        None
    }
}

/// Colours repeat with a period of six positions, and within it only the first and the fifth
/// position share one.
pub proof fn law_job_colors(i: int, j: int)
    requires
        0 <= i,
        0 <= j,
    ensures
        job_tint(i + 6) == job_tint(i),
        job_tint(i).code() == job_tint(j).code() <==> i % 6 == j % 6 || (i % 6 == 0 && j % 6 == 4) || (i % 6
            == 4 && j % 6 == 0),
{
    reveal_strlit("92");
    reveal_strlit("93");
    reveal_strlit("94");
    reveal_strlit("95");
    reveal_strlit("96");
    assert("92"@[1] == '2' && "93"@[1] == '3' && "94"@[1] == '4' && "95"@[1] == '5' && "96"@[1]
        == '6');
}

/// Under one setting of the console, a name is shown alike at positions that are equal modulo
/// six, and where the console is not coloured it is shown as it is.
pub proof fn law_job_names(colors: bool, name: Seq<char>, i: int, j: int)
    requires
        0 <= i,
        0 <= j,
        i % 6 == j % 6,
    ensures
        shown(colors, job_tint(i).code(), name) == shown(colors, job_tint(j).code(), name),
        shown(false, job_tint(i).code(), name) == name,
{
}

/// Text without an escape character is painted by putting it between the two sequences.
pub proof fn law_paint_plain_text(code: Seq<char>, s: Seq<char>)
    requires
        !s.contains('\x1b'),
    ensures
        paint(code, s) == style(code) + s + reset(),
{
    lemma_restyled_plain_text(s, style(code));
}

proof fn lemma_restyled_plain_text(s: Seq<char>, begin: Seq<char>)
    requires
        !s.contains('\x1b'),
    ensures
        restyled(s, begin) == s,
    decreases s.len(),
{
    if s.len() >= 4 {
        reveal_strlit("\x1b[0m");
        assert(s.take(4)[0] == s[0]);
        assert(s.contains(s[0]));
        let t = s.drop_first();
        assert(!t.contains('\x1b')) by {
            if t.contains('\x1b') {
                let k = choose|k: int| 0 <= k < t.len() && t[k] == '\x1b';
                assert(s[k + 1] == '\x1b');
            }
        }
        lemma_restyled_plain_text(t, begin);
        assert(seq![s.first()] + t =~= s);
    }
}

proof fn lemma_digits_len(n: int, width: nat)
    ensures
        digits(n, width).len() == width,
    decreases width,
{
    if width > 0 {
        lemma_digits_len(n / 10, (width - 1) as nat);
    }
}

/// A timestamp is as wide as the column for it, and one character wider before the year 0, so
/// that filling it up never changes it.
pub proof fn law_timestamp_width(t: TimeParts)
    ensures
        t.timestamp().len() == TIMESTAMP_WIDTH + if t.year < 0 {
            1int
        } else {
            0int
        },
        crate::text::padded(t.timestamp(), TIMESTAMP_WIDTH as nat) == t.timestamp(),
{
    reveal_strlit("-");
    reveal_strlit("+");
    reveal_strlit("T");
    reveal_strlit(":");
    reveal_strlit(".");
    lemma_digits_len(magnitude(t.year as int), 4);
    lemma_digits_len(t.month as int, 2);
    lemma_digits_len(t.day as int, 2);
    lemma_digits_len(t.hour as int, 2);
    lemma_digits_len(t.minute as int, 2);
    lemma_digits_len(t.second as int, 2);
    lemma_digits_len(t.nanosecond as int / 1_000_000, 3);
    lemma_digits_len(magnitude(t.offset_hours as int), 2);
    lemma_digits_len(magnitude(t.offset_minutes as int), 2);
}

/// The colours go round in one order: purple, green, yellow, blue, magenta, cyan.
pub proof fn law_colors_go_round(index: usize, r: Tint)
    requires
        call_ensures(name_tint, (index,), r),
    ensures
        index % 6 == 0 ==> r == Tint::BrightPurple,
        index % 6 == 1 ==> r == Tint::BrightGreen,
        index % 6 == 2 ==> r == Tint::BrightYellow,
        index % 6 == 3 ==> r == Tint::BrightBlue,
        index % 6 == 4 ==> r == Tint::BrightMagenta,
        index % 6 == 5 ==> r == Tint::BrightCyan,
        r == job_tint(index as int),
{
}

/// A text in a colour is the text as it is, or the text between the sequence that begins the
/// colour, with its number, and the one that ends it.
pub proof fn law_tint_surrounds(tint: Tint, s: &str, r: String)
    requires
        call_ensures(Tint::apply, (tint, s), r),
        !s@.contains('\x1b'),
    ensures
        r@ == s@ || r@ == "\x1b["@ + (match tint {
            Tint::BrightBlack => "90"@,
            Tint::BrightGreen => "92"@,
            Tint::BrightYellow => "93"@,
            Tint::BrightBlue => "94"@,
            Tint::BrightPurple | Tint::BrightMagenta => "95"@,
            Tint::BrightCyan => "96"@,
        }) + "m"@ + s@ + "\x1b[0m"@,
        coloured(tint, s@, r@),
{
    law_paint_plain_text(tint.code(), s@);
}

/// A name is given the colour of its position, whatever the name is, and is otherwise kept: it is
/// shown as it is, or between the sequences of that colour.
pub proof fn law_name_is_kept(name: &str, index: usize, r: String)
    requires
        call_ensures(colored_name, (name, index), r),
        !name@.contains('\x1b'),
    ensures
        r@ == name@ || r@ == "\x1b["@ + (if index % 6 == 0 || index % 6 == 4 {
            "95"@
        } else if index % 6 == 1 {
            "92"@
        } else if index % 6 == 2 {
            "93"@
        } else if index % 6 == 3 {
            "94"@
        } else {
            "96"@
        }) + "m"@ + name@ + "\x1b[0m"@,
        coloured(
            if index % 6 == 0 {
                Tint::BrightPurple
            } else if index % 6 == 1 {
                Tint::BrightGreen
            } else if index % 6 == 2 {
                Tint::BrightYellow
            } else if index % 6 == 3 {
                Tint::BrightBlue
            } else if index % 6 == 4 {
                Tint::BrightMagenta
            } else {
                Tint::BrightCyan
            },
            name@,
            r@,
        ),
{
    law_paint_plain_text(job_tint(index as int).code(), name@);
}

/// What goes to the console as a failure or a step keeps its text and goes to the error stream.
pub proof fn law_notice_keeps_text(text: String, r: Report)
    requires
        call_ensures(format_to_console_err, (text,), r),
    ensures
        r matches Report::Console { text: told, is_err } && is_err && told@ == text@,
        r@ == notice(text@),
{
}

/// What was read is told unchanged on the stream that it came from, unless it is empty.
pub proof fn law_reprint(buf: String, is_err: bool, r: Option<Report>)
    requires
        call_ensures(reprint, (buf, is_err), r),
    ensures
        r is None <==> buf@.len() == 0,
        r matches Some(report) ==> (report matches Report::Console { text, is_err: stream } && text@
            == buf@ && stream == is_err),
{
}

/// A console line is the timestamp in brackets, the name, and the text between the white space
/// around it.
pub proof fn law_console_message(stamp: &str, name: &str, line: &str, text: &str, r: String)
    requires
        call_ensures(console_message, (stamp, name, line), r),
        call_ensures(trim, (line,), text),
    ensures
        r@ == "["@ + stamp@ + "] "@ + name@ + ":: "@ + text@,
        r@ == console_line(stamp@, name@, line@),
{
}

/// A line is printed on the stream that it belongs to, behind the time, which is plain or in bright
/// black, and the name of the job. Without a time, only that is told, as an error.
pub proof fn law_line_is_printed(
    name: &str,
    line: &str,
    is_err: bool,
    now: Option<LocalTime>,
    text: &str,
    r: Print,
)
    requires
        call_ensures(print_to_console_at, (name, line, is_err, now), r),
        call_ensures(trim, (line,), text),
    ensures
        match now {
            Some(t) => {
                let msg = match r {
                    Print::Stdout(msg) => msg@,
                    Print::Stderr(msg) => msg@,
                };
                let stamp = t@.timestamp();
                (r is Stderr <==> is_err) && (msg == "["@ + stamp + "] "@ + name@ + ":: "@ + text@
                    || msg == "["@ + paint("90"@, stamp) + "] "@ + name@ + ":: "@ + text@)
                    && exists|shown_stamp: Seq<char>| #[trigger]
                    coloured(Tint::BrightBlack, stamp, shown_stamp) && msg == "["@ + shown_stamp
                        + "] "@ + name@ + ":: "@ + text@
            },
            None => r matches Print::Stderr(msg) && msg@ == "Failed to get local time"@,
        },
{
    if let Some(t) = now {
        law_timestamp_width(t@);
    }
}

/// `r` is a line for `text` of the job `name` behind the time that the clock gave, plain or in
/// bright black, on the stream that it belongs to; where the clock gave none, it is that error.
pub open spec fn line_of(r: Print, name: Seq<char>, text: Seq<char>, is_err: bool) -> bool {
    exists|now: Option<TimeParts>| #[trigger]
        asked_of_clock(now) && match now {
            Some(t) => {
                let msg = match r {
                    Print::Stdout(msg) => msg@,
                    Print::Stderr(msg) => msg@,
                };
                let stamp = t.timestamp();
                t.valid() && (r is Stderr <==> is_err) && (msg == "["@ + stamp + "] "@ + name
                    + ":: "@ + text || msg == "["@ + paint("90"@, stamp) + "] "@ + name + ":: "@
                    + text) && exists|shown_stamp: Seq<char>| #[trigger]
                    coloured(Tint::BrightBlack, stamp, shown_stamp) && msg == "["@ + shown_stamp
                        + "] "@ + name + ":: "@ + text
            },
            None => r matches Print::Stderr(msg) && msg@ == "Failed to get local time"@,
        }
}

/// Whatever the time is, a line is printed with its own text, under the name of its job and on the
/// stream that it belongs to.
pub proof fn law_line_is_printed_now(name: &str, line: &str, is_err: bool, text: &str, r: Print)
    requires
        call_ensures(print_to_console, (name, line, is_err), r),
        call_ensures(trim, (line,), text),
    ensures
        line_of(r, name@, text@, is_err),
{
    lemma_printed_now(r, name@, line@, is_err);
}

proof fn lemma_printed_now(r: Print, name: Seq<char>, line: Seq<char>, is_err: bool)
    requires
        printed_now(r@, name, line, is_err),
    ensures
        line_of(r, name, crate::text::trimmed(line), is_err),
{
    let now = choose|now: Option<TimeParts>|
        asked_of_clock(now) && (now is Some ==> now->0.valid()) && #[trigger] printed(
            r@,
            name,
            line,
            is_err,
            now,
        );
    if let Some(t) = now {
        law_timestamp_width(t);
    }
    assert(asked_of_clock(now));
}

/// A report that is to go out as it is does so, and any other goes out as a console line.
pub proof fn law_report_is_printed(name: &str, report: Report, text: &str, line: &str, r: Print)
    requires
        call_ensures(print_report, (name, report), r),
        call_ensures(trim, (line,), text),
    ensures
        match report {
            Report::Plain(Print::Stdout(told)) => r matches Print::Stdout(msg) && msg@ == told@,
            Report::Plain(Print::Stderr(told)) => r matches Print::Stderr(msg) && msg@ == told@,
            Report::Console { text: told, is_err } => told@ == line@ ==> line_of(
                r,
                name@,
                text@,
                is_err,
            ),
        },
{
    if let Report::Console { text: told, is_err } = report {
        lemma_printed_now(r, name@, told@, is_err);
    }
}

/// Parts make a point in time exactly where the day is one of its month, the time one of the day,
/// and the offset one with a single sign.
pub proof fn law_local_time(parts: TimeParts, checked: bool, r: Option<LocalTime>)
    requires
        call_ensures(TimeParts::is_valid, (&parts,), checked),
        call_ensures(LocalTime::new, (parts,), r),
    ensures
        r is Some <==> checked,
        r matches Some(t) ==> t@ == parts,
        checked <==> {
            &&& -9999 <= parts.year <= 9999
            &&& 1 <= parts.month <= 12
            &&& 1 <= parts.day <= if parts.month == 2 {
                if parts.year % 400 == 0 || (parts.year % 4 == 0 && parts.year % 100 != 0) {
                    29int
                } else {
                    28int
                }
            } else if set![4int, 6int, 9int, 11int].contains(parts.month as int) {
                30int
            } else {
                31int
            }
            &&& parts.hour < 24
            &&& parts.minute < 60
            &&& parts.second < 60
            &&& parts.nanosecond < 1_000_000_000
            &&& -25 <= parts.offset_hours <= 25
            &&& -60 < parts.offset_minutes < 60
            &&& -60 < parts.offset_seconds < 60
            &&& (parts.offset_hours >= 0 && parts.offset_minutes >= 0 && parts.offset_seconds >= 0)
                || (parts.offset_hours <= 0 && parts.offset_minutes <= 0 && parts.offset_seconds
                <= 0)
        },
{
}

/// Ten to the power of `n`.
pub open spec fn power_of_ten(n: nat) -> int
    decreases n,
{
    if n == 0 {
        1
    } else {
        10 * power_of_ten((n - 1) as nat)
    }
}

proof fn lemma_digits_read_back(n: int, width: nat)
    requires
        0 <= n < power_of_ten(width),
    ensures
        digits(n, width).len() == width,
        crate::text::number_of(digits(n, width)) == n,
    decreases width,
{
    if width > 0 {
        lemma_digits_read_back(n / 10, (width - 1) as nat);
        crate::text::lemma_digit(n % 10);
        assert(digits(n, width).drop_last() =~= digits(n / 10, (width - 1) as nat));
    }
}

/// A timestamp reads back as the time that it was made of: every part stands in its place, to the
/// millisecond and to the minute of the offset.
pub proof fn law_timestamp_reads_back(t: LocalTime, r: String)
    requires
        call_ensures(LocalTime::timestamp, (&t,), r),
    ensures
        t@.year < 0 ==> r@[0] == '-',
        ({
            let s = if t@.year < 0 {
                r@.skip(1)
            } else {
                r@
            };
            &&& s.len() == 29
            &&& crate::text::number_of(s.subrange(0, 4)) == magnitude(t@.year as int)
            &&& s[4] == '-'
            &&& crate::text::number_of(s.subrange(5, 7)) == t@.month
            &&& s[7] == '-'
            &&& crate::text::number_of(s.subrange(8, 10)) == t@.day
            &&& s[10] == 'T'
            &&& crate::text::number_of(s.subrange(11, 13)) == t@.hour
            &&& s[13] == ':'
            &&& crate::text::number_of(s.subrange(14, 16)) == t@.minute
            &&& s[16] == ':'
            &&& crate::text::number_of(s.subrange(17, 19)) == t@.second
            &&& s[19] == '.'
            &&& crate::text::number_of(s.subrange(20, 23)) == t@.nanosecond as int / 1_000_000
            &&& s[23] == if t@.offset_hours < 0 || t@.offset_minutes < 0 || t@.offset_seconds < 0 {
                '-'
            } else {
                '+'
            }
            &&& crate::text::number_of(s.subrange(24, 26)) == magnitude(t@.offset_hours as int)
            &&& s[26] == ':'
            &&& crate::text::number_of(s.subrange(27, 29)) == magnitude(t@.offset_minutes as int)
        }),
{
    let p = t@;
    reveal_strlit("-");
    reveal_strlit("+");
    reveal_strlit("T");
    reveal_strlit(":");
    reveal_strlit(".");
    reveal_with_fuel(power_of_ten, 5);
    lemma_digits_read_back(magnitude(p.year as int), 4);
    lemma_digits_read_back(p.month as int, 2);
    lemma_digits_read_back(p.day as int, 2);
    lemma_digits_read_back(p.hour as int, 2);
    lemma_digits_read_back(p.minute as int, 2);
    lemma_digits_read_back(p.second as int, 2);
    lemma_digits_read_back(p.nanosecond as int / 1_000_000, 3);
    lemma_digits_read_back(magnitude(p.offset_hours as int), 2);
    lemma_digits_read_back(magnitude(p.offset_minutes as int), 2);
    let s = if p.year < 0 {
        p.timestamp().skip(1)
    } else {
        p.timestamp()
    };
    assert(s.subrange(0, 4) =~= digits(magnitude(p.year as int), 4));
    assert(s.subrange(5, 7) =~= digits(p.month as int, 2));
    assert(s.subrange(8, 10) =~= digits(p.day as int, 2));
    assert(s.subrange(11, 13) =~= digits(p.hour as int, 2));
    assert(s.subrange(14, 16) =~= digits(p.minute as int, 2));
    assert(s.subrange(17, 19) =~= digits(p.second as int, 2));
    assert(s.subrange(20, 23) =~= digits(p.nanosecond as int / 1_000_000, 3));
    assert(s.subrange(24, 26) =~= digits(magnitude(p.offset_hours as int), 2));
    assert(s.subrange(27, 29) =~= digits(magnitude(p.offset_minutes as int), 2));
}

} // verus!
