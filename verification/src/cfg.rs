//! Settings taken from the environment: each function here gets the value
//! of a variable, if it is set, and decides what the run does with it.

use vstd::prelude::*;
use vstd::string::*;
use crate::paths::absolute;
use crate::paths::absolute_path;
use crate::paths::join;
use crate::paths::joined_path;
use crate::text::contains;
use crate::text::decimal;
use crate::text::decimal_string;
use crate::text::field_if;
use crate::text::join_fields;
use crate::text::joined;
use crate::text::occurs_in;
use crate::text::parse_u64;
use crate::text::parsed_u64;
use crate::text::views;

verus! {

/// Where the report goes.
#[derive(Debug, Clone)]
pub enum ReportPath {
    /// A file, by its path.
    PathBuf(String),
    /// The standard output.
    Stdout,
}

impl ReportPath {
    /// The place as text: the path, or `stdout`.
    pub open spec fn text(self) -> Seq<char> {
        match self {
            ReportPath::PathBuf(p) => p@,
            ReportPath::Stdout => "stdout"@,
        }
    }

    /// The place as text: the path, or `stdout`.
    pub fn to_string(&self) -> (text: String)
        ensures
            text@ == self.text(),
    {
        match self {
            ReportPath::PathBuf(p) => p.clone(),
            ReportPath::Stdout => String::from_str("stdout"),
        }
    }
}

/// Six numbers read off the local calendar and clock.
#[derive(Debug, Clone, Copy, PartialEq, Eq)]
pub struct LocalTime {
    pub year: i32,
    pub month: u32,
    pub day: u32,
    pub hour: u32,
    pub minute: u32,
    pub second: u32,
}

impl LocalTime {
    /// Whether the numbers are a moment of the calendar and the clock.
    pub open spec fn is_real(self) -> bool {
        is_moment(self.year, self.month, self.day, self.hour, self.minute, self.second)
    }
}

/// Whether the year has a 29th of February: every fourth year, but of the
/// years that end a century only every fourth. Years are counted through
/// zero and below, so that the year 0 is such a year.
pub open spec fn is_leap_year(year: int) -> bool {
    year % 4 == 0 && (year % 100 != 0 || year % 400 == 0)
}

/// The number of days of a month.
pub open spec fn days_in_month(year: int, month: int) -> int {
    if month == 2 {
        if is_leap_year(year) {
            29
        } else {
            28
        }
    } else if month == 4 || month == 6 || month == 9 || month == 11 {
        30
    } else {
        31
    }
}

/// Whether the six numbers are a moment of the calendar and the clock: a
/// year that chrono can hold, a day that the month has, and a time of day
/// without a leap second.
pub open spec fn is_moment(
    year: i32,
    month: u32,
    day: u32,
    hour: u32,
    minute: u32,
    second: u32,
) -> bool {
    &&& -262143 <= year <= 262142
    &&& 1 <= month <= 12
    &&& 1 <= day <= days_in_month(year as int, month as int)
    &&& hour < 24
    &&& minute < 60
    &&& second < 60
}

/// The text that chrono makes of the given moment in the given format, or
/// nothing where the calendar or the clock has no such moment or chrono
/// refuses the format.
pub uninterp spec fn moment_text(
    year: i32,
    month: u32,
    day: u32,
    hour: u32,
    minute: u32,
    second: u32,
    pattern: Seq<char>,
) -> Option<Seq<char>>;

/// Calls chrono's `NaiveDateTime::format` with `pattern` on the moment that
/// `NaiveDate::from_ymd_opt` and `NaiveDate::and_hms_opt` make of the six
/// numbers, and `DelayedFormat::write_to` on what comes back. Assumed: the
/// text depends on the six numbers and the format alone, and there is none
/// exactly where one of these calls refuses them; the first two refuse
/// exactly what is no moment, and the format `%Y%m%d-%H%M%S.csv` is
/// accepted for every moment.
#[verifier::external_body]
fn format_moment(
    year: i32,
    month: u32,
    day: u32,
    hour: u32,
    minute: u32,
    second: u32,
    pattern: &str,
) -> (name: Option<String>)
    ensures
        name is Some == moment_text(year, month, day, hour, minute, second, pattern@) is Some,
        name is Some ==> Some(name->Some_0@) == moment_text(
            year,
            month,
            day,
            hour,
            minute,
            second,
            pattern@,
        ),
        name is Some ==> is_moment(year, month, day, hour, minute, second),
        is_moment(year, month, day, hour, minute, second) && pattern@ == "%Y%m%d-%H%M%S.csv"@
            ==> name is Some,
{
    let date = chrono::NaiveDate::from_ymd_opt(year, month, day)?;
    let moment = date.and_hms_opt(hour, minute, second)?;
    let mut name = String::new();
    moment.format(pattern).write_to(&mut name).ok()?;
    Some(name)
}

/// The format of the name of a report that is named after a moment: year,
/// month, day, a hyphen, hour, minute, second, and `.csv`.
pub open spec fn report_name_pattern() -> Seq<char> {
    "%Y%m%d-%H%M%S.csv"@
}

/// The name of a report written at the moment `now`, if there is such a
/// moment.
pub open spec fn report_name(now: LocalTime) -> Option<Seq<char>> {
    moment_text(
        now.year,
        now.month,
        now.day,
        now.hour,
        now.minute,
        now.second,
        report_name_pattern(),
    )
}

/// Whether `path` is the place that the variable's value `report` stands
/// for, seen from the directory `cwd`: the standard output for `stdout`, else
/// the file of that name, made absolute.
pub open spec fn is_named_place(path: ReportPath, report: Seq<char>, cwd: Seq<char>) -> bool {
    if report == "stdout"@ {
        path is Stdout
    } else {
        path is PathBuf && path.text() == absolute_path(report, cwd)
    }
}

/// Whether `path` is the file `file_name` in the directory `cwd`.
pub open spec fn is_default_place(path: ReportPath, cwd: Seq<char>, file_name: Seq<char>) -> bool {
    path is PathBuf && path.text() == joined_path(cwd, file_name)
}

/// Whether `path` is where the report goes: the place that the variable
/// names where it is set; else the file named after the moment `now` in the
/// directory `cwd`, and nowhere if there is no such moment.
pub open spec fn is_report_place(
    path: Option<ReportPath>,
    var: Option<String>,
    cwd: Seq<char>,
    now: LocalTime,
) -> bool {
    match var {
        Some(report) => path is Some && is_named_place(path->Some_0, report@, cwd),
        None => match report_name(now) {
            Some(file_name) => path is Some && is_default_place(path->Some_0, cwd, file_name),
            None => path is None,
        },
    }
}

/// The place that the variable's value stands for: the standard output for
/// `stdout`, any other value a file, taken from the directory `cwd` where it
/// is relative.
pub fn named_report_path(report: String, cwd: &str) -> (path: ReportPath)
    ensures
        is_named_place(path, report@, cwd@),
{
    if report == String::from_str("stdout") {
        ReportPath::Stdout
    } else {
        ReportPath::PathBuf(absolute(report, cwd))
    }
}

/// The place of a report that the variable does not name: the file
/// `file_name` in the directory `cwd`.
pub fn default_report_path(cwd: &str, file_name: &str) -> (path: ReportPath)
    ensures
        is_default_place(path, cwd@, file_name@),
{
    ReportPath::PathBuf(join(cwd, file_name))
}

/// Decides where the report goes. With the variable set it is the place
/// that the variable names, whatever `now` is. Without it the report goes to
/// a file in the directory `cwd` named after the moment `now`, in the format
/// `%Y%m%d-%H%M%S.csv`; there is no answer exactly where `now` is no moment
/// of the calendar and the clock.
pub fn get_report_file_path(var: Option<String>, cwd: &str, now: LocalTime) -> (path: Option<
    ReportPath,
>)
    ensures
        is_report_place(path, var, cwd@, now),
        path is None <==> var is None && !now.is_real(),
{
    match var {
        Some(report) => Some(named_report_path(report, cwd)),
        None => {
            match format_moment(
                now.year,
                now.month,
                now.day,
                now.hour,
                now.minute,
                now.second,
                "%Y%m%d-%H%M%S.csv",
            ) {
                Some(file_name) => Some(default_report_path(cwd, file_name.as_str())),
                None => None,
            }
        },
    }
}

/// The polling interval that the variable's value stands for, in
/// milliseconds: the number it holds, or one second.
pub open spec fn polling_interval_of(var: Option<String>) -> u64 {
    match var {
        Some(text) => match parsed_u64(text@) {
            Ok(millis) => millis,
            Err(_) => 1000,
        },
        None => 1000,
    }
}

/// The polling interval in milliseconds: the variable's value where it is a
/// number, else one second.
pub fn get_polling_interval(var: Option<String>) -> (millis: u64)
    ensures
        millis == polling_interval_of(var),
{
    if let Some(text) = var {
        if let Ok(millis) = parse_u64(text.as_str()) {
            return millis;
        }
    }
    1000
}

/// The process that the variable's value names: the number it holds, if it is
/// one of 32 bits.
pub open spec fn pid_of(var: Option<String>) -> Option<u32> {
    match var {
        Some(text) => match parsed_u64(text@) {
            Ok(pid) => if pid <= u32::MAX {
                Some(pid as u32)
            } else {
                None
            },
            Err(_) => None,
        },
        None => None,
    }
}

/// The process to watch, where the variable names one.
pub fn get_pid(var: Option<String>) -> (pid: Option<u32>)
    ensures
        pid == pid_of(var),
{
    if let Some(text) = var {
        if let Ok(pid) = parse_u64(text.as_str()) {
            if pid <= 0xffff_ffff {
                return Some(pid as u32);
            }
        }
    }
    None
}

/// The text in lower case, as `str::to_lowercase` gives it.
pub uninterp spec fn lowercase(text: Seq<char>) -> Seq<char>;

/// `str::to_lowercase` returns the lower-case form of the text, which
/// depends on the text alone.
pub assume_specification[ str::to_lowercase ](text: &str) -> (lower: String)
    ensures
        lower@ == lowercase(text@),
;

/// The divisor that a unit's name in lower case stands for.
pub open spec fn mem_divisor(lower: Seq<char>) -> usize {
    if lower == "mb"@ {
        1048576
    } else if lower == "kb"@ {
        1024
    } else if lower == "b"@ {
        1
    } else {
        1048576
    }
}

/// The divisor for a unit's name in lower case: 1048576 for `mb`, 1024 for
/// `kb`, 1 for `b`; 1048576 for any other.
pub fn mem_units_named(lower: &String) -> (divisor: usize)
    ensures
        divisor == mem_divisor(lower@),
{
    if *lower == String::from_str("mb") {
        return 1048576;
    }
    if *lower == String::from_str("kb") {
        return 1024;
    }
    if *lower == String::from_str("b") {
        return 1;
    }
    1048576
}

/// The divisor for the memory column: that of the unit that the variable
/// names, in either case of letters, or 1048576 where it is not set.
pub fn get_mem_units(var: Option<String>) -> (divisor: usize)
    ensures
        divisor == match var {
            Some(text) => mem_divisor(lowercase(text@)),
            None => 1048576,
        },
{
    if let Some(text) = var {
        let lower = text.as_str().to_lowercase();
        return mem_units_named(&lower);
    }
    1048576
}

/// The unit of the time column.
#[derive(Debug, Clone, Copy, PartialEq, Eq)]
pub enum TimeUnits {
    Seconds,
    Milliseconds,
}

/// The unit that a name in lower case stands for.
pub open spec fn time_unit(lower: Seq<char>) -> TimeUnits {
    if lower == "s"@ {
        TimeUnits::Seconds
    } else {
        TimeUnits::Milliseconds
    }
}

/// The unit for a name in lower case: seconds for `s`, milliseconds for any
/// other.
pub fn time_units_named(lower: &String) -> (unit: TimeUnits)
    ensures
        unit == time_unit(lower@),
{
    if *lower == String::from_str("s") {
        return TimeUnits::Seconds;
    }
    TimeUnits::Milliseconds
}

/// The unit of the time column: the one that the variable names, in either
/// case of letters, or milliseconds where it is not set.
pub fn get_time_units(var: Option<String>) -> (unit: TimeUnits)
    ensures
        unit == match var {
            Some(text) => time_unit(lowercase(text@)),
            None => TimeUnits::Milliseconds,
        },
{
    if let Some(text) = var {
        let lower = text.as_str().to_lowercase();
        return time_units_named(&lower);
    }
    TimeUnits::Milliseconds
}

/// The columns of a report.
#[derive(Debug, Clone, Copy, PartialEq, Eq)]
pub struct Columns {
    pub cpu: bool,
    pub memory: bool,
    pub disk_write: bool,
    pub disk_read: bool,
}

impl Columns {
    /// The fields of a line: the time, then the value of each column that is on.
    pub open spec fn line_fields(
        self,
        time: Seq<char>,
        cpu: u64,
        memory: u64,
        disk_write: u64,
        disk_read: u64,
    ) -> Seq<Seq<char>> {
        seq![time] + field_if(self.cpu, decimal(cpu as nat)) + field_if(
            self.memory,
            decimal(memory as nat),
        ) + field_if(self.disk_write, decimal(disk_write as nat)) + field_if(
            self.disk_read,
            decimal(disk_read as nat),
        )
    }

    /// The names of the columns: the time, then each column that is on.
    pub open spec fn header_fields(self) -> Seq<Seq<char>> {
        seq!["time"@] + field_if(self.cpu, "cpu"@) + field_if(self.memory, "memory"@) + field_if(
            self.disk_write,
            "disk_write"@,
        ) + field_if(self.disk_read, "disk_read"@)
    }

    /// One line of the report. `time` is the time as the line is to state it.
    pub fn new_string(
        &self,
        time: &str,
        cpu: u64,
        memory: u64,
        disk_write: u64,
        disk_read: u64,
    ) -> (line: String)
        ensures
            line@ == joined(self.line_fields(time@, cpu, memory, disk_write, disk_read), ','),
    {
        let mut output: Vec<String> = Vec::new();
        output.push(String::from_str(time));
        if self.cpu {
            output.push(decimal_string(cpu as u128));
        }
        if self.memory {
            output.push(decimal_string(memory as u128));
        }
        if self.disk_write {
            output.push(decimal_string(disk_write as u128));
        }
        if self.disk_read {
            output.push(decimal_string(disk_read as u128));
        }
        assert(views(output@) =~= self.line_fields(time@, cpu, memory, disk_write, disk_read));
        join_fields(&output)
    }

    /// The header of the report.
    pub fn get_header(&self) -> (line: String)
        ensures
            line@ == joined(self.header_fields(), ','),
    {
        let mut output: Vec<String> = Vec::new();
        output.push(String::from_str("time"));
        if self.cpu {
            output.push(String::from_str("cpu"));
        }
        if self.memory {
            output.push(String::from_str("memory"));
        }
        if self.disk_write {
            output.push(String::from_str("disk_write"));
        }
        if self.disk_read {
            output.push(String::from_str("disk_read"));
        }
        assert(views(output@) =~= self.header_fields());
        join_fields(&output)
    }
}

/// The columns that the variable's value asks for: each one whose name stands
/// in it; all of them where it is not set.
pub fn get_columns(var: Option<String>) -> (columns: Columns)
    ensures
        columns == match var {
            Some(track) => Columns {
                cpu: occurs_in("cpu"@, track@),
                memory: occurs_in("memory"@, track@),
                disk_write: occurs_in("disk_write"@, track@),
                disk_read: occurs_in("disk_read"@, track@),
            },
            None => Columns { cpu: true, memory: true, disk_write: true, disk_read: true },
        },
{
    if let Some(track) = var {
        return Columns {
            cpu: contains(track.as_str(), "cpu"),
            memory: contains(track.as_str(), "memory"),
            disk_write: contains(track.as_str(), "disk_write"),
            disk_read: contains(track.as_str(), "disk_read"),
        };
    }
    Columns { cpu: true, memory: true, disk_write: true, disk_read: true }
}

} // verus!
