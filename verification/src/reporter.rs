//! The report: which columns it has, how a sample becomes a line, and the
//! history of the samples written so far.

use vstd::prelude::*;
use vstd::string::*;
use crate::args::Args;
use crate::args::MemoryUnits;
use crate::args::TimeUnits;
use crate::text::decimal;
use crate::text::decimal_string;
use crate::text::field_if;
use crate::text::join_fields;
use crate::text::joined;
use crate::text::seconds_string;
use crate::text::seconds_text;
use crate::text::views;

verus! {

/// The metrics that a report has columns for.
#[derive(Debug, Clone, Copy, PartialEq, Eq)]
pub struct Columns {
    pub memory: bool,
    pub cpu: bool,
    pub disk: bool,
}

impl Columns {
    /// The columns that the settings ask for: each metric that is not switched off.
    pub open spec fn selected(args: Args) -> Columns {
        Columns {
            memory: !args.no_measure_mem,
            cpu: !args.no_measure_cpu,
            disk: !args.no_measure_disk,
        }
    }

    /// The columns that the settings ask for: each metric that is not switched off.
    pub fn from_args(args: &Args) -> (columns: Columns)
        ensures
            columns == Columns::selected(*args),
    {
        Columns {
            memory: !args.no_measure_mem,
            cpu: !args.no_measure_cpu,
            disk: !args.no_measure_disk,
        }
    }
}

/// One sample of the process.
#[derive(Debug, Clone, Copy, PartialEq, Eq)]
pub struct Row {
    /// Milliseconds since the run started.
    pub time: u128,
    /// Resident memory in bytes.
    pub memory: Option<u64>,
    /// CPU usage in percentage points.
    pub cpu: Option<u64>,
    /// Bytes read from disk since the process started.
    pub disk_read: Option<u64>,
    /// Bytes written to disk since the process started.
    pub disk_write: Option<u64>,
}

impl Default for Row {
    fn default() -> (row: Row)
        ensures
            row == (Row { time: 0, memory: None, cpu: None, disk_read: None, disk_write: None }),
    {
        Row { time: 0, memory: None, cpu: None, disk_read: None, disk_write: None }
    }
}

impl Row {
    /// Whether the row marks the start or the end of a run: every metric is
    /// there and is zero.
    pub open spec fn is_bracket(self) -> bool {
        &&& self.memory == Some(0u64)
        &&& self.cpu == Some(0u64)
        &&& self.disk_read == Some(0u64)
        &&& self.disk_write == Some(0u64)
    }

    /// Whether the row has a value for each metric that `columns` has.
    pub open spec fn covers(self, columns: Columns) -> bool {
        &&& columns.cpu ==> self.cpu is Some
        &&& columns.memory ==> self.memory is Some
        &&& columns.disk ==> self.disk_read is Some && self.disk_write is Some
    }

    /// The row of a sample under the given settings: a metric that is switched
    /// off has no value.
    pub open spec fn sampled(
        args: Args,
        time: u128,
        cpu: u64,
        memory: u64,
        disk_read: u64,
        disk_write: u64,
    ) -> Row {
        Row {
            time,
            memory: if args.no_measure_mem {
                None
            } else {
                Some(memory)
            },
            cpu: if args.no_measure_cpu {
                None
            } else {
                Some(cpu)
            },
            disk_read: if args.no_measure_disk {
                None
            } else {
                Some(disk_read)
            },
            disk_write: if args.no_measure_disk {
                None
            } else {
                Some(disk_write)
            },
        }
    }

    /// The row that marks the start or the end of a run at the given time.
    pub open spec fn bracket_at(time: u128) -> Row {
        Row { time, memory: Some(0u64), cpu: Some(0u64), disk_read: Some(0u64), disk_write: Some(0u64) }
    }

    /// The row that marks the start of a run: time 0, every metric zero.
    pub fn start_bracket() -> (row: Row)
        ensures
            row == Row::bracket_at(0),
            row.time == 0,
            row.is_bracket(),
    {
        Row::bracket(0)
    }

    /// The row that marks the end of a run that took `time` milliseconds:
    /// every metric zero.
    pub fn bracket(time: u128) -> (row: Row)
        ensures
            row == Row::bracket_at(time),
            row.time == time,
            row.is_bracket(),
    {
        Row { time, memory: Some(0), cpu: Some(0), disk_read: Some(0), disk_write: Some(0) }
    }

    /// The row of one sample: a metric that the settings switch off is left
    /// out, not set to zero.
    pub fn sample(
        args: &Args,
        time: u128,
        cpu: u64,
        memory: u64,
        disk_read: u64,
        disk_write: u64,
    ) -> (row: Row)
        ensures
            row == Row::sampled(*args, time, cpu, memory, disk_read, disk_write),
    {
        let mut row = Row::default();
        if !args.no_measure_cpu {
            row.cpu = Some(cpu);
        }
        if !args.no_measure_mem {
            row.memory = Some(memory);
        }
        if !args.no_measure_disk {
            row.disk_read = Some(disk_read);
            row.disk_write = Some(disk_write);
        }
        row.time = time;
        row
    }
}

/// The field of a metric: its value in decimal, if the column is on and the
/// row has a value.
pub open spec fn metric_field(on: bool, value: Option<u64>) -> Seq<Seq<char>> {
    match value {
        Some(v) => field_if(on, decimal(v as nat)),
        None => Seq::empty(),
    }
}

/// The memory field: as `metric_field`, the bytes divided down to the unit.
pub open spec fn memory_field(on: bool, units: MemoryUnits, value: Option<u64>) -> Seq<Seq<char>> {
    match value {
        Some(v) => field_if(on, decimal(units.scaled(v as nat))),
        None => Seq::empty(),
    }
}

/// The names of a report's columns, in order.
pub open spec fn header_fields(columns: Columns, time_units: TimeUnits, mem_units: MemoryUnits) -> Seq<
    Seq<char>,
> {
    seq!["time_"@ + time_units.unit_text()] + field_if(columns.cpu, "cpu"@) + field_if(
        columns.memory,
        "memory_"@ + mem_units.unit_text(),
    ) + field_if(columns.disk, "disk_read"@) + field_if(columns.disk, "disk_write"@)
}

/// A time as a report states it: whole milliseconds, or seconds with three
/// decimal places.
pub open spec fn time_text(units: TimeUnits, millis: nat) -> Seq<char> {
    match units {
        TimeUnits::S => seconds_text(millis),
        TimeUnits::Ms => decimal(millis),
    }
}

/// The fields of a row's line, in the order of the header.
pub open spec fn row_fields(
    columns: Columns,
    time_units: TimeUnits,
    mem_units: MemoryUnits,
    row: Row,
) -> Seq<Seq<char>> {
    seq![time_text(time_units, row.time as nat)] + metric_field(columns.cpu, row.cpu)
        + memory_field(columns.memory, mem_units, row.memory) + metric_field(
        columns.disk,
        row.disk_read,
    ) + metric_field(columns.disk, row.disk_write)
}

/// Whether no row is earlier than one before it.
pub open spec fn times_ascend(rows: Seq<Row>) -> bool {
    forall|i: int, j: int| 0 <= i <= j < rows.len() ==> rows[i].time <= rows[j].time
}

/// The header is fixed by the columns and the two units: reports that agree
/// in them have the same header, whatever else their settings and rows are.
pub proof fn lemma_header_fixed_by_columns_and_units(a: Reporter, b: Reporter)
    requires
        a.columns() == b.columns(),
        a.args().time_units == b.args().time_units,
        a.args().mem_units == b.args().mem_units,
    ensures
        a.header_line() == b.header_line(),
{
}

/// A line never has more fields than the header, and has as many where the
/// row has a value for each column. The time always comes first.
pub proof fn lemma_row_fits_header(
    columns: Columns,
    time_units: TimeUnits,
    mem_units: MemoryUnits,
    row: Row,
)
    ensures
        1 <= row_fields(columns, time_units, mem_units, row).len() <= header_fields(
            columns,
            time_units,
            mem_units,
        ).len(),
        row.covers(columns) ==> row_fields(columns, time_units, mem_units, row).len()
            == header_fields(columns, time_units, mem_units).len(),
        row_fields(columns, time_units, mem_units, row)[0] == time_text(
            time_units,
            row.time as nat,
        ),
{
}

/// A sample taken under the settings that the columns come from has a value
/// for exactly the columns of the report; the two rows that mark the start
/// and the end of a run have one for every column.
pub proof fn lemma_rows_cover_columns(
    args: Args,
    time: u128,
    cpu: u64,
    memory: u64,
    disk_read: u64,
    disk_write: u64,
    bracket: Row,
    columns: Columns,
)
    requires
        bracket.is_bracket(),
    ensures
        Row::sampled(args, time, cpu, memory, disk_read, disk_write).covers(
            Columns::selected(args),
        ),
        row_fields(
            Columns::selected(args),
            args.time_units,
            args.mem_units,
            Row::sampled(args, time, cpu, memory, disk_read, disk_write),
        ).len() == header_fields(Columns::selected(args), args.time_units, args.mem_units).len(),
        bracket.covers(columns),
{
}

/// Without the disk column the header names neither disk counter, and the
/// line of a row is the same whatever the row's disk counters are.
pub proof fn lemma_disk_off_hides_counters(
    columns: Columns,
    time_units: TimeUnits,
    mem_units: MemoryUnits,
    row: Row,
    other: Row,
)
    requires
        !columns.disk,
        other.time == row.time,
        other.cpu == row.cpu,
        other.memory == row.memory,
    ensures
        forall|i: int|
            0 <= i < header_fields(columns, time_units, mem_units).len() ==> {
                &&& #[trigger] header_fields(columns, time_units, mem_units)[i] != "disk_read"@
                &&& header_fields(columns, time_units, mem_units)[i] != "disk_write"@
            },
        row_fields(columns, time_units, mem_units, row) == row_fields(
            columns,
            time_units,
            mem_units,
            other,
        ),
{
    reveal_strlit("time_");
    reveal_strlit("cpu");
    reveal_strlit("memory_");
    reveal_strlit("disk_read");
    reveal_strlit("disk_write");
    let header = header_fields(columns, time_units, mem_units);
    assert(("time_"@ + time_units.unit_text())[0] == 't');
    assert(("memory_"@ + mem_units.unit_text())[0] == 'm');
    assert("cpu"@[0] == 'c');
    assert("disk_read"@[0] == 'd');
    assert("disk_write"@[0] == 'd');
    assert forall|i: int| 0 <= i < header.len() implies {
        &&& #[trigger] header[i] != "disk_read"@
        &&& header[i] != "disk_write"@
    } by {
        assert(header[i][0] != 'd');
    }
    assert(row_fields(columns, time_units, mem_units, row) =~= row_fields(
        columns,
        time_units,
        mem_units,
        other,
    ));
}

/// The rows of a run in the order in which they are written: the start
/// bracket, the samples as they were taken, the end bracket.
pub open spec fn rows_of_run(samples: Seq<Row>, elapsed: u128) -> Seq<Row> {
    (Seq::<Row>::empty().push(Row::bracket_at(0)) + samples).push(Row::bracket_at(elapsed))
}

/// A run whose rows are written in that order holds two more rows than
/// samples: the first is the start bracket at time 0, the last the end
/// bracket, and the rows between them are the samples in their order. Its
/// times ascend exactly if those of the samples do and no sample is later
/// than the end of the run.
pub proof fn lemma_run_is_bracketed(samples: Seq<Row>, elapsed: u128)
    ensures
        rows_of_run(samples, elapsed).len() == samples.len() + 2,
        rows_of_run(samples, elapsed).first() == Row::bracket_at(0),
        rows_of_run(samples, elapsed).first().time == 0,
        rows_of_run(samples, elapsed).first().is_bracket(),
        rows_of_run(samples, elapsed).last() == Row::bracket_at(elapsed),
        rows_of_run(samples, elapsed).last().is_bracket(),
        forall|i: int|
            0 <= i < samples.len() ==> #[trigger] rows_of_run(samples, elapsed)[i + 1]
                == samples[i],
        times_ascend(rows_of_run(samples, elapsed)) <==> times_ascend(samples) && forall|i: int|
            0 <= i < samples.len() ==> (#[trigger] samples[i]).time <= elapsed,
{
    let rows = rows_of_run(samples, elapsed);
    let k = samples.len() as int;
    assert forall|i: int| 0 <= i < k implies #[trigger] rows[i + 1] == samples[i] by {}
    if times_ascend(rows) {
        assert forall|i: int, j: int| 0 <= i <= j < k implies samples[i].time
            <= samples[j].time by {
            assert(rows[i + 1].time <= rows[j + 1].time);
        }
        assert forall|i: int| 0 <= i < k implies (#[trigger] samples[i]).time <= elapsed by {
            assert(rows[i + 1].time <= rows[k + 1].time);
        }
    }
    if times_ascend(samples) && forall|i: int|
        0 <= i < k ==> (#[trigger] samples[i]).time <= elapsed {
        assert forall|i: int, j: int| 0 <= i <= j < rows.len() implies rows[i].time
            <= rows[j].time by {
            if i == 0 {
            } else if j == k + 1 {
                if i <= k {
                    assert(rows[(i - 1) + 1] == samples[i - 1]);
                }
            } else {
                assert(rows[(i - 1) + 1] == samples[i - 1]);
                assert(rows[(j - 1) + 1] == samples[j - 1]);
            }
        }
    }
}

/// What a refused report says of the folder that is already there.
pub open spec fn exists_message(report_folder: Seq<char>) -> Seq<char> {
    "Report folder "@ + report_folder + " already exists"@
}

/// The report of one run: its columns, its units and the rows written so far.
pub struct Reporter {
    columns: Columns,
    args: Args,
    rows: Vec<Row>,
}

impl Reporter {
    /// The columns of the report.
    pub closed spec fn columns(&self) -> Columns {
        self.columns
    }

    /// The settings of the run.
    pub closed spec fn args(&self) -> Args {
        self.args
    }

    /// Every row written so far, oldest first.
    pub closed spec fn history(&self) -> Seq<Row> {
        self.rows@
    }

    /// The header line.
    pub open spec fn header_line(&self) -> Seq<char> {
        joined(header_fields(self.columns(), self.args().time_units, self.args().mem_units), ',')
    }

    /// The line of one row.
    pub open spec fn row_line(&self, row: Row) -> Seq<char> {
        joined(row_fields(self.columns(), self.args().time_units, self.args().mem_units, row), ',')
    }

    /// The lines of the report so far: the header, then one line for each row.
    pub open spec fn report_lines(&self) -> Seq<Seq<char>> {
        Seq::new(
            self.history().len() + 1,
            |i: int|
                if i == 0 {
                    self.header_line()
                } else {
                    self.row_line(self.history()[i - 1])
                },
        )
    }

    /// Whether a report that is already there has to be cleared away before
    /// the new one is written.
    pub fn replaces_existing(exists: bool, override_report: bool) -> (replace: bool)
        ensures
            replace == (exists && override_report),
    {
        exists && override_report
    }

    /// Starts a report. `exists` says whether `report_folder` is already
    /// there; such a folder is refused unless `override_report` is set. A new
    /// report holds its header and no row.
    pub fn new(
        report_folder: &str,
        exists: bool,
        override_report: &bool,
        columns: Columns,
        args: Args,
    ) -> (r: Result<Reporter, String>)
        ensures
            r is Err <==> exists && !*override_report,
            r is Err ==> r->Err_0@ == exists_message(report_folder@),
            r is Ok ==> {
                &&& r->Ok_0.columns() == columns
                &&& r->Ok_0.args() == args
                &&& r->Ok_0.history() == Seq::<Row>::empty()
                &&& r->Ok_0.report_lines() == seq![r->Ok_0.header_line()]
            },
    {
        if exists && !*override_report {
            let mut message = String::from_str("Report folder ");
            message.append(report_folder);
            message.append(" already exists");
            return Err(message);
        }
        let reporter = Reporter { columns, args, rows: Vec::new() };
        assert(reporter.report_lines() =~= seq![reporter.header_line()]);
        Ok(reporter)
    }

    /// The header line: the time with its unit, then each column that is on,
    /// the memory with its unit.
    pub fn header(&self) -> (line: String)
        ensures
            line@ == self.header_line(),
    {
        let mut fields: Vec<String> = Vec::new();
        let mut time = String::from_str("time_");
        time.append(self.args.time_units.get_unit().as_str());
        fields.push(time);
        if self.columns.cpu {
            fields.push(String::from_str("cpu"));
        }
        if self.columns.memory {
            let mut memory = String::from_str("memory_");
            memory.append(self.args.mem_units.get_unit().as_str());
            fields.push(memory);
        }
        if self.columns.disk {
            fields.push(String::from_str("disk_read"));
            fields.push(String::from_str("disk_write"));
        }
        assert(views(fields@) =~= header_fields(
            self.columns(),
            self.args().time_units,
            self.args().mem_units,
        ));
        join_fields(&fields)
    }

    /// The rows written so far, oldest first.
    pub fn rows(&self) -> (rows: &Vec<Row>)
        ensures
            rows@ == self.history(),
    {
        &self.rows
    }

    /// Renders one row without recording it.
    pub fn render(&self, row: &Row) -> (line: String)
        ensures
            line@ == self.row_line(*row),
    {
        let mut fields: Vec<String> = Vec::new();
        match self.args.time_units {
            TimeUnits::S => fields.push(seconds_string(row.time)),
            TimeUnits::Ms => fields.push(decimal_string(row.time)),
        }
        if self.columns.cpu {
            if let Some(cpu) = row.cpu {
                fields.push(decimal_string(cpu as u128));
            }
        }
        if self.columns.memory {
            if let Some(memory) = row.memory {
                fields.push(decimal_string(self.args.mem_units.scale(memory) as u128));
            }
        }
        if self.columns.disk {
            if let Some(disk_read) = row.disk_read {
                fields.push(decimal_string(disk_read as u128));
            }
            if let Some(disk_write) = row.disk_write {
                fields.push(decimal_string(disk_write as u128));
            }
        }
        assert(views(fields@) =~= row_fields(
            self.columns(),
            self.args().time_units,
            self.args().mem_units,
            *row,
        ));
        join_fields(&fields)
    }

    /// Records a row and returns its line. The report grows by exactly that
    /// line; the rows stay in ascending order of time exactly if they were so
    /// and the new row is no earlier than the last.
    pub fn write(&mut self, row: Row) -> (line: String)
        ensures
            final(self).columns() == old(self).columns(),
            final(self).args() == old(self).args(),
            final(self).history() == old(self).history().push(row),
            line@ == old(self).row_line(row),
            final(self).report_lines() == old(self).report_lines().push(line@),
            times_ascend(final(self).history()) <==> times_ascend(old(self).history()) && (old(
                self,
            ).history().len() == 0 || old(self).history().last().time <= row.time),
    {
        let line = self.render(&row);
        self.rows.push(row);
        proof {
            assert(final(self).report_lines() =~= old(self).report_lines().push(line@));
            let before = old(self).rows@;
            let after = self.rows@;
            if times_ascend(after) {
                assert forall|i: int, j: int| 0 <= i <= j < before.len() implies before[i].time
                    <= before[j].time by {
                    assert(after[i].time <= after[j].time);
                }
                if before.len() > 0 {
                    assert(after[before.len() - 1].time <= after[before.len() as int].time);
                }
            }
            if times_ascend(before) && (before.len() == 0 || before.last().time <= row.time) {
                assert forall|i: int, j: int| 0 <= i <= j < after.len() implies after[i].time
                    <= after[j].time by {
                    if j < before.len() {
                        assert(before[i].time <= before[j].time);
                    } else if i < before.len() {
                        assert(before[i].time <= before[before.len() - 1].time);
                    }
                }
            }
        }
        line
    }
}

} // verus!
