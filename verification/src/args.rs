//! The settings of a run, and the units in which a report states memory and time.

use vstd::prelude::*;
use vstd::string::*;
use crate::paths::absolute;
use crate::paths::absolute_path;
use crate::text::parse_u64;
use crate::text::parsed_u64;
use crate::text::NumberError;

verus! {

/// The settings of one run. They are fixed before the run starts.
#[derive(Debug, Clone)]
pub struct Args {
    /// The command to run, followed by its arguments.
    pub command: Vec<String>,
    /// The directory that receives the report and the chart.
    pub report_path: String,
    /// The pause between two samples, in milliseconds.
    pub poll_interval: u64,
    /// The unit in which the report states memory.
    pub mem_units: MemoryUnits,
    /// The unit in which the report states time.
    pub time_units: TimeUnits,
    /// Refuse to replace a report that is already there.
    pub no_override_report: bool,
    /// Leave the CPU usage out.
    pub no_measure_cpu: bool,
    /// Leave the memory usage out.
    pub no_measure_mem: bool,
    /// Leave the disk usage out.
    pub no_measure_disk: bool,
}

impl Args {
    /// Whether a run can start from these settings: there is a command, and
    /// the pause between two samples is not zero.
    pub open spec fn valid(&self) -> bool {
        self.command@.len() > 0 && self.poll_interval > 0
    }

    /// Tells whether a run can start from these settings.
    pub fn is_valid(&self) -> (ok: bool)
        ensures
            ok == self.valid(),
    {
        self.command.len() > 0 && self.poll_interval > 0
    }

    /// Takes the program off the front of the command. What stays in
    /// `command` are the program's arguments.
    pub fn take_program(&mut self) -> (program: String)
        requires
            old(self).command@.len() > 0,
        ensures
            program == old(self).command@[0],
            final(self).command@ == old(self).command@.subrange(
                1,
                old(self).command@.len() as int,
            ),
            *final(self) == (Args { command: final(self).command, ..*old(self) }),
    {
        self.command.remove(0)
    }
}

/// Reads the path of the report: a relative path is taken from the
/// directory `cwd`.
pub fn parse_file_path(arg: &str, cwd: &str) -> (target_path: String)
    ensures
        target_path@ == absolute_path(arg@, cwd@),
{
    absolute(String::from_str(arg), cwd)
}

/// Reads a polling interval, given as a decimal count of milliseconds.
pub fn parse_duration(arg: &str) -> (millis: Result<u64, NumberError>)
    ensures
        millis == parsed_u64(arg@),
{
    parse_u64(arg)
}

/// The unit in which a report states memory.
#[derive(Debug, Clone, Copy, PartialEq, Eq)]
pub enum MemoryUnits {
    /// Mebibytes.
    Mb,
    /// Kibibytes.
    Kb,
    /// Bytes.
    B,
}

impl Default for MemoryUnits {
    fn default() -> (unit: Self)
        ensures
            unit == MemoryUnits::Mb,
    {
        MemoryUnits::Mb
    }
}

impl MemoryUnits {
    /// The unit's name as a header states it.
    pub open spec fn unit_text(self) -> Seq<char> {
        match self {
            MemoryUnits::Mb => "mb"@,
            MemoryUnits::Kb => "kb"@,
            MemoryUnits::B => "b"@,
        }
    }

    /// The number of bytes in one unit.
    pub open spec fn divisor(self) -> nat {
        match self {
            MemoryUnits::Mb => 1048576,
            MemoryUnits::Kb => 1024,
            MemoryUnits::B => 1,
        }
    }

    /// A count of bytes in this unit: the whole units in it, the rest dropped.
    pub open spec fn scaled(self, bytes: nat) -> nat {
        bytes / self.divisor()
    }

    /// The unit's name as a header states it.
    pub fn get_unit(&self) -> (unit: String)
        ensures
            unit@ == self.unit_text(),
    {
        match self {
            MemoryUnits::Mb => String::from_str("mb"),
            MemoryUnits::Kb => String::from_str("kb"),
            MemoryUnits::B => String::from_str("b"),
        }
    }

    /// Converts a count of bytes to this unit. The division truncates.
    pub fn scale(&self, bytes: u64) -> (units: u64)
        ensures
            units == self.scaled(bytes as nat),
            units * self.divisor() <= bytes < (units + 1) * self.divisor(),
    {
        match self {
            MemoryUnits::Mb => bytes / 1048576,
            MemoryUnits::Kb => bytes / 1024,
            MemoryUnits::B => bytes,
        }
    }
}

/// The division truncates: the whole units never stand for more bytes than
/// there are, and one unit more would.
pub proof fn lemma_scaled_never_rounds_up(units: MemoryUnits, bytes: nat)
    ensures
        units.divisor() == 1 || units.divisor() == 1024 || units.divisor() == 1048576,
        units.scaled(bytes) * units.divisor() <= bytes < (units.scaled(bytes) + 1)
            * units.divisor(),
{
    let d = units.divisor();
    let q = units.scaled(bytes);
    assert(q == bytes / d);
    assert(q * d <= bytes < (q + 1) * d) by (nonlinear_arith)
        requires
            d > 0,
            q == bytes / d,
    ;
}

/// The unit in which a report states time.
#[derive(Debug, Clone, Copy, PartialEq, Eq)]
pub enum TimeUnits {
    /// Seconds, with three decimal places.
    S,
    /// Whole milliseconds.
    Ms,
}

impl Default for TimeUnits {
    fn default() -> (unit: Self)
        ensures
            unit == TimeUnits::Ms,
    {
        TimeUnits::Ms
    }
}

impl TimeUnits {
    /// The unit's name as a header states it.
    pub open spec fn unit_text(self) -> Seq<char> {
        match self {
            TimeUnits::S => "s"@,
            TimeUnits::Ms => "ms"@,
        }
    }

    /// The unit's name as a header states it.
    pub fn get_unit(&self) -> (unit: String)
        ensures
            unit@ == self.unit_text(),
    {
        match self {
            TimeUnits::S => String::from_str("s"),
            TimeUnits::Ms => String::from_str("ms"),
        }
    }
}

} // verus!
