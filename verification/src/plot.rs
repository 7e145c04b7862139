//! The plot of a run: the two series, the bounds of the axes and the texts
//! of the labels.

use vstd::prelude::*;
use vstd::string::*;
use crate::reporter::Row;
use crate::text::decimal;
use crate::text::decimal_string;

verus! {

/// The least multiple of 1000 that is not below `n`.
pub open spec fn rounded_up(n: nat) -> nat {
    (n + 999) / 1000 * 1000
}

/// Whether a chart can be laid out for `rows`: there is a row, each row has
/// a CPU and a memory value, and each time, rounded up to the next thousand,
/// is a `usize`.
pub open spec fn plottable(rows: Seq<Row>) -> bool {
    &&& rows.len() > 0
    &&& forall|i: int|
        0 <= i < rows.len() ==> {
            &&& (#[trigger] rows[i]).cpu is Some
            &&& rows[i].memory is Some
            &&& rounded_up(rows[i].time as nat) <= usize::MAX
        }
}

/// The memory of a row in kibibytes, as the chart draws it.
pub open spec fn kibibytes(row: Row) -> u64 {
    (row.memory.unwrap() / 1024) as u64
}

/// The points of the CPU series: time against percentage points.
pub open spec fn cpu_points(rows: Seq<Row>) -> Seq<(u128, u64)> {
    Seq::new(rows.len(), |i: int| (rows[i].time, rows[i].cpu.unwrap()))
}

/// The points of the memory series: time against kibibytes.
pub open spec fn mem_points(rows: Seq<Row>) -> Seq<(u128, u64)> {
    Seq::new(rows.len(), |i: int| (rows[i].time, kibibytes(rows[i])))
}

/// Whether `top` is the greatest time among `rows`.
pub open spec fn is_max_time(top: u128, rows: Seq<Row>) -> bool {
    &&& exists|i: int| 0 <= i < rows.len() && (#[trigger] rows[i]).time == top
    &&& forall|i: int| 0 <= i < rows.len() ==> (#[trigger] rows[i]).time <= top
}

/// Whether `top` is the greatest CPU value among `rows`.
pub open spec fn is_max_cpu(top: u64, rows: Seq<Row>) -> bool {
    &&& exists|i: int| 0 <= i < rows.len() && (#[trigger] rows[i]).cpu.unwrap() == top
    &&& forall|i: int| 0 <= i < rows.len() ==> (#[trigger] rows[i]).cpu.unwrap() <= top
}

/// Whether `top` is the greatest memory value among `rows`, in kibibytes.
pub open spec fn is_max_mem(top: u64, rows: Seq<Row>) -> bool {
    &&& exists|i: int| 0 <= i < rows.len() && kibibytes(#[trigger] rows[i]) == top
    &&& forall|i: int| 0 <= i < rows.len() ==> kibibytes(#[trigger] rows[i]) <= top
}

/// The text of the legend of a run of at most 2000 ms.
pub open spec fn millis_legend(x_max: nat) -> Seq<char> {
    "Time: "@ + decimal(x_max) + " ms"@
}

/// What the plot of a run shows.
#[derive(Debug, Clone, PartialEq, Eq)]
pub struct Plot {
    /// The greatest time of a row, in milliseconds.
    pub x_max: u128,
    /// The end of the time axis, which starts at 0: `x_max` rounded up to the
    /// next thousand milliseconds.
    pub x_end: u128,
    /// The end of the CPU axis: the greatest CPU value.
    pub cpu_max: u64,
    /// The end of the memory axis: the greatest memory value, in kibibytes.
    pub mem_max: u64,
    /// The CPU series.
    pub cpu_series: Vec<(u128, u64)>,
    /// The memory series, in kibibytes.
    pub mem_series: Vec<(u128, u64)>,
    /// The number of labels on the time axis: one for each thousand
    /// milliseconds, the last one begun counted whole.
    pub x_labels: usize,
    /// Whether the time axis and the legend state time in seconds rather than
    /// in milliseconds: they do for a run of more than 2000 ms.
    pub in_seconds: bool,
}

impl Plot {
    /// Whether the plot is the one that `rows` give.
    pub open spec fn lays_out(&self, rows: Seq<Row>) -> bool {
        &&& is_max_time(self.x_max, rows)
        &&& is_max_cpu(self.cpu_max, rows)
        &&& is_max_mem(self.mem_max, rows)
        &&& self.cpu_series@ == cpu_points(rows)
        &&& self.mem_series@ == mem_points(rows)
        &&& self.x_end == rounded_up(self.x_max as nat)
        &&& self.x_labels == self.x_end / 1000
        &&& self.in_seconds == (self.x_max > 2000)
    }
}

/// Rows that only mark the start and the end of a run can be laid out, and
/// both of their series lie flat at zero.
pub proof fn lemma_brackets_plottable(rows: Seq<Row>)
    requires
        rows.len() > 0,
        forall|i: int|
            0 <= i < rows.len() ==> (#[trigger] rows[i]).is_bracket() && rounded_up(
                rows[i].time as nat,
            ) <= usize::MAX,
    ensures
        plottable(rows),
        is_max_cpu(0, rows),
        is_max_mem(0, rows),
{
    assert(rows[0].cpu.unwrap() == 0);
    assert(kibibytes(rows[0]) == 0);
}

/// Rounds `i` up to the next multiple of 1000.
pub fn round_up(i: usize) -> (c: usize)
    requires
        rounded_up(i as nat) <= usize::MAX,
    ensures
        c == rounded_up(i as nat),
        c % 1000 == 0,
        i <= c < i + 1000,
{
    let rest: usize = i % 1000;
    if rest == 0 {
        i
    } else {
        i + (1000 - rest)
    }
}

/// Tells whether a chart can be laid out for `rows`.
pub fn can_plot(rows: &Vec<Row>) -> (ok: bool)
    ensures
        ok == plottable(rows@),
{
    if rows.len() == 0 {
        return false;
    }
    let limit: usize = usize::MAX - usize::MAX % 1000;
    let mut i: usize = 0;
    while i < rows.len()
        invariant
            i <= rows.len(),
            limit == usize::MAX - usize::MAX % 1000,
            forall|k: int|
                0 <= k < i ==> {
                    &&& (#[trigger] rows@[k]).cpu is Some
                    &&& rows@[k].memory is Some
                    &&& rounded_up(rows@[k].time as nat) <= usize::MAX
                },
        decreases rows.len() - i,
    {
        let row = &rows[i];
        if row.cpu.is_none() || row.memory.is_none() || row.time > limit as u128 {
            return false;
        }
        i += 1;
    }
    true
}

/// Lays out the plot of a run from its rows.
pub fn generate_plot(rows: &Vec<Row>) -> (plot: Plot)
    requires
        plottable(rows@),
    ensures
        plot.lays_out(rows@),
{
    let mut x_max: u128 = rows[0].time;
    let mut cpu_max: u64 = rows[0].cpu.unwrap();
    let mut mem_max: u64 = rows[0].memory.unwrap() / 1024;
    let mut cpu_series: Vec<(u128, u64)> = Vec::new();
    let mut mem_series: Vec<(u128, u64)> = Vec::new();
    let mut i: usize = 0;
    while i < rows.len()
        invariant
            i <= rows.len(),
            plottable(rows@),
            cpu_series@ =~= cpu_points(rows@.take(i as int)),
            mem_series@ =~= mem_points(rows@.take(i as int)),
            exists|k: int| 0 <= k < rows.len() && (#[trigger] rows@[k]).time == x_max,
            exists|k: int| 0 <= k < rows.len() && (#[trigger] rows@[k]).cpu.unwrap() == cpu_max,
            exists|k: int| 0 <= k < rows.len() && kibibytes(#[trigger] rows@[k]) == mem_max,
            forall|k: int| 0 <= k < i ==> (#[trigger] rows@[k]).time <= x_max,
            forall|k: int| 0 <= k < i ==> (#[trigger] rows@[k]).cpu.unwrap() <= cpu_max,
            forall|k: int| 0 <= k < i ==> kibibytes(#[trigger] rows@[k]) <= mem_max,
        decreases rows.len() - i,
    {
        let row = &rows[i];
        let time: u128 = row.time;
        let cpu: u64 = row.cpu.unwrap();
        let mem: u64 = row.memory.unwrap() / 1024;
        if time > x_max {
            x_max = time;
        }
        if cpu > cpu_max {
            cpu_max = cpu;
        }
        if mem > mem_max {
            mem_max = mem;
        }
        cpu_series.push((time, cpu));
        mem_series.push((time, mem));
        i += 1;
    }
    assert(rows@.take(rows.len() as int) =~= rows@);
    let x_end: usize = round_up(x_max as usize);
    let x_labels: usize = x_end / 1000;
    Plot {
        x_max,
        x_end: x_end as u128,
        cpu_max,
        mem_max,
        cpu_series,
        mem_series,
        x_labels,
        in_seconds: x_max > 2000,
    }
}

/// The legend in milliseconds, which a run of at most 2000 ms has.
pub open spec fn legend_text(x_max: nat) -> Option<Seq<char>> {
    if x_max <= 2000 {
        Some(millis_legend(x_max))
    } else {
        None
    }
}

/// The time axis of a plot holds every point of both series. It ends on a
/// whole thousand, less than a thousand beyond the last point. The axis and
/// the legend state time in the same unit: in seconds exactly for a run of
/// more than 2000 ms, the greatest time of any row.
pub proof fn lemma_axis_covers_run(plot: Plot, rows: Seq<Row>)
    requires
        plot.lays_out(rows),
    ensures
        forall|i: int|
            0 <= i < rows.len() ==> (#[trigger] plot.cpu_series@[i]).0 <= plot.x_end
                && plot.mem_series@[i].0 <= plot.x_end,
        plot.x_end % 1000 == 0,
        plot.x_max <= plot.x_end < plot.x_max + 1000,
        plot.in_seconds <==> plot.x_max > 2000,
        plot.in_seconds <==> legend_text(plot.x_max as nat) is None,
        time_title_text(plot.in_seconds) == (if plot.x_max > 2000 {
            "Time (s)"@
        } else {
            "Time (ms)"@
        }),
{
    assert forall|i: int| 0 <= i < rows.len() implies (#[trigger] plot.cpu_series@[i]).0
        <= plot.x_end && plot.mem_series@[i].0 <= plot.x_end by {
        assert(rows[i].time <= plot.x_max);
    }
}

/// The legend of a run of at most 2000 ms, which states its length in whole
/// milliseconds. A longer run has its length stated in seconds, and gets no
/// text here.
pub fn legend(x_max: u128) -> (text: Option<String>)
    ensures
        text is Some <==> legend_text(x_max as nat) is Some,
        text is Some ==> Some(text->Some_0@) == legend_text(x_max as nat),
{
    if x_max > 2000 {
        None
    } else {
        let mut text = String::from_str("Time: ");
        text.append(decimal_string(x_max).as_str());
        text.append(" ms");
        Some(text)
    }
}

/// A time on the axis as its label states it: whole seconds or milliseconds.
pub open spec fn time_label_text(millis: nat, in_seconds: bool) -> Seq<char> {
    if in_seconds {
        decimal(millis / 1000)
    } else {
        decimal(millis)
    }
}

/// The title of the time axis, which names the unit of its labels.
pub open spec fn time_title_text(in_seconds: bool) -> Seq<char> {
    if in_seconds {
        "Time (s)"@
    } else {
        "Time (ms)"@
    }
}

/// The label of a mark on the time axis: the mark's milliseconds, in whole
/// seconds where the plot states time in seconds.
pub fn time_label(millis: u128, in_seconds: bool) -> (text: String)
    ensures
        text@ == time_label_text(millis as nat, in_seconds),
{
    if in_seconds {
        decimal_string(millis / 1000)
    } else {
        decimal_string(millis)
    }
}

/// The title of the time axis, in the unit of the axis' labels.
pub fn time_title(in_seconds: bool) -> (text: String)
    ensures
        text@ == time_title_text(in_seconds),
{
    if in_seconds {
        String::from_str("Time (s)")
    } else {
        String::from_str("Time (ms)")
    }
}

/// The label of a mark on the CPU axis: the percentage points and a percent
/// sign.
pub fn cpu_label(percent: u64) -> (text: String)
    ensures
        text@ == decimal(percent as nat) + " %"@,
{
    let mut text = decimal_string(percent as u128);
    text.append(" %");
    text
}

/// The label of a mark on the memory axis: the mark's kibibytes in whole
/// mebibytes.
pub fn memory_label(kib: u64) -> (text: String)
    ensures
        text@ == decimal(kib as nat / 1024),
{
    decimal_string((kib / 1024) as u128)
}

} // verus!
