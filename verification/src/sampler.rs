//! The sampling loop, one turn at a time: what to do with what the process
//! showed when it was last looked at.

use vstd::prelude::*;
use crate::args::Args;
use crate::reporter::Row;

verus! {

/// What a running process showed when it was looked at.
#[derive(Debug, Clone, Copy, PartialEq, Eq)]
pub struct Reading {
    /// CPU usage in percentage points, rounded.
    pub cpu: u64,
    /// Resident memory in bytes.
    pub memory: u64,
    /// Bytes read from disk since the process started.
    pub disk_read: u64,
    /// Bytes written to disk since the process started.
    pub disk_write: u64,
}

/// What the sampling loop does next.
#[derive(Debug, Clone, Copy, PartialEq, Eq)]
pub enum Step {
    /// Write `row` to the report, then wait `pause` milliseconds and look again.
    Record { row: Row, pause: u64 },
    /// The process is gone: the loop ends.
    Stop,
}

/// The step that follows a look at the process.
pub open spec fn step_after(args: Args, elapsed: u128, reading: Option<Reading>) -> Step {
    match reading {
        Some(r) => Step::Record {
            row: Row::sampled(args, elapsed, r.cpu, r.memory, r.disk_read, r.disk_write),
            pause: args.poll_interval,
        },
        None => Step::Stop,
    }
}

/// Decides one turn of the sampling loop. `reading` is what the process
/// showed, or nothing if it is gone; `elapsed` is the time since the run
/// started, in milliseconds. The loop ends if and only if the process is
/// gone; otherwise the sample is recorded and the loop waits for the polling
/// interval.
pub fn next_step(args: &Args, elapsed: u128, reading: Option<Reading>) -> (step: Step)
    ensures
        step == step_after(*args, elapsed, reading),
{
    match reading {
        Some(r) => Step::Record {
            row: Row::sample(args, elapsed, r.cpu, r.memory, r.disk_read, r.disk_write),
            pause: args.poll_interval,
        },
        None => Step::Stop,
    }
}

} // verus!
