//! Process monitoring: the rules by which samples of a running process become
//! the lines of a report and the layout of a chart.

pub mod args;
pub mod cfg;
pub mod paths;
pub mod plot;
pub mod reporter;
pub mod sampler;
pub mod text;
