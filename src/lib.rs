// A round-trip latency benchmark, as verified state machines: the worker
// loop that times each probe, and the window driver that turns the running
// sample total of each measurement window into counts, rates and
// percentile reports.

pub mod metric;
pub mod percentile;
pub mod sample;
pub mod window;
pub mod worker;
