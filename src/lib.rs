//! Sampling and accounting engine of a terminal process monitor.
//!
//! Cumulative kernel counters are turned into per-interval percentages.
//! Percentages are fixed-point integers: one unit is a millionth of a percent.
pub mod app;
pub mod ranking;
pub mod process;
pub mod sysinfo;
