//! Verified index and length planning for a technical-analysis indicator library.
//!
//! The numeric kernels of the indicators work on floating-point prices and live
//! outside this crate. What is decided here, and proved, is the integer planning
//! around them: how many leading inputs each indicator consumes (its lookback),
//! when an input is too short or invalid and the output is empty, how long the
//! output is, how the intermediate series of composite indicators are aligned,
//! which windows contain a missing value, and the index bookkeeping of the
//! sliding windows and filter cascades. Decisions that compare prices stay with
//! the numeric kernels.

pub mod rolling;
pub mod ma;
pub mod macd;
pub mod statistic;
pub mod nan_window;
pub mod t3;
pub mod trend;
pub mod volatility;
pub mod volume;
