//! Recognition of date and time text in a fixed list of formats, and the
//! derived renderings and durations of the instant that was recognised.

pub mod calculator;
pub mod calendar;
pub mod detector;
pub mod fixed;
pub mod instant;
pub mod numeral;
