//! A status segment for a GPU monitor: unit-aware measurement values and the
//! decisions of the pipeline that keeps the latest sample of a streaming
//! metric source.

pub mod unit;
pub mod text;
pub mod suffix;
pub mod number;
pub mod value;
pub mod radeontop;
pub mod pipeline;
