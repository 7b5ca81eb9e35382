//! Declarative chart specifications: typed builder objects that accumulate
//! optional visual and data attributes and serialize into the JSON documents
//! consumed by an external rendering engine.
//!
//! The crate is organised around a small verified JSON document model
//! ([`json`]), shared value wrappers and sub-models ([`common`]), one builder
//! per chart kind ([`bar`], [`scatter`], [`histogram`], [`candlestick`]), a
//! uniform trace abstraction ([`trace`]) and a tensor-ingestion adapter
//! ([`tensor`]).

pub mod bar;
pub mod candlestick;
pub mod common;
pub mod histogram;
pub mod json;
pub mod scatter;
pub mod tensor;
pub mod trace;

pub use bar::Bar;
pub use candlestick::Candlestick;
pub use histogram::Histogram;
pub use json::JsonValue;
pub use scatter::Scatter;
pub use tensor::ArrayTraces;
pub use trace::{Trace, TraceHandle};
