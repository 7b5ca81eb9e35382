//! The uniform trace abstraction: any chart builder can be asked for its
//! serialized document fragment without the caller knowing the concrete
//! chart kind.

use vstd::prelude::*;

use crate::bar::Bar;
use crate::candlestick::Candlestick;
use crate::histogram::Histogram;
use crate::json::{spec_render, JVal};
use crate::scatter::Scatter;

verus! {

/// The capability every chart kind offers: produce the exact serialized
/// document fragment of the chart.
///
/// `doc` is the chart's document model; `serialize` renders precisely that
/// model, so serializing through this trait is byte-identical to serializing
/// the concrete chart directly.
pub trait Trace {
    /// The document model that serialization renders.
    spec fn doc(&self) -> JVal;

    /// The serialized document fragment.
    fn serialize(&self) -> (s: String)
        ensures
            s@ == spec_render(self.doc()),
    ;
}

/// A chart of any supported kind, under the uniform serialization
/// capability: one ordered collection can hold bars, scatters, histograms
/// and candlesticks together, and serializing the handle is byte-identical
/// to serializing the chart it holds.
#[derive(Debug)]
pub enum TraceHandle {
    Bar(Bar),
    Scatter(Scatter),
    Histogram(Histogram),
    Candlestick(Candlestick),
}

impl Trace for TraceHandle {
    open spec fn doc(&self) -> JVal {
        match self {
            TraceHandle::Bar(b) => b.doc(),
            TraceHandle::Scatter(s) => s.doc(),
            TraceHandle::Histogram(h) => h.doc(),
            TraceHandle::Candlestick(c) => c.doc(),
        }
    }

    fn serialize(&self) -> (s: String)
        ensures
            s@ == spec_render(self.doc()),
    {
        match self {
            TraceHandle::Bar(b) => b.serialize(),
            TraceHandle::Scatter(s) => s.serialize(),
            TraceHandle::Histogram(h) => h.serialize(),
            TraceHandle::Candlestick(c) => c.serialize(),
        }
    }
}

/// Promotion to the uniform trace abstraction erases only the chart kind:
/// the handle's document is the chart's own, so serializing through a
/// handle is byte-identical to serializing the concrete chart directly.
pub proof fn law_promotion_transparent(b: Bar, s: Scatter, h: Histogram, c: Candlestick)
    ensures
        TraceHandle::Bar(b).doc() == b.doc(),
        TraceHandle::Scatter(s).doc() == s.doc(),
        TraceHandle::Histogram(h).doc() == h.doc(),
        TraceHandle::Candlestick(c).doc() == c.doc(),
{
}

impl Bar {
    /// Promotes the chart to the uniform trace abstraction; promotion is
    /// total and keeps the chart unchanged.
    pub fn into_trace(self) -> (t: TraceHandle)
        ensures
            t == TraceHandle::Bar(self),
    {
        TraceHandle::Bar(self)
    }
}

impl Scatter {
    /// Promotes the chart to the uniform trace abstraction; promotion is
    /// total and keeps the chart unchanged.
    pub fn into_trace(self) -> (t: TraceHandle)
        ensures
            t == TraceHandle::Scatter(self),
    {
        TraceHandle::Scatter(self)
    }
}

impl Histogram {
    /// Promotes the chart to the uniform trace abstraction; promotion is
    /// total and keeps the chart unchanged.
    pub fn into_trace(self) -> (t: TraceHandle)
        ensures
            t == TraceHandle::Histogram(self),
    {
        TraceHandle::Histogram(self)
    }
}

impl Candlestick {
    /// Promotes the chart to the uniform trace abstraction; promotion is
    /// total and keeps the chart unchanged.
    pub fn into_trace(self) -> (t: TraceHandle)
        ensures
            t == TraceHandle::Candlestick(self),
    {
        TraceHandle::Candlestick(self)
    }
}

} // verus!
