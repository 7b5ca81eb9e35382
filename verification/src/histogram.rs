//! The histogram chart builder and its binning sub-models.

use vstd::prelude::*;

use crate::common::{
    Calendar, DimAttr, ErrorData, HoverInfo, Label, Marker, NumOrString, Orientation, PlotType,
};
use crate::json::{
    enc_opt, enc_seq, key_absent_range, obj_get, obj_has_key, opt_encode, present, spec_render, Enc, JVal,
    JsonValue, ObjBuilder, OptEntry, Real,
};
use crate::tensor::{rectangular, trace_data, trace_vectors_from, ArrayTraces};
use crate::trace::{Trace, TraceHandle};

verus! {

/// Explicit bin layout: start, end and step of the binning.
#[derive(Clone, Copy, Debug)]
pub struct Bins {
    pub start: Real,
    pub end: Real,
    pub size: Real,
}

impl Bins {
    pub fn new(start: Real, end: Real, size: Real) -> (r: Bins)
        ensures
            r == (Bins { start, end, size }),
    {
        Bins { start, end, size }
    }
}

impl Enc for Bins {
    open spec fn enc(&self) -> JVal {
        JVal::Obj(present(seq![
            ("start"@, Some(self.start.enc())),
            ("end"@, Some(self.end.enc())),
            ("size"@, Some(self.size.enc())),
        ]))
    }

    fn encode(&self) -> (v: JsonValue)
        ensures
            v@ == self.enc(),
    {
        let mut b = ObjBuilder::new();
        b.field("start", Some(self.start.encode()));
        b.field("end", Some(self.end.encode()));
        b.field("size", Some(self.size.encode()));
        proof {
            assert(b.model() =~= seq![
                ("start"@, Some(self.start.enc())),
                ("end"@, Some(self.end.enc())),
                ("size"@, Some(self.size.enc())),
            ]);
        }
        b.finish()
    }

    fn dup(&self) -> (r: Self)
        ensures
            r.enc() == self.enc(),
    {
        *self
    }
}

/// The aggregation applied within each bin.
#[derive(Clone, Copy, Debug, PartialEq, Eq, Structural)]
pub enum HistFunc {
    Count,
    Sum,
    Average,
    Minimum,
    Maximum,
}

impl HistFunc {
    pub open spec fn wire(self) -> Seq<char> {
        match self {
            HistFunc::Count => "count"@,
            HistFunc::Sum => "sum"@,
            HistFunc::Average => "avg"@,
            HistFunc::Minimum => "min"@,
            HistFunc::Maximum => "max"@,
        }
    }

    fn wire_str(&self) -> (s: &str)
        ensures
            s@ == self.wire(),
    {
        match self {
            HistFunc::Count => "count",
            HistFunc::Sum => "sum",
            HistFunc::Average => "avg",
            HistFunc::Minimum => "min",
            HistFunc::Maximum => "max",
        }
    }
}

impl Enc for HistFunc {
    open spec fn enc(&self) -> JVal {
        JVal::Text(self.wire())
    }

    fn encode(&self) -> (v: JsonValue)
        ensures
            v@ == self.enc(),
    {
        JsonValue::Text(self.wire_str().to_owned())
    }

    fn dup(&self) -> (r: Self)
        ensures
            r.enc() == self.enc(),
    {
        *self
    }
}

/// The normalization applied to the binned values.
#[derive(Clone, Copy, Debug, PartialEq, Eq, Structural)]
pub enum HistNorm {
    Default,
    Percent,
    Probability,
    Density,
    ProbabilityDensity,
}

impl HistNorm {
    pub open spec fn wire(self) -> Seq<char> {
        match self {
            HistNorm::Default => ""@,
            HistNorm::Percent => "percent"@,
            HistNorm::Probability => "probability"@,
            HistNorm::Density => "density"@,
            HistNorm::ProbabilityDensity => "probability density"@,
        }
    }

    fn wire_str(&self) -> (s: &str)
        ensures
            s@ == self.wire(),
    {
        match self {
            HistNorm::Default => "",
            HistNorm::Percent => "percent",
            HistNorm::Probability => "probability",
            HistNorm::Density => "density",
            HistNorm::ProbabilityDensity => "probability density",
        }
    }
}

impl Enc for HistNorm {
    open spec fn enc(&self) -> JVal {
        JVal::Text(self.wire())
    }

    fn encode(&self) -> (v: JsonValue)
        ensures
            v@ == self.enc(),
    {
        JsonValue::Text(self.wire_str().to_owned())
    }

    fn dup(&self) -> (r: Self)
        ensures
            r.enc() == self.enc(),
    {
        *self
    }
}

/// Direction of a cumulative histogram.
#[derive(Clone, Copy, Debug, PartialEq, Eq, Structural)]
pub enum HistDirection {
    Increasing,
    Decreasing,
}

impl HistDirection {
    pub open spec fn wire(self) -> Seq<char> {
        match self {
            HistDirection::Increasing => "increasing"@,
            HistDirection::Decreasing => "decreasing"@,
        }
    }

    fn wire_str(&self) -> (s: &str)
        ensures
            s@ == self.wire(),
    {
        match self {
            HistDirection::Increasing => "increasing",
            HistDirection::Decreasing => "decreasing",
        }
    }
}

impl Enc for HistDirection {
    open spec fn enc(&self) -> JVal {
        JVal::Text(self.wire())
    }

    fn encode(&self) -> (v: JsonValue)
        ensures
            v@ == self.enc(),
    {
        JsonValue::Text(self.wire_str().to_owned())
    }

    fn dup(&self) -> (r: Self)
        ensures
            r.enc() == self.enc(),
    {
        *self
    }
}

/// How the bin a cumulative step ends in is counted.
#[derive(Clone, Copy, Debug, PartialEq, Eq, Structural)]
pub enum CurrentBin {
    Include,
    Exclude,
    Half,
}

impl CurrentBin {
    pub open spec fn wire(self) -> Seq<char> {
        match self {
            CurrentBin::Include => "include"@,
            CurrentBin::Exclude => "exclude"@,
            CurrentBin::Half => "half"@,
        }
    }

    fn wire_str(&self) -> (s: &str)
        ensures
            s@ == self.wire(),
    {
        match self {
            CurrentBin::Include => "include",
            CurrentBin::Exclude => "exclude",
            CurrentBin::Half => "half",
        }
    }
}

impl Enc for CurrentBin {
    open spec fn enc(&self) -> JVal {
        JVal::Text(self.wire())
    }

    fn encode(&self) -> (v: JsonValue)
        ensures
            v@ == self.enc(),
    {
        JsonValue::Text(self.wire_str().to_owned())
    }

    fn dup(&self) -> (r: Self)
        ensures
            r.enc() == self.enc(),
    {
        *self
    }
}

/// Cumulative-histogram settings, all optional.
#[derive(Clone, Copy, Debug)]
pub struct Cumulative {
    pub enabled: Option<bool>,
    pub direction: Option<HistDirection>,
    pub current_bin: Option<CurrentBin>,
}

impl Cumulative {
    /// The settings' optional fields under their wire keys, in order.
    pub open spec fn entries(self) -> Seq<OptEntry> {
        seq![
            ("enabled"@, enc_opt(self.enabled)),
            ("direction"@, enc_opt(self.direction)),
            ("currentbin"@, enc_opt(self.current_bin)),
        ]
    }

    pub fn new() -> (r: Cumulative)
        ensures
            r == (Cumulative { enabled: None, direction: None, current_bin: None }),
    {
        Cumulative { enabled: None, direction: None, current_bin: None }
    }

    pub fn enabled(self, enabled: bool) -> (r: Cumulative)
        ensures
            r == (Cumulative { enabled: Some(enabled), ..self }),
    {
        Cumulative { enabled: Some(enabled), ..self }
    }

    pub fn direction(self, direction: HistDirection) -> (r: Cumulative)
        ensures
            r == (Cumulative { direction: Some(direction), ..self }),
    {
        Cumulative { direction: Some(direction), ..self }
    }

    pub fn current_bin(self, current_bin: CurrentBin) -> (r: Cumulative)
        ensures
            r == (Cumulative { current_bin: Some(current_bin), ..self }),
    {
        Cumulative { current_bin: Some(current_bin), ..self }
    }
}

impl Enc for Cumulative {
    open spec fn enc(&self) -> JVal {
        JVal::Obj(present(self.entries()))
    }

    fn encode(&self) -> (v: JsonValue)
        ensures
            v@ == self.enc(),
    {
        let mut b = ObjBuilder::new();
        b.field("enabled", opt_encode(&self.enabled));
        b.field("direction", opt_encode(&self.direction));
        b.field("currentbin", opt_encode(&self.current_bin));
        proof {
            assert(b.model() =~= self.entries());
        }
        b.finish()
    }

    fn dup(&self) -> (r: Self)
        ensures
            r.enc() == self.enc(),
    {
        *self
    }
}

/// A histogram: a fixed discriminant, optional sample sequences on either
/// axis, and one optional slot per attribute.
#[derive(Debug)]
pub struct Histogram {
    pub plot_type: PlotType,
    pub name: Option<String>,
    pub visible: Option<bool>,
    pub show_legend: Option<bool>,
    pub legend_group: Option<String>,
    pub opacity: Option<Real>,
    pub x: Option<Vec<NumOrString>>,
    pub y: Option<Vec<NumOrString>>,
    pub text: Option<DimAttr<String>>,
    pub hover_text: Option<DimAttr<String>>,
    pub hover_info: Option<HoverInfo>,
    pub hover_template: Option<DimAttr<String>>,
    pub x_axis: Option<String>,
    pub y_axis: Option<String>,
    pub orientation: Option<Orientation>,
    pub hist_func: Option<HistFunc>,
    pub hist_norm: Option<HistNorm>,
    pub alignment_group: Option<String>,
    pub offset_group: Option<String>,
    pub n_bins_x: Option<usize>,
    pub n_bins_y: Option<usize>,
    pub auto_bin_x: Option<bool>,
    pub auto_bin_y: Option<bool>,
    pub bin_group: Option<String>,
    pub x_bins: Option<Bins>,
    pub y_bins: Option<Bins>,
    pub marker: Option<Marker>,
    pub error_x: Option<ErrorData>,
    pub error_y: Option<ErrorData>,
    pub cumulative: Option<Cumulative>,
    pub hover_label: Option<Label>,
    pub x_calendar: Option<Calendar>,
    pub y_calendar: Option<Calendar>,
}

impl Default for Histogram {
    /// A histogram with no samples and every attribute unset.
    fn default() -> (r: Histogram)
        ensures
            r == (Histogram {
                plot_type: PlotType::Histogram,
                name: None,
                visible: None,
                show_legend: None,
                legend_group: None,
                opacity: None,
                x: None,
                y: None,
                text: None,
                hover_text: None,
                hover_info: None,
                hover_template: None,
                x_axis: None,
                y_axis: None,
                orientation: None,
                hist_func: None,
                hist_norm: None,
                alignment_group: None,
                offset_group: None,
                n_bins_x: None,
                n_bins_y: None,
                auto_bin_x: None,
                auto_bin_y: None,
                bin_group: None,
                x_bins: None,
                y_bins: None,
                marker: None,
                error_x: None,
                error_y: None,
                cumulative: None,
                hover_label: None,
                x_calendar: None,
                y_calendar: None,
            }),
    {
        Histogram {
            plot_type: PlotType::Histogram,
            name: None,
            visible: None,
            show_legend: None,
            legend_group: None,
            opacity: None,
            x: None,
            y: None,
            text: None,
            hover_text: None,
            hover_info: None,
            hover_template: None,
            x_axis: None,
            y_axis: None,
            orientation: None,
            hist_func: None,
            hist_norm: None,
            alignment_group: None,
            offset_group: None,
            n_bins_x: None,
            n_bins_y: None,
            auto_bin_x: None,
            auto_bin_y: None,
            bin_group: None,
            x_bins: None,
            y_bins: None,
            marker: None,
            error_x: None,
            error_y: None,
            cumulative: None,
            hover_label: None,
            x_calendar: None,
            y_calendar: None,
        }
    }
}

impl Histogram {
    /// Every field of the serialized object, under its fixed wire key, in
    /// order.
    pub open spec fn entries(self) -> Seq<OptEntry> {
        seq![
            ("type"@, Some(self.plot_type.enc())),
            ("name"@, enc_opt(self.name)),
            ("visible"@, enc_opt(self.visible)),
            ("showlegend"@, enc_opt(self.show_legend)),
            ("legendgroup"@, enc_opt(self.legend_group)),
            ("opacity"@, enc_opt(self.opacity)),
            ("x"@, enc_opt(self.x)),
            ("y"@, enc_opt(self.y)),
            ("text"@, enc_opt(self.text)),
            ("hovertext"@, enc_opt(self.hover_text)),
            ("hoverinfo"@, enc_opt(self.hover_info)),
            ("hovertemplate"@, enc_opt(self.hover_template)),
            ("xaxis"@, enc_opt(self.x_axis)),
            ("yaxis"@, enc_opt(self.y_axis)),
            ("orientation"@, enc_opt(self.orientation)),
            ("histfunc"@, enc_opt(self.hist_func)),
            ("histnorm"@, enc_opt(self.hist_norm)),
            ("alignmentgroup"@, enc_opt(self.alignment_group)),
            ("offsetgroup"@, enc_opt(self.offset_group)),
            ("nbinsx"@, enc_opt(self.n_bins_x)),
            ("nbinsy"@, enc_opt(self.n_bins_y)),
            ("autobinx"@, enc_opt(self.auto_bin_x)),
            ("autobiny"@, enc_opt(self.auto_bin_y)),
            ("bingroup"@, enc_opt(self.bin_group)),
            ("xbins"@, enc_opt(self.x_bins)),
            ("ybins"@, enc_opt(self.y_bins)),
            ("marker"@, enc_opt(self.marker)),
            ("error_x"@, enc_opt(self.error_x)),
            ("error_y"@, enc_opt(self.error_y)),
            ("cumulative"@, enc_opt(self.cumulative)),
            ("hoverlabel"@, enc_opt(self.hover_label)),
            ("xcalendar"@, enc_opt(self.x_calendar)),
            ("ycalendar"@, enc_opt(self.y_calendar)),
        ]
    }

    /// The fields of the serialized object: exactly the set entries, in
    /// order.
    pub open spec fn fields(self) -> Seq<(Seq<char>, JVal)> {
        present(self.entries())
    }

    /// A histogram over samples on the horizontal axis.
    pub fn new(x: Vec<NumOrString>) -> (r: Histogram)
        ensures
            r == (Histogram { x: Some(x), ..Histogram::unset() }),
    {
        Histogram { x: Some(x), ..Histogram::blank() }
    }

    /// A histogram with samples on both axes.
    pub fn new_xy(x: Vec<NumOrString>, y: Vec<NumOrString>) -> (r: Histogram)
        ensures
            r == (Histogram { x: Some(x), y: Some(y), ..Histogram::unset() }),
    {
        Histogram { x: Some(x), y: Some(y), ..Histogram::blank() }
    }

    /// A histogram over samples on the vertical axis.
    pub fn new_vertical(y: Vec<NumOrString>) -> (r: Histogram)
        ensures
            r == (Histogram { y: Some(y), ..Histogram::unset() }),
    {
        Histogram { y: Some(y), ..Histogram::blank() }
    }

    /// The histogram with no samples and every attribute unset.
    pub open spec fn unset() -> Histogram {
        Histogram {
            plot_type: PlotType::Histogram,
            name: None,
            visible: None,
            show_legend: None,
            legend_group: None,
            opacity: None,
            x: None,
            y: None,
            text: None,
            hover_text: None,
            hover_info: None,
            hover_template: None,
            x_axis: None,
            y_axis: None,
            orientation: None,
            hist_func: None,
            hist_norm: None,
            alignment_group: None,
            offset_group: None,
            n_bins_x: None,
            n_bins_y: None,
            auto_bin_x: None,
            auto_bin_y: None,
            bin_group: None,
            x_bins: None,
            y_bins: None,
            marker: None,
            error_x: None,
            error_y: None,
            cumulative: None,
            hover_label: None,
            x_calendar: None,
            y_calendar: None,
        }
    }

    fn blank() -> (r: Histogram)
        ensures
            r == Histogram::unset(),
    {
        Histogram::default()
    }

    pub fn name(self, name: &str) -> (r: Histogram)
        ensures
            r == (Histogram { name: r.name, ..self }),
            r.name matches Some(n) && n@ == name@,
    {
        Histogram { name: Some(name.to_owned()), ..self }
    }

    pub fn visible(self, visible: bool) -> (r: Histogram)
        ensures
            r == (Histogram { visible: Some(visible), ..self }),
    {
        Histogram { visible: Some(visible), ..self }
    }

    pub fn show_legend(self, show_legend: bool) -> (r: Histogram)
        ensures
            r == (Histogram { show_legend: Some(show_legend), ..self }),
    {
        Histogram { show_legend: Some(show_legend), ..self }
    }

    pub fn legend_group(self, legend_group: &str) -> (r: Histogram)
        ensures
            r == (Histogram { legend_group: r.legend_group, ..self }),
            r.legend_group matches Some(g) && g@ == legend_group@,
    {
        Histogram { legend_group: Some(legend_group.to_owned()), ..self }
    }

    pub fn opacity(self, opacity: Real) -> (r: Histogram)
        ensures
            r == (Histogram { opacity: Some(opacity), ..self }),
    {
        Histogram { opacity: Some(opacity), ..self }
    }

    pub fn text(self, text: &str) -> (r: Histogram)
        ensures
            r == (Histogram { text: r.text, ..self }),
            r.text matches Some(DimAttr::Scalar(t)) && t@ == text@,
    {
        Histogram { text: Some(DimAttr::Scalar(text.to_owned())), ..self }
    }

    pub fn text_array(self, text: Vec<String>) -> (r: Histogram)
        ensures
            r == (Histogram { text: Some(DimAttr::Sequence(text)), ..self }),
    {
        Histogram { text: Some(DimAttr::Sequence(text)), ..self }
    }

    pub fn hover_text(self, hover_text: &str) -> (r: Histogram)
        ensures
            r == (Histogram { hover_text: r.hover_text, ..self }),
            r.hover_text matches Some(DimAttr::Scalar(t)) && t@ == hover_text@,
    {
        Histogram { hover_text: Some(DimAttr::Scalar(hover_text.to_owned())), ..self }
    }

    pub fn hover_text_array(self, hover_text: Vec<String>) -> (r: Histogram)
        ensures
            r == (Histogram { hover_text: Some(DimAttr::Sequence(hover_text)), ..self }),
    {
        Histogram { hover_text: Some(DimAttr::Sequence(hover_text)), ..self }
    }

    pub fn hover_info(self, hover_info: HoverInfo) -> (r: Histogram)
        ensures
            r == (Histogram { hover_info: Some(hover_info), ..self }),
    {
        Histogram { hover_info: Some(hover_info), ..self }
    }

    pub fn hover_template(self, hover_template: &str) -> (r: Histogram)
        ensures
            r == (Histogram { hover_template: r.hover_template, ..self }),
            r.hover_template matches Some(DimAttr::Scalar(t)) && t@ == hover_template@,
    {
        Histogram { hover_template: Some(DimAttr::Scalar(hover_template.to_owned())), ..self }
    }

    pub fn hover_template_array(self, hover_template: Vec<String>) -> (r: Histogram)
        ensures
            r == (Histogram { hover_template: Some(DimAttr::Sequence(hover_template)), ..self }),
    {
        Histogram { hover_template: Some(DimAttr::Sequence(hover_template)), ..self }
    }

    pub fn x_axis(self, axis: &str) -> (r: Histogram)
        ensures
            r == (Histogram { x_axis: r.x_axis, ..self }),
            r.x_axis matches Some(a) && a@ == axis@,
    {
        Histogram { x_axis: Some(axis.to_owned()), ..self }
    }

    pub fn y_axis(self, axis: &str) -> (r: Histogram)
        ensures
            r == (Histogram { y_axis: r.y_axis, ..self }),
            r.y_axis matches Some(a) && a@ == axis@,
    {
        Histogram { y_axis: Some(axis.to_owned()), ..self }
    }

    pub fn orientation(self, orientation: Orientation) -> (r: Histogram)
        ensures
            r == (Histogram { orientation: Some(orientation), ..self }),
    {
        Histogram { orientation: Some(orientation), ..self }
    }

    pub fn hist_func(self, hist_func: HistFunc) -> (r: Histogram)
        ensures
            r == (Histogram { hist_func: Some(hist_func), ..self }),
    {
        Histogram { hist_func: Some(hist_func), ..self }
    }

    pub fn hist_norm(self, hist_norm: HistNorm) -> (r: Histogram)
        ensures
            r == (Histogram { hist_norm: Some(hist_norm), ..self }),
    {
        Histogram { hist_norm: Some(hist_norm), ..self }
    }

    pub fn alignment_group(self, alignment_group: &str) -> (r: Histogram)
        ensures
            r == (Histogram { alignment_group: r.alignment_group, ..self }),
            r.alignment_group matches Some(g) && g@ == alignment_group@,
    {
        Histogram { alignment_group: Some(alignment_group.to_owned()), ..self }
    }

    pub fn offset_group(self, offset_group: &str) -> (r: Histogram)
        ensures
            r == (Histogram { offset_group: r.offset_group, ..self }),
            r.offset_group matches Some(g) && g@ == offset_group@,
    {
        Histogram { offset_group: Some(offset_group.to_owned()), ..self }
    }

    pub fn n_bins_x(self, n_bins_x: usize) -> (r: Histogram)
        ensures
            r == (Histogram { n_bins_x: Some(n_bins_x), ..self }),
    {
        Histogram { n_bins_x: Some(n_bins_x), ..self }
    }

    pub fn n_bins_y(self, n_bins_y: usize) -> (r: Histogram)
        ensures
            r == (Histogram { n_bins_y: Some(n_bins_y), ..self }),
    {
        Histogram { n_bins_y: Some(n_bins_y), ..self }
    }

    pub fn auto_bin_x(self, auto_bin_x: bool) -> (r: Histogram)
        ensures
            r == (Histogram { auto_bin_x: Some(auto_bin_x), ..self }),
    {
        Histogram { auto_bin_x: Some(auto_bin_x), ..self }
    }

    pub fn auto_bin_y(self, auto_bin_y: bool) -> (r: Histogram)
        ensures
            r == (Histogram { auto_bin_y: Some(auto_bin_y), ..self }),
    {
        Histogram { auto_bin_y: Some(auto_bin_y), ..self }
    }

    pub fn bin_group(self, bin_group: &str) -> (r: Histogram)
        ensures
            r == (Histogram { bin_group: r.bin_group, ..self }),
            r.bin_group matches Some(g) && g@ == bin_group@,
    {
        Histogram { bin_group: Some(bin_group.to_owned()), ..self }
    }

    pub fn x_bins(self, x_bins: Bins) -> (r: Histogram)
        ensures
            r == (Histogram { x_bins: Some(x_bins), ..self }),
    {
        Histogram { x_bins: Some(x_bins), ..self }
    }

    pub fn y_bins(self, y_bins: Bins) -> (r: Histogram)
        ensures
            r == (Histogram { y_bins: Some(y_bins), ..self }),
    {
        Histogram { y_bins: Some(y_bins), ..self }
    }

    pub fn marker(self, marker: Marker) -> (r: Histogram)
        ensures
            r == (Histogram { marker: Some(marker), ..self }),
    {
        Histogram { marker: Some(marker), ..self }
    }

    pub fn error_x(self, error_x: ErrorData) -> (r: Histogram)
        ensures
            r == (Histogram { error_x: Some(error_x), ..self }),
    {
        Histogram { error_x: Some(error_x), ..self }
    }

    pub fn error_y(self, error_y: ErrorData) -> (r: Histogram)
        ensures
            r == (Histogram { error_y: Some(error_y), ..self }),
    {
        Histogram { error_y: Some(error_y), ..self }
    }

    pub fn cumulative(self, cumulative: Cumulative) -> (r: Histogram)
        ensures
            r == (Histogram { cumulative: Some(cumulative), ..self }),
    {
        Histogram { cumulative: Some(cumulative), ..self }
    }

    pub fn hover_label(self, hover_label: Label) -> (r: Histogram)
        ensures
            r == (Histogram { hover_label: Some(hover_label), ..self }),
    {
        Histogram { hover_label: Some(hover_label), ..self }
    }

    pub fn x_calendar(self, x_calendar: Calendar) -> (r: Histogram)
        ensures
            r == (Histogram { x_calendar: Some(x_calendar), ..self }),
    {
        Histogram { x_calendar: Some(x_calendar), ..self }
    }

    pub fn y_calendar(self, y_calendar: Calendar) -> (r: Histogram)
        ensures
            r == (Histogram { y_calendar: Some(y_calendar), ..self }),
    {
        Histogram { y_calendar: Some(y_calendar), ..self }
    }

    /// A copy of this histogram whose horizontal samples are `x`; every
    /// other attribute keeps its encoding.
    pub fn with_x(&self, x: Vec<NumOrString>) -> (r: Histogram)
        ensures
            r.entries() == self.entries().update(6, ("x"@, Some(JVal::Arr(enc_seq(x@))))),
    {
        let r = Histogram {
            plot_type: self.plot_type,
            name: crate::json::opt_dup(&self.name),
            visible: self.visible,
            show_legend: self.show_legend,
            legend_group: crate::json::opt_dup(&self.legend_group),
            opacity: self.opacity,
            x: Some(x),
            y: crate::json::opt_dup(&self.y),
            text: crate::json::opt_dup(&self.text),
            hover_text: crate::json::opt_dup(&self.hover_text),
            hover_info: self.hover_info,
            hover_template: crate::json::opt_dup(&self.hover_template),
            x_axis: crate::json::opt_dup(&self.x_axis),
            y_axis: crate::json::opt_dup(&self.y_axis),
            orientation: self.orientation,
            hist_func: self.hist_func,
            hist_norm: self.hist_norm,
            alignment_group: crate::json::opt_dup(&self.alignment_group),
            offset_group: crate::json::opt_dup(&self.offset_group),
            n_bins_x: self.n_bins_x,
            n_bins_y: self.n_bins_y,
            auto_bin_x: self.auto_bin_x,
            auto_bin_y: self.auto_bin_y,
            bin_group: crate::json::opt_dup(&self.bin_group),
            x_bins: self.x_bins,
            y_bins: self.y_bins,
            marker: crate::json::opt_dup(&self.marker),
            error_x: crate::json::opt_dup(&self.error_x),
            error_y: crate::json::opt_dup(&self.error_y),
            cumulative: self.cumulative,
            hover_label: crate::json::opt_dup(&self.hover_label),
            x_calendar: self.x_calendar,
            y_calendar: self.y_calendar,
        };
        proof {
            assert(r.entries() =~= self.entries().update(
                6,
                ("x"@, Some(JVal::Arr(enc_seq(x@)))),
            ));
        }
        r
    }

    /// One histogram per row or column of the block, in original order:
    /// each a copy of this one holding that row or column as its horizontal
    /// samples.
    pub fn to_traces(&self, traces_matrix: Vec<Vec<NumOrString>>, array_traces: ArrayTraces) -> (r:
        Vec<TraceHandle>)
        requires
            array_traces == ArrayTraces::OverColumns ==> rectangular(traces_matrix@),
        ensures
            array_traces == ArrayTraces::OverRows ==> r@.len() == traces_matrix@.len(),
            array_traces == ArrayTraces::OverColumns ==> r@.len() == (
            if traces_matrix@.len() == 0 {
                0int
            } else {
                traces_matrix@[0]@.len() as int
            }),
            forall|i: int|
                0 <= i < r@.len() ==> #[trigger] r@[i] is Histogram && (r@[i]->Histogram_0).entries()
                    == self.entries().update(
                    6,
                    ("x"@, Some(JVal::Arr(enc_seq(trace_data(traces_matrix@, array_traces, i))))),
                ),
    {
        let ghost gm = traces_matrix@;
        let mut vecs = trace_vectors_from(traces_matrix, array_traces);
        let ghost vs = vecs@;
        proof {
            assert(forall|i: int| 0 <= i < vs.len() ==> #[trigger] vs[i]@ == trace_data(gm, array_traces, i));
        }
        let mut out: Vec<TraceHandle> = Vec::new();
        while vecs.len() > 0
            invariant
                out@.len() + vecs@.len() == vs.len(),
                vecs@ =~= vs.skip(out@.len() as int),
                forall|i: int| 0 <= i < vs.len() ==> #[trigger] vs[i]@ == trace_data(gm, array_traces, i),
                forall|i: int|
                    0 <= i < out@.len() ==> #[trigger] out@[i] is Histogram
                        && (out@[i]->Histogram_0).entries() == self.entries().update(
                        6,
                        ("x"@, Some(JVal::Arr(enc_seq(trace_data(gm, array_traces, i))))),
                    ),
            decreases vecs@.len(),
        {
            let ghost k = out@.len() as int;
            let d = vecs.remove(0);
            proof {
                assert(d == vs[k]);
                assert(vecs@ =~= vs.skip(k + 1));
            }
            let t = self.with_x(d);
            out.push(TraceHandle::Histogram(t));
        }
        out
    }

    /// The document tree of this chart: exactly the set fields, in order.
    pub fn to_json(&self) -> (v: JsonValue)
        ensures
            v@ == JVal::Obj(self.fields()),
    {
        let mut b = ObjBuilder::new();
        b.field("type", Some(self.plot_type.encode()));
        b.field("name", opt_encode(&self.name));
        b.field("visible", opt_encode(&self.visible));
        b.field("showlegend", opt_encode(&self.show_legend));
        b.field("legendgroup", opt_encode(&self.legend_group));
        b.field("opacity", opt_encode(&self.opacity));
        b.field("x", opt_encode(&self.x));
        b.field("y", opt_encode(&self.y));
        b.field("text", opt_encode(&self.text));
        b.field("hovertext", opt_encode(&self.hover_text));
        b.field("hoverinfo", opt_encode(&self.hover_info));
        b.field("hovertemplate", opt_encode(&self.hover_template));
        b.field("xaxis", opt_encode(&self.x_axis));
        b.field("yaxis", opt_encode(&self.y_axis));
        b.field("orientation", opt_encode(&self.orientation));
        b.field("histfunc", opt_encode(&self.hist_func));
        b.field("histnorm", opt_encode(&self.hist_norm));
        b.field("alignmentgroup", opt_encode(&self.alignment_group));
        b.field("offsetgroup", opt_encode(&self.offset_group));
        b.field("nbinsx", opt_encode(&self.n_bins_x));
        b.field("nbinsy", opt_encode(&self.n_bins_y));
        b.field("autobinx", opt_encode(&self.auto_bin_x));
        b.field("autobiny", opt_encode(&self.auto_bin_y));
        b.field("bingroup", opt_encode(&self.bin_group));
        b.field("xbins", opt_encode(&self.x_bins));
        b.field("ybins", opt_encode(&self.y_bins));
        b.field("marker", opt_encode(&self.marker));
        b.field("error_x", opt_encode(&self.error_x));
        b.field("error_y", opt_encode(&self.error_y));
        b.field("cumulative", opt_encode(&self.cumulative));
        b.field("hoverlabel", opt_encode(&self.hover_label));
        b.field("xcalendar", opt_encode(&self.x_calendar));
        b.field("ycalendar", opt_encode(&self.y_calendar));
        proof {
            assert(b.model() =~= self.entries());
        }
        b.finish()
    }
}

impl Trace for Histogram {
    open spec fn doc(&self) -> JVal {
        JVal::Obj(self.fields())
    }

    fn serialize(&self) -> (s: String)
        ensures
            s@ == spec_render(self.doc()),
    {
        self.to_json().render()
    }
}

/// Every field of a histogram stands in the serialized object exactly when
/// it is set, under its documented wire key, with the set value's encoding;
/// a never-touched field's key does not occur at all.
#[verifier::rlimit(100)]
pub proof fn law_histogram_field_presence(h: Histogram)
    ensures
        forall|k: Seq<char>|
            #[trigger] obj_has_key(h.fields(), k) == (obj_get(h.fields(), k) is Some),
        obj_get(h.fields(), "type"@) == Some(h.plot_type.enc()),
        obj_get(h.fields(), "name"@) == enc_opt(h.name),
        obj_get(h.fields(), "visible"@) == enc_opt(h.visible),
        obj_get(h.fields(), "showlegend"@) == enc_opt(h.show_legend),
        obj_get(h.fields(), "legendgroup"@) == enc_opt(h.legend_group),
        obj_get(h.fields(), "opacity"@) == enc_opt(h.opacity),
        obj_get(h.fields(), "x"@) == enc_opt(h.x),
        obj_get(h.fields(), "y"@) == enc_opt(h.y),
        obj_get(h.fields(), "text"@) == enc_opt(h.text),
        obj_get(h.fields(), "hovertext"@) == enc_opt(h.hover_text),
        obj_get(h.fields(), "hoverinfo"@) == enc_opt(h.hover_info),
        obj_get(h.fields(), "hovertemplate"@) == enc_opt(h.hover_template),
        obj_get(h.fields(), "xaxis"@) == enc_opt(h.x_axis),
        obj_get(h.fields(), "yaxis"@) == enc_opt(h.y_axis),
        obj_get(h.fields(), "orientation"@) == enc_opt(h.orientation),
        obj_get(h.fields(), "histfunc"@) == enc_opt(h.hist_func),
        obj_get(h.fields(), "histnorm"@) == enc_opt(h.hist_norm),
        obj_get(h.fields(), "alignmentgroup"@) == enc_opt(h.alignment_group),
        obj_get(h.fields(), "offsetgroup"@) == enc_opt(h.offset_group),
        obj_get(h.fields(), "nbinsx"@) == enc_opt(h.n_bins_x),
        obj_get(h.fields(), "nbinsy"@) == enc_opt(h.n_bins_y),
        obj_get(h.fields(), "autobinx"@) == enc_opt(h.auto_bin_x),
        obj_get(h.fields(), "autobiny"@) == enc_opt(h.auto_bin_y),
        obj_get(h.fields(), "bingroup"@) == enc_opt(h.bin_group),
        obj_get(h.fields(), "xbins"@) == enc_opt(h.x_bins),
        obj_get(h.fields(), "ybins"@) == enc_opt(h.y_bins),
        obj_get(h.fields(), "marker"@) == enc_opt(h.marker),
        obj_get(h.fields(), "error_x"@) == enc_opt(h.error_x),
        obj_get(h.fields(), "error_y"@) == enc_opt(h.error_y),
        obj_get(h.fields(), "cumulative"@) == enc_opt(h.cumulative),
        obj_get(h.fields(), "hoverlabel"@) == enc_opt(h.hover_label),
        obj_get(h.fields(), "xcalendar"@) == enc_opt(h.x_calendar),
        obj_get(h.fields(), "ycalendar"@) == enc_opt(h.y_calendar),
{
    reveal_strlit("type");
    reveal_strlit("name");
    reveal_strlit("visible");
    reveal_strlit("showlegend");
    reveal_strlit("legendgroup");
    reveal_strlit("opacity");
    reveal_strlit("x");
    reveal_strlit("y");
    reveal_strlit("text");
    reveal_strlit("hovertext");
    reveal_strlit("hoverinfo");
    reveal_strlit("hovertemplate");
    reveal_strlit("xaxis");
    reveal_strlit("yaxis");
    reveal_strlit("orientation");
    reveal_strlit("histfunc");
    reveal_strlit("histnorm");
    reveal_strlit("alignmentgroup");
    reveal_strlit("offsetgroup");
    reveal_strlit("nbinsx");
    reveal_strlit("nbinsy");
    reveal_strlit("autobinx");
    reveal_strlit("autobiny");
    reveal_strlit("bingroup");
    reveal_strlit("xbins");
    reveal_strlit("ybins");
    reveal_strlit("marker");
    reveal_strlit("error_x");
    reveal_strlit("error_y");
    reveal_strlit("cumulative");
    reveal_strlit("hoverlabel");
    reveal_strlit("xcalendar");
    reveal_strlit("ycalendar");
    broadcast use vstd::string::group_string_axioms;

    assert forall|k: Seq<char>|
        #[trigger] obj_has_key(h.fields(), k) == (obj_get(h.fields(), k) is Some) by {
        crate::json::lemma_obj_get_some(h.fields(), k);
    }
    let es = h.entries();
    reveal_with_fuel(key_absent_range, 37);
    assert("type"@.len() == 4);
    assert("name"@.len() == 4);
    assert("visible"@.len() == 7);
    assert("showlegend"@.len() == 10);
    assert("legendgroup"@.len() == 11);
    assert("opacity"@.len() == 7);
    assert("x"@.len() == 1);
    assert("y"@.len() == 1);
    assert("text"@.len() == 4);
    assert("hovertext"@.len() == 9);
    assert("hoverinfo"@.len() == 9);
    assert("hovertemplate"@.len() == 13);
    assert("xaxis"@.len() == 5);
    assert("yaxis"@.len() == 5);
    assert("orientation"@.len() == 11);
    assert("histfunc"@.len() == 8);
    assert("histnorm"@.len() == 8);
    assert("alignmentgroup"@.len() == 14);
    assert("offsetgroup"@.len() == 11);
    assert("nbinsx"@.len() == 6);
    assert("nbinsy"@.len() == 6);
    assert("autobinx"@.len() == 8);
    assert("autobiny"@.len() == 8);
    assert("bingroup"@.len() == 8);
    assert("xbins"@.len() == 5);
    assert("ybins"@.len() == 5);
    assert("marker"@.len() == 6);
    assert("error_x"@.len() == 7);
    assert("error_y"@.len() == 7);
    assert("cumulative"@.len() == 10);
    assert("hoverlabel"@.len() == 10);
    assert("xcalendar"@.len() == 9);
    assert("ycalendar"@.len() == 9);
    assert("autobinx"@[0] == 'a');
    assert("autobinx"@[7] == 'x');
    assert("autobiny"@[0] == 'a');
    assert("autobiny"@[7] == 'y');
    assert("bingroup"@[0] == 'b');
    assert("cumulative"@[0] == 'c');
    assert("error_x"@[0] == 'e');
    assert("error_x"@[6] == 'x');
    assert("error_y"@[0] == 'e');
    assert("error_y"@[6] == 'y');
    assert("histfunc"@[0] == 'h');
    assert("histfunc"@[4] == 'f');
    assert("histnorm"@[0] == 'h');
    assert("histnorm"@[4] == 'n');
    assert("hoverinfo"@[0] == 'h');
    assert("hoverinfo"@[5] == 'i');
    assert("hoverlabel"@[0] == 'h');
    assert("hovertext"@[0] == 'h');
    assert("hovertext"@[5] == 't');
    assert("legendgroup"@[0] == 'l');
    assert("marker"@[0] == 'm');
    assert("name"@[0] == 'n');
    assert("nbinsx"@[0] == 'n');
    assert("nbinsx"@[5] == 'x');
    assert("nbinsy"@[0] == 'n');
    assert("nbinsy"@[5] == 'y');
    assert("offsetgroup"@[0] == 'o');
    assert("offsetgroup"@[1] == 'f');
    assert("opacity"@[0] == 'o');
    assert("orientation"@[0] == 'o');
    assert("orientation"@[1] == 'r');
    assert("showlegend"@[0] == 's');
    assert("text"@[0] == 't');
    assert("text"@[1] == 'e');
    assert("type"@[0] == 't');
    assert("type"@[1] == 'y');
    assert("visible"@[0] == 'v');
    assert("x"@[0] == 'x');
    assert("xaxis"@[0] == 'x');
    assert("xaxis"@[1] == 'a');
    assert("xbins"@[0] == 'x');
    assert("xbins"@[1] == 'b');
    assert("xcalendar"@[0] == 'x');
    assert("y"@[0] == 'y');
    assert("yaxis"@[0] == 'y');
    assert("yaxis"@[1] == 'a');
    assert("ybins"@[0] == 'y');
    assert("ybins"@[1] == 'b');
    assert("ycalendar"@[0] == 'y');
    crate::json::lemma_present_get_grounded(es, 0);
    crate::json::lemma_present_get_grounded(es, 1);
    crate::json::lemma_present_get_grounded(es, 2);
    crate::json::lemma_present_get_grounded(es, 3);
    crate::json::lemma_present_get_grounded(es, 4);
    crate::json::lemma_present_get_grounded(es, 5);
    crate::json::lemma_present_get_grounded(es, 6);
    crate::json::lemma_present_get_grounded(es, 7);
    crate::json::lemma_present_get_grounded(es, 8);
    crate::json::lemma_present_get_grounded(es, 9);
    crate::json::lemma_present_get_grounded(es, 10);
    crate::json::lemma_present_get_grounded(es, 11);
    crate::json::lemma_present_get_grounded(es, 12);
    crate::json::lemma_present_get_grounded(es, 13);
    crate::json::lemma_present_get_grounded(es, 14);
    crate::json::lemma_present_get_grounded(es, 15);
    crate::json::lemma_present_get_grounded(es, 16);
    crate::json::lemma_present_get_grounded(es, 17);
    crate::json::lemma_present_get_grounded(es, 18);
    crate::json::lemma_present_get_grounded(es, 19);
    crate::json::lemma_present_get_grounded(es, 20);
    crate::json::lemma_present_get_grounded(es, 21);
    crate::json::lemma_present_get_grounded(es, 22);
    crate::json::lemma_present_get_grounded(es, 23);
    crate::json::lemma_present_get_grounded(es, 24);
    crate::json::lemma_present_get_grounded(es, 25);
    crate::json::lemma_present_get_grounded(es, 26);
    crate::json::lemma_present_get_grounded(es, 27);
    crate::json::lemma_present_get_grounded(es, 28);
    crate::json::lemma_present_get_grounded(es, 29);
    crate::json::lemma_present_get_grounded(es, 30);
    crate::json::lemma_present_get_grounded(es, 31);
    crate::json::lemma_present_get_grounded(es, 32);
}

/// On one dimensional attribute slot, a scalar call and an array call each
/// replace whatever the slot held: the later call wins whole, every other
/// field untouched.
pub fn law_histogram_dim_overwrite(h: Histogram, t: &str, vs: Vec<String>) -> (r: Histogram)
    ensures
        r == (Histogram { hover_text: Some(DimAttr::Sequence(vs)), ..h }),
{
    h.hover_text(t).hover_text_array(vs)
}

} // verus!
