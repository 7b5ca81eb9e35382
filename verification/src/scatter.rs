//! The scatter chart builder.

use vstd::prelude::*;

use crate::common::{
    Calendar, ColorSpec, DimAttr, ErrorData, Fill, Font, GroupNorm, HoverInfo, Label, Line, Marker,
    Mode, NumOrString, Orientation, PlotType, Position, ToNumOrString, TruthyWrapper, Visible,
};
use crate::json::{
    enc_opt, enc_seq, key_absent_range, obj_get, obj_has_key, opt_dup, opt_encode, present, spec_render, Enc,
    JVal, JsonValue, ObjBuilder, OptEntry, Real,
};
use crate::tensor::{dup_coords, rectangular, trace_data, trace_vectors_from, ArrayTraces};
use crate::trace::{Trace, TraceHandle};

verus! {

/// A scatter chart: a fixed discriminant (switchable to the GL-accelerated
/// variant), optional coordinate sequences or linear-space starts, and one
/// optional slot per attribute.
#[derive(Debug)]
pub struct Scatter {
    pub plot_type: PlotType,
    pub name: Option<String>,
    pub visible: Option<TruthyWrapper<Visible>>,
    pub show_legend: Option<bool>,
    pub legend_group: Option<String>,
    pub opacity: Option<Real>,
    pub mode: Option<Mode>,
    pub ids: Option<Vec<String>>,
    pub x: Option<Vec<NumOrString>>,
    pub x0: Option<NumOrString>,
    pub dx: Option<Real>,
    pub y: Option<Vec<NumOrString>>,
    pub y0: Option<NumOrString>,
    pub dy: Option<Real>,
    pub text: Option<DimAttr<String>>,
    pub text_position: Option<DimAttr<Position>>,
    pub text_template: Option<DimAttr<String>>,
    pub hover_text: Option<DimAttr<String>>,
    pub hover_info: Option<HoverInfo>,
    pub hover_template: Option<DimAttr<String>>,
    pub meta: Option<NumOrString>,
    pub custom_data: Option<Vec<NumOrString>>,
    pub x_axis: Option<String>,
    pub y_axis: Option<String>,
    pub orientation: Option<Orientation>,
    pub group_norm: Option<GroupNorm>,
    pub stack_group: Option<String>,
    pub marker: Option<Marker>,
    pub line: Option<Line>,
    pub text_font: Option<Font>,
    pub error_x: Option<ErrorData>,
    pub error_y: Option<ErrorData>,
    pub clip_on_axis: Option<bool>,
    pub connect_gaps: Option<bool>,
    pub fill: Option<Fill>,
    pub fill_color: Option<ColorSpec>,
    pub hover_label: Option<Label>,
    pub hover_on: Option<String>,
    pub stack_gaps: Option<String>,
    pub x_calendar: Option<Calendar>,
    pub y_calendar: Option<Calendar>,
}

impl Scatter {
    /// Every field of the serialized object, under its fixed wire key, in
    /// order.
    pub open spec fn entries(self) -> Seq<OptEntry> {
        seq![
            ("type"@, Some(self.plot_type.enc())),
            ("name"@, enc_opt(self.name)),
            ("visible"@, enc_opt(self.visible)),
            ("showlegend"@, enc_opt(self.show_legend)),
            ("legendgroup"@, enc_opt(self.legend_group)),
            ("opacity"@, enc_opt(self.opacity)),
            ("mode"@, enc_opt(self.mode)),
            ("ids"@, enc_opt(self.ids)),
            ("x"@, enc_opt(self.x)),
            ("x0"@, enc_opt(self.x0)),
            ("dx"@, enc_opt(self.dx)),
            ("y"@, enc_opt(self.y)),
            ("y0"@, enc_opt(self.y0)),
            ("dy"@, enc_opt(self.dy)),
            ("text"@, enc_opt(self.text)),
            ("textposition"@, enc_opt(self.text_position)),
            ("texttemplate"@, enc_opt(self.text_template)),
            ("hovertext"@, enc_opt(self.hover_text)),
            ("hoverinfo"@, enc_opt(self.hover_info)),
            ("hovertemplate"@, enc_opt(self.hover_template)),
            ("meta"@, enc_opt(self.meta)),
            ("custom_data"@, enc_opt(self.custom_data)),
            ("xaxis"@, enc_opt(self.x_axis)),
            ("yaxis"@, enc_opt(self.y_axis)),
            ("orientation"@, enc_opt(self.orientation)),
            ("groupnorm"@, enc_opt(self.group_norm)),
            ("stackgroup"@, enc_opt(self.stack_group)),
            ("marker"@, enc_opt(self.marker)),
            ("line"@, enc_opt(self.line)),
            ("textfont"@, enc_opt(self.text_font)),
            ("error_x"@, enc_opt(self.error_x)),
            ("error_y"@, enc_opt(self.error_y)),
            ("cliponaxis"@, enc_opt(self.clip_on_axis)),
            ("connectgaps"@, enc_opt(self.connect_gaps)),
            ("fill"@, enc_opt(self.fill)),
            ("fillcolor"@, enc_opt(self.fill_color)),
            ("hoverlabel"@, enc_opt(self.hover_label)),
            ("hoveron"@, enc_opt(self.hover_on)),
            ("stackgaps"@, enc_opt(self.stack_gaps)),
            ("xcalendar"@, enc_opt(self.x_calendar)),
            ("ycalendar"@, enc_opt(self.y_calendar)),
        ]
    }

    /// The fields of the serialized object: exactly the set entries, in
    /// order.
    pub open spec fn fields(self) -> Seq<(Seq<char>, JVal)> {
        present(self.entries())
    }

    /// The scatter chart with nothing set and the plain (non-GL)
    /// discriminant.
    pub open spec fn unset() -> Scatter {
        Scatter {
            plot_type: PlotType::Scatter,
            name: None,
            visible: None,
            show_legend: None,
            legend_group: None,
            opacity: None,
            mode: None,
            ids: None,
            x: None,
            x0: None,
            dx: None,
            y: None,
            y0: None,
            dy: None,
            text: None,
            text_position: None,
            text_template: None,
            hover_text: None,
            hover_info: None,
            hover_template: None,
            meta: None,
            custom_data: None,
            x_axis: None,
            y_axis: None,
            orientation: None,
            group_norm: None,
            stack_group: None,
            marker: None,
            line: None,
            text_font: None,
            error_x: None,
            error_y: None,
            clip_on_axis: None,
            connect_gaps: None,
            fill: None,
            fill_color: None,
            hover_label: None,
            hover_on: None,
            stack_gaps: None,
            x_calendar: None,
            y_calendar: None,
        }
    }

    fn blank() -> (r: Scatter)
        ensures
            r == Scatter::unset(),
    {
        Scatter {
            plot_type: PlotType::Scatter,
            name: None,
            visible: None,
            show_legend: None,
            legend_group: None,
            opacity: None,
            mode: None,
            ids: None,
            x: None,
            x0: None,
            dx: None,
            y: None,
            y0: None,
            dy: None,
            text: None,
            text_position: None,
            text_template: None,
            hover_text: None,
            hover_info: None,
            hover_template: None,
            meta: None,
            custom_data: None,
            x_axis: None,
            y_axis: None,
            orientation: None,
            group_norm: None,
            stack_group: None,
            marker: None,
            line: None,
            text_font: None,
            error_x: None,
            error_y: None,
            clip_on_axis: None,
            connect_gaps: None,
            fill: None,
            fill_color: None,
            hover_label: None,
            hover_on: None,
            stack_gaps: None,
            x_calendar: None,
            y_calendar: None,
        }
    }

    /// A new scatter chart of the given coordinates, everything else unset.
    pub fn new(x: Vec<NumOrString>, y: Vec<NumOrString>) -> (r: Scatter)
        ensures
            r == (Scatter { x: Some(x), y: Some(y), ..Scatter::unset() }),
    {
        Scatter { x: Some(x), y: Some(y), ..Scatter::blank() }
    }

    /// Switches between the GL-accelerated and the plain discriminant.
    pub fn web_gl_mode(self, on: bool) -> (r: Scatter)
        ensures
            r == (Scatter {
                plot_type: if on {
                    PlotType::ScatterGL
                } else {
                    PlotType::Scatter
                },
                ..self
            }),
    {
        Scatter {
            plot_type: if on {
                PlotType::ScatterGL
            } else {
                PlotType::Scatter
            },
            ..self
        }
    }

    pub fn name(self, name: &str) -> (r: Scatter)
        ensures
            r == (Scatter { name: r.name, ..self }),
            r.name matches Some(n) && n@ == name@,
    {
        Scatter { name: Some(name.to_owned()), ..self }
    }

    /// Sets the visibility; through the truthy wrapper, `Visible::False`
    /// serializes as the plain boolean `false`.
    pub fn visible(self, visible: Visible) -> (r: Scatter)
        ensures
            r == (Scatter { visible: Some(TruthyWrapper { e: visible }), ..self }),
    {
        Scatter { visible: Some(TruthyWrapper { e: visible }), ..self }
    }

    pub fn show_legend(self, show_legend: bool) -> (r: Scatter)
        ensures
            r == (Scatter { show_legend: Some(show_legend), ..self }),
    {
        Scatter { show_legend: Some(show_legend), ..self }
    }

    pub fn legend_group(self, legend_group: &str) -> (r: Scatter)
        ensures
            r == (Scatter { legend_group: r.legend_group, ..self }),
            r.legend_group matches Some(g) && g@ == legend_group@,
    {
        Scatter { legend_group: Some(legend_group.to_owned()), ..self }
    }

    pub fn opacity(self, opacity: Real) -> (r: Scatter)
        ensures
            r == (Scatter { opacity: Some(opacity), ..self }),
    {
        Scatter { opacity: Some(opacity), ..self }
    }

    pub fn mode(self, mode: Mode) -> (r: Scatter)
        ensures
            r == (Scatter { mode: Some(mode), ..self }),
    {
        Scatter { mode: Some(mode), ..self }
    }

    pub fn ids(self, ids: Vec<String>) -> (r: Scatter)
        ensures
            r == (Scatter { ids: Some(ids), ..self }),
    {
        Scatter { ids: Some(ids), ..self }
    }

    /// Start of a linear horizontal space, used together with `dx`; accepts
    /// a numeric or a textual source.
    pub fn x0<C: ToNumOrString>(self, x0: C) -> (r: Scatter)
        ensures
            r == (Scatter { x0: r.x0, ..self }),
            r.x0 matches Some(v) && v.enc() == x0.nos_enc(),
    {
        Scatter { x0: Some(x0.to_num_or_string()), ..self }
    }

    pub fn dx(self, dx: Real) -> (r: Scatter)
        ensures
            r == (Scatter { dx: Some(dx), ..self }),
    {
        Scatter { dx: Some(dx), ..self }
    }

    /// Start of a linear vertical space, used together with `dy`; accepts a
    /// numeric or a textual source.
    pub fn y0<C: ToNumOrString>(self, y0: C) -> (r: Scatter)
        ensures
            r == (Scatter { y0: r.y0, ..self }),
            r.y0 matches Some(v) && v.enc() == y0.nos_enc(),
    {
        Scatter { y0: Some(y0.to_num_or_string()), ..self }
    }

    pub fn dy(self, dy: Real) -> (r: Scatter)
        ensures
            r == (Scatter { dy: Some(dy), ..self }),
    {
        Scatter { dy: Some(dy), ..self }
    }

    pub fn text(self, text: &str) -> (r: Scatter)
        ensures
            r == (Scatter { text: r.text, ..self }),
            r.text matches Some(DimAttr::Scalar(t)) && t@ == text@,
    {
        Scatter { text: Some(DimAttr::Scalar(text.to_owned())), ..self }
    }

    pub fn text_array(self, text: Vec<String>) -> (r: Scatter)
        ensures
            r == (Scatter { text: Some(DimAttr::Sequence(text)), ..self }),
    {
        Scatter { text: Some(DimAttr::Sequence(text)), ..self }
    }

    pub fn text_position(self, text_position: Position) -> (r: Scatter)
        ensures
            r == (Scatter { text_position: Some(DimAttr::Scalar(text_position)), ..self }),
    {
        Scatter { text_position: Some(DimAttr::Scalar(text_position)), ..self }
    }

    pub fn text_position_array(self, text_position: Vec<Position>) -> (r: Scatter)
        ensures
            r == (Scatter { text_position: Some(DimAttr::Sequence(text_position)), ..self }),
    {
        Scatter { text_position: Some(DimAttr::Sequence(text_position)), ..self }
    }

    pub fn text_template(self, text_template: &str) -> (r: Scatter)
        ensures
            r == (Scatter { text_template: r.text_template, ..self }),
            r.text_template matches Some(DimAttr::Scalar(t)) && t@ == text_template@,
    {
        Scatter { text_template: Some(DimAttr::Scalar(text_template.to_owned())), ..self }
    }

    pub fn text_template_array(self, text_template: Vec<String>) -> (r: Scatter)
        ensures
            r == (Scatter { text_template: Some(DimAttr::Sequence(text_template)), ..self }),
    {
        Scatter { text_template: Some(DimAttr::Sequence(text_template)), ..self }
    }

    pub fn hover_text(self, hover_text: &str) -> (r: Scatter)
        ensures
            r == (Scatter { hover_text: r.hover_text, ..self }),
            r.hover_text matches Some(DimAttr::Scalar(t)) && t@ == hover_text@,
    {
        Scatter { hover_text: Some(DimAttr::Scalar(hover_text.to_owned())), ..self }
    }

    pub fn hover_text_array(self, hover_text: Vec<String>) -> (r: Scatter)
        ensures
            r == (Scatter { hover_text: Some(DimAttr::Sequence(hover_text)), ..self }),
    {
        Scatter { hover_text: Some(DimAttr::Sequence(hover_text)), ..self }
    }

    pub fn hover_info(self, hover_info: HoverInfo) -> (r: Scatter)
        ensures
            r == (Scatter { hover_info: Some(hover_info), ..self }),
    {
        Scatter { hover_info: Some(hover_info), ..self }
    }

    pub fn hover_template(self, hover_template: &str) -> (r: Scatter)
        ensures
            r == (Scatter { hover_template: r.hover_template, ..self }),
            r.hover_template matches Some(DimAttr::Scalar(t)) && t@ == hover_template@,
    {
        Scatter { hover_template: Some(DimAttr::Scalar(hover_template.to_owned())), ..self }
    }

    pub fn hover_template_array(self, hover_template: Vec<String>) -> (r: Scatter)
        ensures
            r == (Scatter { hover_template: Some(DimAttr::Sequence(hover_template)), ..self }),
    {
        Scatter { hover_template: Some(DimAttr::Sequence(hover_template)), ..self }
    }

    /// Extra meta value usable in template strings; accepts a numeric or a
    /// textual source.
    pub fn meta<C: ToNumOrString>(self, meta: C) -> (r: Scatter)
        ensures
            r == (Scatter { meta: r.meta, ..self }),
            r.meta matches Some(v) && v.enc() == meta.nos_enc(),
    {
        Scatter { meta: Some(meta.to_num_or_string()), ..self }
    }

    /// Extra per-point values, each a numeric or a textual source.
    pub fn custom_data<C: ToNumOrString>(self, custom_data: Vec<C>) -> (r: Scatter)
        ensures
            r == (Scatter { custom_data: r.custom_data, ..self }),
            r.custom_data matches Some(cd) && cd@.len() == custom_data@.len() && (forall|i: int|
                0 <= i < cd@.len() ==> #[trigger] cd@[i].enc() == custom_data@[i].nos_enc()),
    {
        let mut wrapped: Vec<NumOrString> = Vec::new();
        let mut items = custom_data;
        let ghost all = items@;
        while items.len() > 0
            invariant
                wrapped@.len() + items@.len() == all.len(),
                items@ =~= all.skip(wrapped@.len() as int),
                forall|i: int|
                    0 <= i < wrapped@.len() ==> #[trigger] wrapped@[i].enc() == all[i].nos_enc(),
            decreases items@.len(),
        {
            let ghost k = wrapped@.len() as int;
            let c = items.remove(0);
            proof {
                assert(c == all[k]);
                assert(items@ =~= all.skip(k + 1));
            }
            let w = c.to_num_or_string();
            wrapped.push(w);
        }
        Scatter { custom_data: Some(wrapped), ..self }
    }

    pub fn x_axis(self, axis: &str) -> (r: Scatter)
        ensures
            r == (Scatter { x_axis: r.x_axis, ..self }),
            r.x_axis matches Some(a) && a@ == axis@,
    {
        Scatter { x_axis: Some(axis.to_owned()), ..self }
    }

    pub fn y_axis(self, axis: &str) -> (r: Scatter)
        ensures
            r == (Scatter { y_axis: r.y_axis, ..self }),
            r.y_axis matches Some(a) && a@ == axis@,
    {
        Scatter { y_axis: Some(axis.to_owned()), ..self }
    }

    pub fn orientation(self, orientation: Orientation) -> (r: Scatter)
        ensures
            r == (Scatter { orientation: Some(orientation), ..self }),
    {
        Scatter { orientation: Some(orientation), ..self }
    }

    pub fn group_norm(self, group_norm: GroupNorm) -> (r: Scatter)
        ensures
            r == (Scatter { group_norm: Some(group_norm), ..self }),
    {
        Scatter { group_norm: Some(group_norm), ..self }
    }

    pub fn stack_group(self, stack_group: &str) -> (r: Scatter)
        ensures
            r == (Scatter { stack_group: r.stack_group, ..self }),
            r.stack_group matches Some(g) && g@ == stack_group@,
    {
        Scatter { stack_group: Some(stack_group.to_owned()), ..self }
    }

    pub fn marker(self, marker: Marker) -> (r: Scatter)
        ensures
            r == (Scatter { marker: Some(marker), ..self }),
    {
        Scatter { marker: Some(marker), ..self }
    }

    pub fn line(self, line: Line) -> (r: Scatter)
        ensures
            r == (Scatter { line: Some(line), ..self }),
    {
        Scatter { line: Some(line), ..self }
    }

    pub fn text_font(self, text_font: Font) -> (r: Scatter)
        ensures
            r == (Scatter { text_font: Some(text_font), ..self }),
    {
        Scatter { text_font: Some(text_font), ..self }
    }

    pub fn error_x(self, error_x: ErrorData) -> (r: Scatter)
        ensures
            r == (Scatter { error_x: Some(error_x), ..self }),
    {
        Scatter { error_x: Some(error_x), ..self }
    }

    pub fn error_y(self, error_y: ErrorData) -> (r: Scatter)
        ensures
            r == (Scatter { error_y: Some(error_y), ..self }),
    {
        Scatter { error_y: Some(error_y), ..self }
    }

    pub fn clip_on_axis(self, clip_on_axis: bool) -> (r: Scatter)
        ensures
            r == (Scatter { clip_on_axis: Some(clip_on_axis), ..self }),
    {
        Scatter { clip_on_axis: Some(clip_on_axis), ..self }
    }

    pub fn connect_gaps(self, connect_gaps: bool) -> (r: Scatter)
        ensures
            r == (Scatter { connect_gaps: Some(connect_gaps), ..self }),
    {
        Scatter { connect_gaps: Some(connect_gaps), ..self }
    }

    pub fn fill(self, fill: Fill) -> (r: Scatter)
        ensures
            r == (Scatter { fill: Some(fill), ..self }),
    {
        Scatter { fill: Some(fill), ..self }
    }

    pub fn fill_color(self, fill_color: ColorSpec) -> (r: Scatter)
        ensures
            r == (Scatter { fill_color: Some(fill_color), ..self }),
    {
        Scatter { fill_color: Some(fill_color), ..self }
    }

    pub fn hover_label(self, hover_label: Label) -> (r: Scatter)
        ensures
            r == (Scatter { hover_label: Some(hover_label), ..self }),
    {
        Scatter { hover_label: Some(hover_label), ..self }
    }

    pub fn hover_on(self, hover_on: &str) -> (r: Scatter)
        ensures
            r == (Scatter { hover_on: r.hover_on, ..self }),
            r.hover_on matches Some(h) && h@ == hover_on@,
    {
        Scatter { hover_on: Some(hover_on.to_owned()), ..self }
    }

    pub fn stack_gaps(self, stack_gaps: &str) -> (r: Scatter)
        ensures
            r == (Scatter { stack_gaps: r.stack_gaps, ..self }),
            r.stack_gaps matches Some(s) && s@ == stack_gaps@,
    {
        Scatter { stack_gaps: Some(stack_gaps.to_owned()), ..self }
    }

    pub fn x_calendar(self, x_calendar: Calendar) -> (r: Scatter)
        ensures
            r == (Scatter { x_calendar: Some(x_calendar), ..self }),
    {
        Scatter { x_calendar: Some(x_calendar), ..self }
    }

    pub fn y_calendar(self, y_calendar: Calendar) -> (r: Scatter)
        ensures
            r == (Scatter { y_calendar: Some(y_calendar), ..self }),
    {
        Scatter { y_calendar: Some(y_calendar), ..self }
    }

    /// A copy of this scatter whose coordinates are `x` and `y`; every other
    /// attribute keeps its encoding.
    pub fn with_xy(&self, x: Vec<NumOrString>, y: Vec<NumOrString>) -> (r: Scatter)
        ensures
            r.entries() == self.entries().update(8, ("x"@, Some(JVal::Arr(enc_seq(x@))))).update(
                11,
                ("y"@, Some(JVal::Arr(enc_seq(y@)))),
            ),
    {
        let r = Scatter {
            plot_type: self.plot_type,
            name: opt_dup(&self.name),
            visible: self.visible,
            show_legend: self.show_legend,
            legend_group: opt_dup(&self.legend_group),
            opacity: self.opacity,
            mode: self.mode,
            ids: opt_dup(&self.ids),
            x: Some(x),
            x0: opt_dup(&self.x0),
            dx: self.dx,
            y: Some(y),
            y0: opt_dup(&self.y0),
            dy: self.dy,
            text: opt_dup(&self.text),
            text_position: opt_dup(&self.text_position),
            text_template: opt_dup(&self.text_template),
            hover_text: opt_dup(&self.hover_text),
            hover_info: self.hover_info,
            hover_template: opt_dup(&self.hover_template),
            meta: opt_dup(&self.meta),
            custom_data: opt_dup(&self.custom_data),
            x_axis: opt_dup(&self.x_axis),
            y_axis: opt_dup(&self.y_axis),
            orientation: self.orientation,
            group_norm: self.group_norm,
            stack_group: opt_dup(&self.stack_group),
            marker: opt_dup(&self.marker),
            line: self.line,
            text_font: opt_dup(&self.text_font),
            error_x: opt_dup(&self.error_x),
            error_y: opt_dup(&self.error_y),
            clip_on_axis: self.clip_on_axis,
            connect_gaps: self.connect_gaps,
            fill: self.fill,
            fill_color: self.fill_color,
            hover_label: opt_dup(&self.hover_label),
            hover_on: opt_dup(&self.hover_on),
            stack_gaps: opt_dup(&self.stack_gaps),
            x_calendar: self.x_calendar,
            y_calendar: self.y_calendar,
        };
        proof {
            assert(r.entries() =~= self.entries().update(
                8,
                ("x"@, Some(JVal::Arr(enc_seq(x@)))),
            ).update(11, ("y"@, Some(JVal::Arr(enc_seq(y@))))));
        }
        r
    }

    /// One scatter per row or column of the block, in original order: each a
    /// copy of this one paired against the shared abscissa `x`, holding that
    /// row or column as its ordinates.
    pub fn to_traces(
        &self,
        x: Vec<NumOrString>,
        traces_matrix: Vec<Vec<NumOrString>>,
        array_traces: ArrayTraces,
    ) -> (r: Vec<TraceHandle>)
        requires
            array_traces == ArrayTraces::OverColumns ==> rectangular(traces_matrix@),
        ensures
            array_traces == ArrayTraces::OverRows ==> r@.len() == traces_matrix@.len(),
            array_traces == ArrayTraces::OverColumns ==> r@.len() == (
            if traces_matrix@.len() == 0 {
                0int
            } else {
                traces_matrix@[0]@.len() as int
            }),
            forall|i: int|
                0 <= i < r@.len() ==> #[trigger] r@[i] is Scatter && (r@[i]->Scatter_0).entries()
                    == self.entries().update(8, ("x"@, Some(JVal::Arr(enc_seq(x@))))).update(
                    11,
                    ("y"@, Some(JVal::Arr(enc_seq(trace_data(traces_matrix@, array_traces, i))))),
                ),
    {
        let ghost gm = traces_matrix@;
        let mut vecs = trace_vectors_from(traces_matrix, array_traces);
        let ghost vs = vecs@;
        proof {
            assert(forall|i: int|
                0 <= i < vs.len() ==> #[trigger] vs[i]@ == trace_data(gm, array_traces, i));
        }
        let mut out: Vec<TraceHandle> = Vec::new();
        while vecs.len() > 0
            invariant
                out@.len() + vecs@.len() == vs.len(),
                vecs@ =~= vs.skip(out@.len() as int),
                forall|i: int|
                    0 <= i < vs.len() ==> #[trigger] vs[i]@ == trace_data(gm, array_traces, i),
                forall|i: int|
                    0 <= i < out@.len() ==> #[trigger] out@[i] is Scatter
                        && (out@[i]->Scatter_0).entries() == self.entries().update(
                        8,
                        ("x"@, Some(JVal::Arr(enc_seq(x@)))),
                    ).update(11, ("y"@, Some(JVal::Arr(enc_seq(trace_data(gm, array_traces, i)))))),
            decreases vecs@.len(),
        {
            let ghost k = out@.len() as int;
            let d = vecs.remove(0);
            proof {
                assert(d == vs[k]);
                assert(vecs@ =~= vs.skip(k + 1));
            }
            let xs = dup_coords(&x);
            let t = self.with_xy(xs, d);
            out.push(TraceHandle::Scatter(t));
        }
        out
    }

    /// The document tree of this chart: exactly the set fields, in order.
    pub fn to_json(&self) -> (v: JsonValue)
        ensures
            v@ == JVal::Obj(self.fields()),
    {
        let mut b = ObjBuilder::new();
        b.field("type", Some(self.plot_type.encode()));
        b.field("name", opt_encode(&self.name));
        b.field("visible", opt_encode(&self.visible));
        b.field("showlegend", opt_encode(&self.show_legend));
        b.field("legendgroup", opt_encode(&self.legend_group));
        b.field("opacity", opt_encode(&self.opacity));
        b.field("mode", opt_encode(&self.mode));
        b.field("ids", opt_encode(&self.ids));
        b.field("x", opt_encode(&self.x));
        b.field("x0", opt_encode(&self.x0));
        b.field("dx", opt_encode(&self.dx));
        b.field("y", opt_encode(&self.y));
        b.field("y0", opt_encode(&self.y0));
        b.field("dy", opt_encode(&self.dy));
        b.field("text", opt_encode(&self.text));
        b.field("textposition", opt_encode(&self.text_position));
        b.field("texttemplate", opt_encode(&self.text_template));
        b.field("hovertext", opt_encode(&self.hover_text));
        b.field("hoverinfo", opt_encode(&self.hover_info));
        b.field("hovertemplate", opt_encode(&self.hover_template));
        b.field("meta", opt_encode(&self.meta));
        b.field("custom_data", opt_encode(&self.custom_data));
        b.field("xaxis", opt_encode(&self.x_axis));
        b.field("yaxis", opt_encode(&self.y_axis));
        b.field("orientation", opt_encode(&self.orientation));
        b.field("groupnorm", opt_encode(&self.group_norm));
        b.field("stackgroup", opt_encode(&self.stack_group));
        b.field("marker", opt_encode(&self.marker));
        b.field("line", opt_encode(&self.line));
        b.field("textfont", opt_encode(&self.text_font));
        b.field("error_x", opt_encode(&self.error_x));
        b.field("error_y", opt_encode(&self.error_y));
        b.field("cliponaxis", opt_encode(&self.clip_on_axis));
        b.field("connectgaps", opt_encode(&self.connect_gaps));
        b.field("fill", opt_encode(&self.fill));
        b.field("fillcolor", opt_encode(&self.fill_color));
        b.field("hoverlabel", opt_encode(&self.hover_label));
        b.field("hoveron", opt_encode(&self.hover_on));
        b.field("stackgaps", opt_encode(&self.stack_gaps));
        b.field("xcalendar", opt_encode(&self.x_calendar));
        b.field("ycalendar", opt_encode(&self.y_calendar));
        proof {
            assert(b.model() =~= self.entries());
        }
        b.finish()
    }
}

impl Trace for Scatter {
    open spec fn doc(&self) -> JVal {
        JVal::Obj(self.fields())
    }

    fn serialize(&self) -> (s: String)
        ensures
            s@ == spec_render(self.doc()),
    {
        self.to_json().render()
    }
}

/// Every field of a scatter chart stands in the serialized object exactly
/// when it is set, under its documented wire key, with the set value's
/// encoding; a never-touched field's key does not occur at all.
#[verifier::rlimit(100)]
pub proof fn law_scatter_field_presence(s: Scatter)
    ensures
        forall|k: Seq<char>|
            #[trigger] obj_has_key(s.fields(), k) == (obj_get(s.fields(), k) is Some),
        obj_get(s.fields(), "type"@) == Some(s.plot_type.enc()),
        obj_get(s.fields(), "name"@) == enc_opt(s.name),
        obj_get(s.fields(), "visible"@) == enc_opt(s.visible),
        obj_get(s.fields(), "showlegend"@) == enc_opt(s.show_legend),
        obj_get(s.fields(), "legendgroup"@) == enc_opt(s.legend_group),
        obj_get(s.fields(), "opacity"@) == enc_opt(s.opacity),
        obj_get(s.fields(), "mode"@) == enc_opt(s.mode),
        obj_get(s.fields(), "ids"@) == enc_opt(s.ids),
        obj_get(s.fields(), "x"@) == enc_opt(s.x),
        obj_get(s.fields(), "x0"@) == enc_opt(s.x0),
        obj_get(s.fields(), "dx"@) == enc_opt(s.dx),
        obj_get(s.fields(), "y"@) == enc_opt(s.y),
        obj_get(s.fields(), "y0"@) == enc_opt(s.y0),
        obj_get(s.fields(), "dy"@) == enc_opt(s.dy),
        obj_get(s.fields(), "text"@) == enc_opt(s.text),
        obj_get(s.fields(), "textposition"@) == enc_opt(s.text_position),
        obj_get(s.fields(), "texttemplate"@) == enc_opt(s.text_template),
        obj_get(s.fields(), "hovertext"@) == enc_opt(s.hover_text),
        obj_get(s.fields(), "hoverinfo"@) == enc_opt(s.hover_info),
        obj_get(s.fields(), "hovertemplate"@) == enc_opt(s.hover_template),
        obj_get(s.fields(), "meta"@) == enc_opt(s.meta),
        obj_get(s.fields(), "custom_data"@) == enc_opt(s.custom_data),
        obj_get(s.fields(), "xaxis"@) == enc_opt(s.x_axis),
        obj_get(s.fields(), "yaxis"@) == enc_opt(s.y_axis),
        obj_get(s.fields(), "orientation"@) == enc_opt(s.orientation),
        obj_get(s.fields(), "groupnorm"@) == enc_opt(s.group_norm),
        obj_get(s.fields(), "stackgroup"@) == enc_opt(s.stack_group),
        obj_get(s.fields(), "marker"@) == enc_opt(s.marker),
        obj_get(s.fields(), "line"@) == enc_opt(s.line),
        obj_get(s.fields(), "textfont"@) == enc_opt(s.text_font),
        obj_get(s.fields(), "error_x"@) == enc_opt(s.error_x),
        obj_get(s.fields(), "error_y"@) == enc_opt(s.error_y),
        obj_get(s.fields(), "cliponaxis"@) == enc_opt(s.clip_on_axis),
        obj_get(s.fields(), "connectgaps"@) == enc_opt(s.connect_gaps),
        obj_get(s.fields(), "fill"@) == enc_opt(s.fill),
        obj_get(s.fields(), "fillcolor"@) == enc_opt(s.fill_color),
        obj_get(s.fields(), "hoverlabel"@) == enc_opt(s.hover_label),
        obj_get(s.fields(), "hoveron"@) == enc_opt(s.hover_on),
        obj_get(s.fields(), "stackgaps"@) == enc_opt(s.stack_gaps),
        obj_get(s.fields(), "xcalendar"@) == enc_opt(s.x_calendar),
        obj_get(s.fields(), "ycalendar"@) == enc_opt(s.y_calendar),
{
    reveal_strlit("type");
    reveal_strlit("name");
    reveal_strlit("visible");
    reveal_strlit("showlegend");
    reveal_strlit("legendgroup");
    reveal_strlit("opacity");
    reveal_strlit("mode");
    reveal_strlit("ids");
    reveal_strlit("x");
    reveal_strlit("x0");
    reveal_strlit("dx");
    reveal_strlit("y");
    reveal_strlit("y0");
    reveal_strlit("dy");
    reveal_strlit("text");
    reveal_strlit("textposition");
    reveal_strlit("texttemplate");
    reveal_strlit("hovertext");
    reveal_strlit("hoverinfo");
    reveal_strlit("hovertemplate");
    reveal_strlit("meta");
    reveal_strlit("custom_data");
    reveal_strlit("xaxis");
    reveal_strlit("yaxis");
    reveal_strlit("orientation");
    reveal_strlit("groupnorm");
    reveal_strlit("stackgroup");
    reveal_strlit("marker");
    reveal_strlit("line");
    reveal_strlit("textfont");
    reveal_strlit("error_x");
    reveal_strlit("error_y");
    reveal_strlit("cliponaxis");
    reveal_strlit("connectgaps");
    reveal_strlit("fill");
    reveal_strlit("fillcolor");
    reveal_strlit("hoverlabel");
    reveal_strlit("hoveron");
    reveal_strlit("stackgaps");
    reveal_strlit("xcalendar");
    reveal_strlit("ycalendar");
    broadcast use vstd::string::group_string_axioms;

    assert forall|k: Seq<char>|
        #[trigger] obj_has_key(s.fields(), k) == (obj_get(s.fields(), k) is Some) by {
        crate::json::lemma_obj_get_some(s.fields(), k);
    }
    let es = s.entries();
    reveal_with_fuel(key_absent_range, 45);
    assert("type"@.len() == 4);
    assert("name"@.len() == 4);
    assert("visible"@.len() == 7);
    assert("showlegend"@.len() == 10);
    assert("legendgroup"@.len() == 11);
    assert("opacity"@.len() == 7);
    assert("mode"@.len() == 4);
    assert("ids"@.len() == 3);
    assert("x"@.len() == 1);
    assert("x0"@.len() == 2);
    assert("dx"@.len() == 2);
    assert("y"@.len() == 1);
    assert("y0"@.len() == 2);
    assert("dy"@.len() == 2);
    assert("text"@.len() == 4);
    assert("textposition"@.len() == 12);
    assert("texttemplate"@.len() == 12);
    assert("hovertext"@.len() == 9);
    assert("hoverinfo"@.len() == 9);
    assert("hovertemplate"@.len() == 13);
    assert("meta"@.len() == 4);
    assert("custom_data"@.len() == 11);
    assert("xaxis"@.len() == 5);
    assert("yaxis"@.len() == 5);
    assert("orientation"@.len() == 11);
    assert("groupnorm"@.len() == 9);
    assert("stackgroup"@.len() == 10);
    assert("marker"@.len() == 6);
    assert("line"@.len() == 4);
    assert("textfont"@.len() == 8);
    assert("error_x"@.len() == 7);
    assert("error_y"@.len() == 7);
    assert("cliponaxis"@.len() == 10);
    assert("connectgaps"@.len() == 11);
    assert("fill"@.len() == 4);
    assert("fillcolor"@.len() == 9);
    assert("hoverlabel"@.len() == 10);
    assert("hoveron"@.len() == 7);
    assert("stackgaps"@.len() == 9);
    assert("xcalendar"@.len() == 9);
    assert("ycalendar"@.len() == 9);
    assert("cliponaxis"@[0] == 'c');
    assert("connectgaps"@[0] == 'c');
    assert("connectgaps"@[1] == 'o');
    assert("custom_data"@[0] == 'c');
    assert("custom_data"@[1] == 'u');
    assert("dx"@[0] == 'd');
    assert("dx"@[1] == 'x');
    assert("dy"@[0] == 'd');
    assert("dy"@[1] == 'y');
    assert("error_x"@[0] == 'e');
    assert("error_x"@[6] == 'x');
    assert("error_y"@[0] == 'e');
    assert("error_y"@[6] == 'y');
    assert("fill"@[0] == 'f');
    assert("fillcolor"@[0] == 'f');
    assert("groupnorm"@[0] == 'g');
    assert("hoverinfo"@[0] == 'h');
    assert("hoverinfo"@[5] == 'i');
    assert("hoverlabel"@[0] == 'h');
    assert("hoveron"@[0] == 'h');
    assert("hovertext"@[0] == 'h');
    assert("hovertext"@[5] == 't');
    assert("legendgroup"@[0] == 'l');
    assert("line"@[0] == 'l');
    assert("meta"@[0] == 'm');
    assert("meta"@[1] == 'e');
    assert("mode"@[0] == 'm');
    assert("mode"@[1] == 'o');
    assert("name"@[0] == 'n');
    assert("opacity"@[0] == 'o');
    assert("orientation"@[0] == 'o');
    assert("showlegend"@[0] == 's');
    assert("showlegend"@[1] == 'h');
    assert("stackgaps"@[0] == 's');
    assert("stackgroup"@[0] == 's');
    assert("stackgroup"@[1] == 't');
    assert("text"@[0] == 't');
    assert("text"@[1] == 'e');
    assert("textposition"@[4] == 'p');
    assert("texttemplate"@[4] == 't');
    assert("type"@[0] == 't');
    assert("type"@[1] == 'y');
    assert("visible"@[0] == 'v');
    assert("x"@[0] == 'x');
    assert("x0"@[0] == 'x');
    assert("xaxis"@[0] == 'x');
    assert("xcalendar"@[0] == 'x');
    assert("y"@[0] == 'y');
    assert("y0"@[0] == 'y');
    assert("yaxis"@[0] == 'y');
    assert("ycalendar"@[0] == 'y');
    crate::json::lemma_present_get_grounded(es, 0);
    crate::json::lemma_present_get_grounded(es, 1);
    crate::json::lemma_present_get_grounded(es, 2);
    crate::json::lemma_present_get_grounded(es, 3);
    crate::json::lemma_present_get_grounded(es, 4);
    crate::json::lemma_present_get_grounded(es, 5);
    crate::json::lemma_present_get_grounded(es, 6);
    crate::json::lemma_present_get_grounded(es, 7);
    crate::json::lemma_present_get_grounded(es, 8);
    crate::json::lemma_present_get_grounded(es, 9);
    crate::json::lemma_present_get_grounded(es, 10);
    crate::json::lemma_present_get_grounded(es, 11);
    crate::json::lemma_present_get_grounded(es, 12);
    crate::json::lemma_present_get_grounded(es, 13);
    crate::json::lemma_present_get_grounded(es, 14);
    crate::json::lemma_present_get_grounded(es, 15);
    crate::json::lemma_present_get_grounded(es, 16);
    crate::json::lemma_present_get_grounded(es, 17);
    crate::json::lemma_present_get_grounded(es, 18);
    crate::json::lemma_present_get_grounded(es, 19);
    crate::json::lemma_present_get_grounded(es, 20);
    crate::json::lemma_present_get_grounded(es, 21);
    crate::json::lemma_present_get_grounded(es, 22);
    crate::json::lemma_present_get_grounded(es, 23);
    crate::json::lemma_present_get_grounded(es, 24);
    crate::json::lemma_present_get_grounded(es, 25);
    crate::json::lemma_present_get_grounded(es, 26);
    crate::json::lemma_present_get_grounded(es, 27);
    crate::json::lemma_present_get_grounded(es, 28);
    crate::json::lemma_present_get_grounded(es, 29);
    crate::json::lemma_present_get_grounded(es, 30);
    crate::json::lemma_present_get_grounded(es, 31);
    crate::json::lemma_present_get_grounded(es, 32);
    crate::json::lemma_present_get_grounded(es, 33);
    crate::json::lemma_present_get_grounded(es, 34);
    crate::json::lemma_present_get_grounded(es, 35);
    crate::json::lemma_present_get_grounded(es, 36);
    crate::json::lemma_present_get_grounded(es, 37);
    crate::json::lemma_present_get_grounded(es, 38);
    crate::json::lemma_present_get_grounded(es, 39);
    crate::json::lemma_present_get_grounded(es, 40);
}

/// On one dimensional attribute slot, a scalar call and an array call each
/// replace whatever the slot held: the later call wins whole, every other
/// field untouched.
pub fn law_scatter_dim_overwrite(sc: Scatter, p: Position, ps: Vec<Position>) -> (r: Scatter)
    ensures
        r == (Scatter { text_position: Some(DimAttr::Sequence(ps)), ..sc }),
{
    sc.text_position(p).text_position_array(ps)
}

} // verus!
