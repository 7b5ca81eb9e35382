//! The candlestick chart builder.

use vstd::prelude::*;

use crate::common::{
    Calendar, ColorSpec, DimAttr, Direction, HoverInfo, Label, Line, NamedColor, NumOrString,
    PlotType,
};
use crate::json::{
    enc_opt, enc_seq, key_absent_range, obj_get, obj_has_key, opt_encode, present, spec_render, Enc, JVal,
    JsonValue, ObjBuilder, OptEntry, Real,
};
use crate::trace::Trace;

verus! {

/// A candlestick chart: a shared abscissa, four required price sequences, a
/// fixed discriminant, and one optional slot per attribute.
///
/// Construction pre-populates the `increasing` and `decreasing` direction
/// sub-models with a fixed default line width and the two fixed default
/// colors; a later mutator call on either slot replaces the default whole.
#[derive(Debug)]
pub struct Candlestick {
    pub plot_type: PlotType,
    pub x: Vec<NumOrString>,
    pub open: Vec<NumOrString>,
    pub high: Vec<NumOrString>,
    pub low: Vec<NumOrString>,
    pub close: Vec<NumOrString>,
    pub name: Option<String>,
    pub visible: Option<bool>,
    pub show_legend: Option<bool>,
    pub legend_group: Option<String>,
    pub opacity: Option<Real>,
    pub text: Option<DimAttr<String>>,
    pub hover_text: Option<DimAttr<String>>,
    pub hover_info: Option<HoverInfo>,
    pub x_axis: Option<String>,
    pub y_axis: Option<String>,
    pub line: Option<Line>,
    pub whisker_width: Option<Real>,
    pub increasing: Option<Direction>,
    pub decreasing: Option<Direction>,
    pub hover_label: Option<Label>,
    pub x_calendar: Option<Calendar>,
}

impl Candlestick {
    /// Every field of the serialized object, under its fixed wire key, in
    /// order.
    pub open spec fn entries(self) -> Seq<OptEntry> {
        seq![
            ("type"@, Some(self.plot_type.enc())),
            ("x"@, Some(JVal::Arr(enc_seq(self.x@)))),
            ("open"@, Some(JVal::Arr(enc_seq(self.open@)))),
            ("high"@, Some(JVal::Arr(enc_seq(self.high@)))),
            ("low"@, Some(JVal::Arr(enc_seq(self.low@)))),
            ("close"@, Some(JVal::Arr(enc_seq(self.close@)))),
            ("name"@, enc_opt(self.name)),
            ("visible"@, enc_opt(self.visible)),
            ("showlegend"@, enc_opt(self.show_legend)),
            ("legendgroup"@, enc_opt(self.legend_group)),
            ("opacity"@, enc_opt(self.opacity)),
            ("text"@, enc_opt(self.text)),
            ("hovertext"@, enc_opt(self.hover_text)),
            ("hoverinfo"@, enc_opt(self.hover_info)),
            ("xaxis"@, enc_opt(self.x_axis)),
            ("yaxis"@, enc_opt(self.y_axis)),
            ("line"@, enc_opt(self.line)),
            ("whiskerwidth"@, enc_opt(self.whisker_width)),
            ("increasing"@, enc_opt(self.increasing)),
            ("decreasing"@, enc_opt(self.decreasing)),
            ("hoverlabel"@, enc_opt(self.hover_label)),
            ("xcalendar"@, enc_opt(self.x_calendar)),
        ]
    }

    /// The fields of the serialized object: exactly the set entries, in
    /// order.
    pub open spec fn fields(self) -> Seq<(Seq<char>, JVal)> {
        present(self.entries())
    }

    /// A new candlestick chart of the given sequences, every other attribute
    /// unset except the two direction defaults: rising candles get a green
    /// line, falling candles a red one, both of width one (rendered `1.0`).
    pub fn new(
        x: Vec<NumOrString>,
        open: Vec<NumOrString>,
        high: Vec<NumOrString>,
        low: Vec<NumOrString>,
        close: Vec<NumOrString>,
    ) -> (r: Candlestick)
        ensures
            r == (Candlestick {
                x,
                open,
                high,
                low,
                close,
                plot_type: PlotType::Candlestick,
                increasing: r.increasing,
                decreasing: r.decreasing,
                name: None,
                visible: None,
                show_legend: None,
                legend_group: None,
                opacity: None,
                text: None,
                hover_text: None,
                hover_info: None,
                x_axis: None,
                y_axis: None,
                line: None,
                whisker_width: None,
                hover_label: None,
                x_calendar: None,
            }),
            r.increasing matches Some(Direction::Increasing { line })
                && line.color == Some(ColorSpec::Named(NamedColor::Green))
                && line.dash is None
                && (line.width matches Some(w) && w.model() == JVal::Num(false, 10nat, 1nat)),
            r.decreasing matches Some(Direction::Decreasing { line })
                && line.color == Some(ColorSpec::Named(NamedColor::Red))
                && line.dash is None
                && (line.width matches Some(w) && w.model() == JVal::Num(false, 10nat, 1nat)),
    {
        let iline = Line::new().width(Real::decimal(false, 10, 1)).color(
            ColorSpec::Named(NamedColor::Green),
        );
        let dline = Line::new().width(Real::decimal(false, 10, 1)).color(
            ColorSpec::Named(NamedColor::Red),
        );
        Candlestick {
            plot_type: PlotType::Candlestick,
            x,
            open,
            high,
            low,
            close,
            name: None,
            visible: None,
            show_legend: None,
            legend_group: None,
            opacity: None,
            text: None,
            hover_text: None,
            hover_info: None,
            x_axis: None,
            y_axis: None,
            line: None,
            whisker_width: None,
            increasing: Some(Direction::Increasing { line: iline }),
            decreasing: Some(Direction::Decreasing { line: dline }),
            hover_label: None,
            x_calendar: None,
        }
    }

    pub fn name(self, name: &str) -> (r: Candlestick)
        ensures
            r == (Candlestick { name: r.name, ..self }),
            r.name matches Some(n) && n@ == name@,
    {
        Candlestick { name: Some(name.to_owned()), ..self }
    }

    pub fn visible(self, visible: bool) -> (r: Candlestick)
        ensures
            r == (Candlestick { visible: Some(visible), ..self }),
    {
        Candlestick { visible: Some(visible), ..self }
    }

    pub fn show_legend(self, show_legend: bool) -> (r: Candlestick)
        ensures
            r == (Candlestick { show_legend: Some(show_legend), ..self }),
    {
        Candlestick { show_legend: Some(show_legend), ..self }
    }

    pub fn legend_group(self, legend_group: &str) -> (r: Candlestick)
        ensures
            r == (Candlestick { legend_group: r.legend_group, ..self }),
            r.legend_group matches Some(g) && g@ == legend_group@,
    {
        Candlestick { legend_group: Some(legend_group.to_owned()), ..self }
    }

    pub fn opacity(self, opacity: Real) -> (r: Candlestick)
        ensures
            r == (Candlestick { opacity: Some(opacity), ..self }),
    {
        Candlestick { opacity: Some(opacity), ..self }
    }

    pub fn text(self, text: &str) -> (r: Candlestick)
        ensures
            r == (Candlestick { text: r.text, ..self }),
            r.text matches Some(DimAttr::Scalar(t)) && t@ == text@,
    {
        Candlestick { text: Some(DimAttr::Scalar(text.to_owned())), ..self }
    }

    pub fn text_array(self, text: Vec<String>) -> (r: Candlestick)
        ensures
            r == (Candlestick { text: Some(DimAttr::Sequence(text)), ..self }),
    {
        Candlestick { text: Some(DimAttr::Sequence(text)), ..self }
    }

    pub fn hover_text(self, hover_text: &str) -> (r: Candlestick)
        ensures
            r == (Candlestick { hover_text: r.hover_text, ..self }),
            r.hover_text matches Some(DimAttr::Scalar(t)) && t@ == hover_text@,
    {
        Candlestick { hover_text: Some(DimAttr::Scalar(hover_text.to_owned())), ..self }
    }

    pub fn hover_text_array(self, hover_text: Vec<String>) -> (r: Candlestick)
        ensures
            r == (Candlestick { hover_text: Some(DimAttr::Sequence(hover_text)), ..self }),
    {
        Candlestick { hover_text: Some(DimAttr::Sequence(hover_text)), ..self }
    }

    pub fn hover_info(self, hover_info: HoverInfo) -> (r: Candlestick)
        ensures
            r == (Candlestick { hover_info: Some(hover_info), ..self }),
    {
        Candlestick { hover_info: Some(hover_info), ..self }
    }

    pub fn x_axis(self, axis: &str) -> (r: Candlestick)
        ensures
            r == (Candlestick { x_axis: r.x_axis, ..self }),
            r.x_axis matches Some(a) && a@ == axis@,
    {
        Candlestick { x_axis: Some(axis.to_owned()), ..self }
    }

    pub fn y_axis(self, axis: &str) -> (r: Candlestick)
        ensures
            r == (Candlestick { y_axis: r.y_axis, ..self }),
            r.y_axis matches Some(a) && a@ == axis@,
    {
        Candlestick { y_axis: Some(axis.to_owned()), ..self }
    }

    pub fn line(self, line: Line) -> (r: Candlestick)
        ensures
            r == (Candlestick { line: Some(line), ..self }),
    {
        Candlestick { line: Some(line), ..self }
    }

    pub fn whisker_width(self, whisker_width: Real) -> (r: Candlestick)
        ensures
            r == (Candlestick { whisker_width: Some(whisker_width), ..self }),
    {
        Candlestick { whisker_width: Some(whisker_width), ..self }
    }

    /// Replaces the rising-candle styling whole; the construction-time
    /// default does not merge into the new value.
    pub fn increasing(self, increasing: Direction) -> (r: Candlestick)
        ensures
            r == (Candlestick { increasing: Some(increasing), ..self }),
    {
        Candlestick { increasing: Some(increasing), ..self }
    }

    /// Replaces the falling-candle styling whole; the construction-time
    /// default does not merge into the new value.
    pub fn decreasing(self, decreasing: Direction) -> (r: Candlestick)
        ensures
            r == (Candlestick { decreasing: Some(decreasing), ..self }),
    {
        Candlestick { decreasing: Some(decreasing), ..self }
    }

    pub fn hover_label(self, hover_label: Label) -> (r: Candlestick)
        ensures
            r == (Candlestick { hover_label: Some(hover_label), ..self }),
    {
        Candlestick { hover_label: Some(hover_label), ..self }
    }

    pub fn x_calendar(self, x_calendar: Calendar) -> (r: Candlestick)
        ensures
            r == (Candlestick { x_calendar: Some(x_calendar), ..self }),
    {
        Candlestick { x_calendar: Some(x_calendar), ..self }
    }

    /// The document tree of this chart: exactly the set fields, in order.
    pub fn to_json(&self) -> (v: JsonValue)
        ensures
            v@ == JVal::Obj(self.fields()),
    {
        let mut b = ObjBuilder::new();
        b.field("type", Some(self.plot_type.encode()));
        b.field("x", Some(self.x.encode()));
        b.field("open", Some(self.open.encode()));
        b.field("high", Some(self.high.encode()));
        b.field("low", Some(self.low.encode()));
        b.field("close", Some(self.close.encode()));
        b.field("name", opt_encode(&self.name));
        b.field("visible", opt_encode(&self.visible));
        b.field("showlegend", opt_encode(&self.show_legend));
        b.field("legendgroup", opt_encode(&self.legend_group));
        b.field("opacity", opt_encode(&self.opacity));
        b.field("text", opt_encode(&self.text));
        b.field("hovertext", opt_encode(&self.hover_text));
        b.field("hoverinfo", opt_encode(&self.hover_info));
        b.field("xaxis", opt_encode(&self.x_axis));
        b.field("yaxis", opt_encode(&self.y_axis));
        b.field("line", opt_encode(&self.line));
        b.field("whiskerwidth", opt_encode(&self.whisker_width));
        b.field("increasing", opt_encode(&self.increasing));
        b.field("decreasing", opt_encode(&self.decreasing));
        b.field("hoverlabel", opt_encode(&self.hover_label));
        b.field("xcalendar", opt_encode(&self.x_calendar));
        proof {
            assert(b.model() =~= self.entries());
        }
        b.finish()
    }
}

impl Trace for Candlestick {
    open spec fn doc(&self) -> JVal {
        JVal::Obj(self.fields())
    }

    fn serialize(&self) -> (s: String)
        ensures
            s@ == spec_render(self.doc()),
    {
        self.to_json().render()
    }
}

/// Every field of a candlestick chart stands in the serialized object
/// exactly when it is set, under its documented wire key, with the set
/// value's encoding; a never-touched field's key does not occur at all.
#[verifier::rlimit(100)]
pub proof fn law_candlestick_field_presence(c: Candlestick)
    ensures
        forall|k: Seq<char>|
            #[trigger] obj_has_key(c.fields(), k) == (obj_get(c.fields(), k) is Some),
        obj_get(c.fields(), "type"@) == Some(c.plot_type.enc()),
        obj_get(c.fields(), "x"@) == Some(JVal::Arr(enc_seq(c.x@))),
        obj_get(c.fields(), "open"@) == Some(JVal::Arr(enc_seq(c.open@))),
        obj_get(c.fields(), "high"@) == Some(JVal::Arr(enc_seq(c.high@))),
        obj_get(c.fields(), "low"@) == Some(JVal::Arr(enc_seq(c.low@))),
        obj_get(c.fields(), "close"@) == Some(JVal::Arr(enc_seq(c.close@))),
        obj_get(c.fields(), "name"@) == enc_opt(c.name),
        obj_get(c.fields(), "visible"@) == enc_opt(c.visible),
        obj_get(c.fields(), "showlegend"@) == enc_opt(c.show_legend),
        obj_get(c.fields(), "legendgroup"@) == enc_opt(c.legend_group),
        obj_get(c.fields(), "opacity"@) == enc_opt(c.opacity),
        obj_get(c.fields(), "text"@) == enc_opt(c.text),
        obj_get(c.fields(), "hovertext"@) == enc_opt(c.hover_text),
        obj_get(c.fields(), "hoverinfo"@) == enc_opt(c.hover_info),
        obj_get(c.fields(), "xaxis"@) == enc_opt(c.x_axis),
        obj_get(c.fields(), "yaxis"@) == enc_opt(c.y_axis),
        obj_get(c.fields(), "line"@) == enc_opt(c.line),
        obj_get(c.fields(), "whiskerwidth"@) == enc_opt(c.whisker_width),
        obj_get(c.fields(), "increasing"@) == enc_opt(c.increasing),
        obj_get(c.fields(), "decreasing"@) == enc_opt(c.decreasing),
        obj_get(c.fields(), "hoverlabel"@) == enc_opt(c.hover_label),
        obj_get(c.fields(), "xcalendar"@) == enc_opt(c.x_calendar),
{
    reveal_strlit("type");
    reveal_strlit("x");
    reveal_strlit("open");
    reveal_strlit("high");
    reveal_strlit("low");
    reveal_strlit("close");
    reveal_strlit("name");
    reveal_strlit("visible");
    reveal_strlit("showlegend");
    reveal_strlit("legendgroup");
    reveal_strlit("opacity");
    reveal_strlit("text");
    reveal_strlit("hovertext");
    reveal_strlit("hoverinfo");
    reveal_strlit("xaxis");
    reveal_strlit("yaxis");
    reveal_strlit("line");
    reveal_strlit("whiskerwidth");
    reveal_strlit("increasing");
    reveal_strlit("decreasing");
    reveal_strlit("hoverlabel");
    reveal_strlit("xcalendar");
    broadcast use vstd::string::group_string_axioms;

    assert forall|k: Seq<char>|
        #[trigger] obj_has_key(c.fields(), k) == (obj_get(c.fields(), k) is Some) by {
        crate::json::lemma_obj_get_some(c.fields(), k);
    }
    let es = c.entries();
    reveal_with_fuel(key_absent_range, 26);
    assert("type"@.len() == 4);
    assert("x"@.len() == 1);
    assert("open"@.len() == 4);
    assert("high"@.len() == 4);
    assert("low"@.len() == 3);
    assert("close"@.len() == 5);
    assert("name"@.len() == 4);
    assert("visible"@.len() == 7);
    assert("showlegend"@.len() == 10);
    assert("legendgroup"@.len() == 11);
    assert("opacity"@.len() == 7);
    assert("text"@.len() == 4);
    assert("hovertext"@.len() == 9);
    assert("hoverinfo"@.len() == 9);
    assert("xaxis"@.len() == 5);
    assert("yaxis"@.len() == 5);
    assert("line"@.len() == 4);
    assert("whiskerwidth"@.len() == 12);
    assert("increasing"@.len() == 10);
    assert("decreasing"@.len() == 10);
    assert("hoverlabel"@.len() == 10);
    assert("xcalendar"@.len() == 9);
    assert("close"@[0] == 'c');
    assert("decreasing"@[0] == 'd');
    assert("high"@[0] == 'h');
    assert("hoverinfo"@[0] == 'h');
    assert("hoverinfo"@[5] == 'i');
    assert("hoverlabel"@[0] == 'h');
    assert("hovertext"@[0] == 'h');
    assert("hovertext"@[5] == 't');
    assert("increasing"@[0] == 'i');
    assert("line"@[0] == 'l');
    assert("name"@[0] == 'n');
    assert("opacity"@[0] == 'o');
    assert("open"@[0] == 'o');
    assert("showlegend"@[0] == 's');
    assert("text"@[0] == 't');
    assert("text"@[1] == 'e');
    assert("type"@[0] == 't');
    assert("type"@[1] == 'y');
    assert("visible"@[0] == 'v');
    assert("xaxis"@[0] == 'x');
    assert("xcalendar"@[0] == 'x');
    assert("yaxis"@[0] == 'y');
    crate::json::lemma_present_get_grounded(es, 0);
    crate::json::lemma_present_get_grounded(es, 1);
    crate::json::lemma_present_get_grounded(es, 2);
    crate::json::lemma_present_get_grounded(es, 3);
    crate::json::lemma_present_get_grounded(es, 4);
    crate::json::lemma_present_get_grounded(es, 5);
    crate::json::lemma_present_get_grounded(es, 6);
    crate::json::lemma_present_get_grounded(es, 7);
    crate::json::lemma_present_get_grounded(es, 8);
    crate::json::lemma_present_get_grounded(es, 9);
    crate::json::lemma_present_get_grounded(es, 10);
    crate::json::lemma_present_get_grounded(es, 11);
    crate::json::lemma_present_get_grounded(es, 12);
    crate::json::lemma_present_get_grounded(es, 13);
    crate::json::lemma_present_get_grounded(es, 14);
    crate::json::lemma_present_get_grounded(es, 15);
    crate::json::lemma_present_get_grounded(es, 16);
    crate::json::lemma_present_get_grounded(es, 17);
    crate::json::lemma_present_get_grounded(es, 18);
    crate::json::lemma_present_get_grounded(es, 19);
    crate::json::lemma_present_get_grounded(es, 20);
    crate::json::lemma_present_get_grounded(es, 21);
}

/// On one dimensional attribute slot, a scalar call and an array call each
/// replace whatever the slot held: the later call wins whole, every other
/// field untouched.
pub fn law_candlestick_dim_overwrite(c: Candlestick, t: &str, vs: Vec<String>) -> (r: Candlestick)
    ensures
        r == (Candlestick { text: Some(DimAttr::Sequence(vs)), ..c }),
{
    c.text(t).text_array(vs)
}

} // verus!
