//! The bar chart builder.

use vstd::prelude::*;

use crate::common::{
    Calendar, ConstrainText, DimAttr, ErrorData, Font, HoverInfo, Label, Marker, NumOrString,
    Orientation, PlotType, TextAnchor, TextPosition,
};
use crate::json::{
    enc_opt, enc_seq, key_absent_range, obj_get, obj_has_key, opt_encode, present, spec_render, Enc, JVal,
    JsonValue, ObjBuilder, OptEntry, Real,
};
use crate::trace::Trace;

verus! {

/// A bar chart: two required coordinate sequences, a fixed discriminant, and
/// one optional slot per attribute.  Every optional attribute starts unset
/// and is written by exactly one mutator; an unset attribute is omitted from
/// the serialized object entirely.
#[derive(Debug)]
pub struct Bar {
    pub x: Vec<NumOrString>,
    pub y: Vec<NumOrString>,
    pub plot_type: PlotType,
    pub name: Option<String>,
    pub visible: Option<bool>,
    pub show_legend: Option<bool>,
    pub legend_group: Option<String>,
    pub opacity: Option<Real>,
    pub ids: Option<Vec<String>>,
    pub width: Option<usize>,
    pub offset: Option<DimAttr<usize>>,
    pub text: Option<DimAttr<String>>,
    pub text_position: Option<DimAttr<TextPosition>>,
    pub text_template: Option<DimAttr<String>>,
    pub hover_text: Option<DimAttr<String>>,
    pub hover_info: Option<HoverInfo>,
    pub hover_template: Option<DimAttr<String>>,
    pub x_axis: Option<String>,
    pub y_axis: Option<String>,
    pub orientation: Option<Orientation>,
    pub alignment_group: Option<String>,
    pub offset_group: Option<String>,
    pub marker: Option<Marker>,
    pub text_angle: Option<Real>,
    pub text_font: Option<Font>,
    pub error_x: Option<ErrorData>,
    pub error_y: Option<ErrorData>,
    pub clip_on_axis: Option<bool>,
    pub constrain_text: Option<ConstrainText>,
    pub hover_label: Option<Label>,
    pub inside_text_anchor: Option<TextAnchor>,
    pub inside_text_font: Option<Font>,
    pub outside_text_font: Option<Font>,
    pub x_calendar: Option<Calendar>,
    pub y_calendar: Option<Calendar>,
}

impl Bar {
    /// Every field of the serialized object, under its fixed wire key, in
    /// order: the required coordinates and discriminant always set, each
    /// optional attribute set exactly when its slot is.
    pub open spec fn entries(self) -> Seq<OptEntry> {
        seq![
            ("x"@, Some(JVal::Arr(enc_seq(self.x@)))),
            ("y"@, Some(JVal::Arr(enc_seq(self.y@)))),
            ("type"@, Some(self.plot_type.enc())),
            ("name"@, enc_opt(self.name)),
            ("visible"@, enc_opt(self.visible)),
            ("showlegend"@, enc_opt(self.show_legend)),
            ("legendgroup"@, enc_opt(self.legend_group)),
            ("opacity"@, enc_opt(self.opacity)),
            ("ids"@, enc_opt(self.ids)),
            ("width"@, enc_opt(self.width)),
            ("offset"@, enc_opt(self.offset)),
            ("text"@, enc_opt(self.text)),
            ("textposition"@, enc_opt(self.text_position)),
            ("texttemplate"@, enc_opt(self.text_template)),
            ("hovertext"@, enc_opt(self.hover_text)),
            ("hoverinfo"@, enc_opt(self.hover_info)),
            ("hovertemplate"@, enc_opt(self.hover_template)),
            ("xaxis"@, enc_opt(self.x_axis)),
            ("yaxis"@, enc_opt(self.y_axis)),
            ("orientation"@, enc_opt(self.orientation)),
            ("alignmentgroup"@, enc_opt(self.alignment_group)),
            ("offsetgroup"@, enc_opt(self.offset_group)),
            ("marker"@, enc_opt(self.marker)),
            ("textangle"@, enc_opt(self.text_angle)),
            ("textfont"@, enc_opt(self.text_font)),
            ("error_x"@, enc_opt(self.error_x)),
            ("error_y"@, enc_opt(self.error_y)),
            ("cliponaxis"@, enc_opt(self.clip_on_axis)),
            ("constraintext"@, enc_opt(self.constrain_text)),
            ("hoverlabel"@, enc_opt(self.hover_label)),
            ("insidetextanchor"@, enc_opt(self.inside_text_anchor)),
            ("insidetextfont"@, enc_opt(self.inside_text_font)),
            ("outsidetextfont"@, enc_opt(self.outside_text_font)),
            ("xcalendar"@, enc_opt(self.x_calendar)),
            ("ycalendar"@, enc_opt(self.y_calendar)),
        ]
    }

    /// The fields of the serialized object: exactly the set entries, in
    /// order.
    pub open spec fn fields(self) -> Seq<(Seq<char>, JVal)> {
        present(self.entries())
    }

    /// A new bar chart of the given coordinates: discriminant fixed, every
    /// optional attribute unset.
    pub fn new(x: Vec<NumOrString>, y: Vec<NumOrString>) -> (r: Bar)
        ensures
            r == (Bar {
                x,
                y,
                plot_type: PlotType::Bar,
                name: None,
                visible: None,
                show_legend: None,
                legend_group: None,
                opacity: None,
                ids: None,
                width: None,
                offset: None,
                text: None,
                text_position: None,
                text_template: None,
                hover_text: None,
                hover_info: None,
                hover_template: None,
                x_axis: None,
                y_axis: None,
                orientation: None,
                alignment_group: None,
                offset_group: None,
                marker: None,
                text_angle: None,
                text_font: None,
                error_x: None,
                error_y: None,
                clip_on_axis: None,
                constrain_text: None,
                hover_label: None,
                inside_text_anchor: None,
                inside_text_font: None,
                outside_text_font: None,
                x_calendar: None,
                y_calendar: None,
            }),
    {
        Bar {
            x,
            y,
            plot_type: PlotType::Bar,
            name: None,
            visible: None,
            show_legend: None,
            legend_group: None,
            opacity: None,
            ids: None,
            width: None,
            offset: None,
            text: None,
            text_position: None,
            text_template: None,
            hover_text: None,
            hover_info: None,
            hover_template: None,
            x_axis: None,
            y_axis: None,
            orientation: None,
            alignment_group: None,
            offset_group: None,
            marker: None,
            text_angle: None,
            text_font: None,
            error_x: None,
            error_y: None,
            clip_on_axis: None,
            constrain_text: None,
            hover_label: None,
            inside_text_anchor: None,
            inside_text_font: None,
            outside_text_font: None,
            x_calendar: None,
            y_calendar: None,
        }
    }

    pub fn name(self, name: &str) -> (r: Bar)
        ensures
            r == (Bar { name: r.name, ..self }),
            r.name matches Some(n) && n@ == name@,
    {
        Bar { name: Some(name.to_owned()), ..self }
    }

    pub fn visible(self, visible: bool) -> (r: Bar)
        ensures
            r == (Bar { visible: Some(visible), ..self }),
    {
        Bar { visible: Some(visible), ..self }
    }

    pub fn show_legend(self, show_legend: bool) -> (r: Bar)
        ensures
            r == (Bar { show_legend: Some(show_legend), ..self }),
    {
        Bar { show_legend: Some(show_legend), ..self }
    }

    pub fn legend_group(self, legend_group: &str) -> (r: Bar)
        ensures
            r == (Bar { legend_group: r.legend_group, ..self }),
            r.legend_group matches Some(g) && g@ == legend_group@,
    {
        Bar { legend_group: Some(legend_group.to_owned()), ..self }
    }

    pub fn opacity(self, opacity: Real) -> (r: Bar)
        ensures
            r == (Bar { opacity: Some(opacity), ..self }),
    {
        Bar { opacity: Some(opacity), ..self }
    }

    pub fn ids(self, ids: Vec<String>) -> (r: Bar)
        ensures
            r == (Bar { ids: Some(ids), ..self }),
    {
        Bar { ids: Some(ids), ..self }
    }

    pub fn width(self, width: usize) -> (r: Bar)
        ensures
            r == (Bar { width: Some(width), ..self }),
    {
        Bar { width: Some(width), ..self }
    }

    pub fn offset(self, offset: usize) -> (r: Bar)
        ensures
            r == (Bar { offset: Some(DimAttr::Scalar(offset)), ..self }),
    {
        Bar { offset: Some(DimAttr::Scalar(offset)), ..self }
    }

    pub fn offset_array(self, offset: Vec<usize>) -> (r: Bar)
        ensures
            r == (Bar { offset: Some(DimAttr::Sequence(offset)), ..self }),
    {
        Bar { offset: Some(DimAttr::Sequence(offset)), ..self }
    }

    pub fn text(self, text: &str) -> (r: Bar)
        ensures
            r == (Bar { text: r.text, ..self }),
            r.text matches Some(DimAttr::Scalar(t)) && t@ == text@,
    {
        Bar { text: Some(DimAttr::Scalar(text.to_owned())), ..self }
    }

    pub fn text_array(self, text: Vec<String>) -> (r: Bar)
        ensures
            r == (Bar { text: Some(DimAttr::Sequence(text)), ..self }),
    {
        Bar { text: Some(DimAttr::Sequence(text)), ..self }
    }

    pub fn text_position(self, text_position: TextPosition) -> (r: Bar)
        ensures
            r == (Bar { text_position: Some(DimAttr::Scalar(text_position)), ..self }),
    {
        Bar { text_position: Some(DimAttr::Scalar(text_position)), ..self }
    }

    pub fn text_position_array(self, text_position: Vec<TextPosition>) -> (r: Bar)
        ensures
            r == (Bar { text_position: Some(DimAttr::Sequence(text_position)), ..self }),
    {
        Bar { text_position: Some(DimAttr::Sequence(text_position)), ..self }
    }

    pub fn text_template(self, text_template: &str) -> (r: Bar)
        ensures
            r == (Bar { text_template: r.text_template, ..self }),
            r.text_template matches Some(DimAttr::Scalar(t)) && t@ == text_template@,
    {
        Bar { text_template: Some(DimAttr::Scalar(text_template.to_owned())), ..self }
    }

    pub fn text_template_array(self, text_template: Vec<String>) -> (r: Bar)
        ensures
            r == (Bar { text_template: Some(DimAttr::Sequence(text_template)), ..self }),
    {
        Bar { text_template: Some(DimAttr::Sequence(text_template)), ..self }
    }

    pub fn hover_text(self, hover_text: &str) -> (r: Bar)
        ensures
            r == (Bar { hover_text: r.hover_text, ..self }),
            r.hover_text matches Some(DimAttr::Scalar(t)) && t@ == hover_text@,
    {
        Bar { hover_text: Some(DimAttr::Scalar(hover_text.to_owned())), ..self }
    }

    pub fn hover_text_array(self, hover_text: Vec<String>) -> (r: Bar)
        ensures
            r == (Bar { hover_text: Some(DimAttr::Sequence(hover_text)), ..self }),
    {
        Bar { hover_text: Some(DimAttr::Sequence(hover_text)), ..self }
    }

    pub fn hover_info(self, hover_info: HoverInfo) -> (r: Bar)
        ensures
            r == (Bar { hover_info: Some(hover_info), ..self }),
    {
        Bar { hover_info: Some(hover_info), ..self }
    }

    pub fn hover_template(self, hover_template: &str) -> (r: Bar)
        ensures
            r == (Bar { hover_template: r.hover_template, ..self }),
            r.hover_template matches Some(DimAttr::Scalar(t)) && t@ == hover_template@,
    {
        Bar { hover_template: Some(DimAttr::Scalar(hover_template.to_owned())), ..self }
    }

    pub fn hover_template_array(self, hover_template: Vec<String>) -> (r: Bar)
        ensures
            r == (Bar { hover_template: Some(DimAttr::Sequence(hover_template)), ..self }),
    {
        Bar { hover_template: Some(DimAttr::Sequence(hover_template)), ..self }
    }

    pub fn x_axis(self, axis: &str) -> (r: Bar)
        ensures
            r == (Bar { x_axis: r.x_axis, ..self }),
            r.x_axis matches Some(a) && a@ == axis@,
    {
        Bar { x_axis: Some(axis.to_owned()), ..self }
    }

    pub fn y_axis(self, axis: &str) -> (r: Bar)
        ensures
            r == (Bar { y_axis: r.y_axis, ..self }),
            r.y_axis matches Some(a) && a@ == axis@,
    {
        Bar { y_axis: Some(axis.to_owned()), ..self }
    }

    pub fn orientation(self, orientation: Orientation) -> (r: Bar)
        ensures
            r == (Bar { orientation: Some(orientation), ..self }),
    {
        Bar { orientation: Some(orientation), ..self }
    }

    pub fn alignment_group(self, alignment_group: &str) -> (r: Bar)
        ensures
            r == (Bar { alignment_group: r.alignment_group, ..self }),
            r.alignment_group matches Some(g) && g@ == alignment_group@,
    {
        Bar { alignment_group: Some(alignment_group.to_owned()), ..self }
    }

    pub fn offset_group(self, offset_group: &str) -> (r: Bar)
        ensures
            r == (Bar { offset_group: r.offset_group, ..self }),
            r.offset_group matches Some(g) && g@ == offset_group@,
    {
        Bar { offset_group: Some(offset_group.to_owned()), ..self }
    }

    pub fn marker(self, marker: Marker) -> (r: Bar)
        ensures
            r == (Bar { marker: Some(marker), ..self }),
    {
        Bar { marker: Some(marker), ..self }
    }

    pub fn text_angle(self, text_angle: Real) -> (r: Bar)
        ensures
            r == (Bar { text_angle: Some(text_angle), ..self }),
    {
        Bar { text_angle: Some(text_angle), ..self }
    }

    pub fn text_font(self, text_font: Font) -> (r: Bar)
        ensures
            r == (Bar { text_font: Some(text_font), ..self }),
    {
        Bar { text_font: Some(text_font), ..self }
    }

    pub fn error_x(self, error_x: ErrorData) -> (r: Bar)
        ensures
            r == (Bar { error_x: Some(error_x), ..self }),
    {
        Bar { error_x: Some(error_x), ..self }
    }

    pub fn error_y(self, error_y: ErrorData) -> (r: Bar)
        ensures
            r == (Bar { error_y: Some(error_y), ..self }),
    {
        Bar { error_y: Some(error_y), ..self }
    }

    pub fn clip_on_axis(self, clip_on_axis: bool) -> (r: Bar)
        ensures
            r == (Bar { clip_on_axis: Some(clip_on_axis), ..self }),
    {
        Bar { clip_on_axis: Some(clip_on_axis), ..self }
    }

    pub fn constrain_text(self, constrain_text: ConstrainText) -> (r: Bar)
        ensures
            r == (Bar { constrain_text: Some(constrain_text), ..self }),
    {
        Bar { constrain_text: Some(constrain_text), ..self }
    }

    pub fn hover_label(self, hover_label: Label) -> (r: Bar)
        ensures
            r == (Bar { hover_label: Some(hover_label), ..self }),
    {
        Bar { hover_label: Some(hover_label), ..self }
    }

    pub fn inside_text_anchor(self, inside_text_anchor: TextAnchor) -> (r: Bar)
        ensures
            r == (Bar { inside_text_anchor: Some(inside_text_anchor), ..self }),
    {
        Bar { inside_text_anchor: Some(inside_text_anchor), ..self }
    }

    pub fn inside_text_font(self, inside_text_font: Font) -> (r: Bar)
        ensures
            r == (Bar { inside_text_font: Some(inside_text_font), ..self }),
    {
        Bar { inside_text_font: Some(inside_text_font), ..self }
    }

    pub fn outside_text_font(self, outside_text_font: Font) -> (r: Bar)
        ensures
            r == (Bar { outside_text_font: Some(outside_text_font), ..self }),
    {
        Bar { outside_text_font: Some(outside_text_font), ..self }
    }

    pub fn x_calendar(self, x_calendar: Calendar) -> (r: Bar)
        ensures
            r == (Bar { x_calendar: Some(x_calendar), ..self }),
    {
        Bar { x_calendar: Some(x_calendar), ..self }
    }

    pub fn y_calendar(self, y_calendar: Calendar) -> (r: Bar)
        ensures
            r == (Bar { y_calendar: Some(y_calendar), ..self }),
    {
        Bar { y_calendar: Some(y_calendar), ..self }
    }

    /// The document tree of this chart: exactly the set fields, in order.
    pub fn to_json(&self) -> (v: JsonValue)
        ensures
            v@ == JVal::Obj(self.fields()),
    {
        let mut b = ObjBuilder::new();
        b.field("x", Some(self.x.encode()));
        b.field("y", Some(self.y.encode()));
        b.field("type", Some(self.plot_type.encode()));
        b.field("name", opt_encode(&self.name));
        b.field("visible", opt_encode(&self.visible));
        b.field("showlegend", opt_encode(&self.show_legend));
        b.field("legendgroup", opt_encode(&self.legend_group));
        b.field("opacity", opt_encode(&self.opacity));
        b.field("ids", opt_encode(&self.ids));
        b.field("width", opt_encode(&self.width));
        b.field("offset", opt_encode(&self.offset));
        b.field("text", opt_encode(&self.text));
        b.field("textposition", opt_encode(&self.text_position));
        b.field("texttemplate", opt_encode(&self.text_template));
        b.field("hovertext", opt_encode(&self.hover_text));
        b.field("hoverinfo", opt_encode(&self.hover_info));
        b.field("hovertemplate", opt_encode(&self.hover_template));
        b.field("xaxis", opt_encode(&self.x_axis));
        b.field("yaxis", opt_encode(&self.y_axis));
        b.field("orientation", opt_encode(&self.orientation));
        b.field("alignmentgroup", opt_encode(&self.alignment_group));
        b.field("offsetgroup", opt_encode(&self.offset_group));
        b.field("marker", opt_encode(&self.marker));
        b.field("textangle", opt_encode(&self.text_angle));
        b.field("textfont", opt_encode(&self.text_font));
        b.field("error_x", opt_encode(&self.error_x));
        b.field("error_y", opt_encode(&self.error_y));
        b.field("cliponaxis", opt_encode(&self.clip_on_axis));
        b.field("constraintext", opt_encode(&self.constrain_text));
        b.field("hoverlabel", opt_encode(&self.hover_label));
        b.field("insidetextanchor", opt_encode(&self.inside_text_anchor));
        b.field("insidetextfont", opt_encode(&self.inside_text_font));
        b.field("outsidetextfont", opt_encode(&self.outside_text_font));
        b.field("xcalendar", opt_encode(&self.x_calendar));
        b.field("ycalendar", opt_encode(&self.y_calendar));
        proof {
            assert(b.model() =~= self.entries());
        }
        b.finish()
    }
}

impl Trace for Bar {
    open spec fn doc(&self) -> JVal {
        JVal::Obj(self.fields())
    }

    fn serialize(&self) -> (s: String)
        ensures
            s@ == spec_render(self.doc()),
    {
        self.to_json().render()
    }
}

/// Every field of a bar chart stands in the serialized object exactly when
/// it is set, under its documented wire key, with the set value's encoding;
/// a never-touched field's key does not occur at all.
#[verifier::rlimit(100)]
pub proof fn law_bar_field_presence(b: Bar)
    ensures
        forall|k: Seq<char>|
            #[trigger] obj_has_key(b.fields(), k) == (obj_get(b.fields(), k) is Some),
        obj_get(b.fields(), "x"@) == Some(JVal::Arr(enc_seq(b.x@))),
        obj_get(b.fields(), "y"@) == Some(JVal::Arr(enc_seq(b.y@))),
        obj_get(b.fields(), "type"@) == Some(b.plot_type.enc()),
        obj_get(b.fields(), "name"@) == enc_opt(b.name),
        obj_get(b.fields(), "visible"@) == enc_opt(b.visible),
        obj_get(b.fields(), "showlegend"@) == enc_opt(b.show_legend),
        obj_get(b.fields(), "legendgroup"@) == enc_opt(b.legend_group),
        obj_get(b.fields(), "opacity"@) == enc_opt(b.opacity),
        obj_get(b.fields(), "ids"@) == enc_opt(b.ids),
        obj_get(b.fields(), "width"@) == enc_opt(b.width),
        obj_get(b.fields(), "offset"@) == enc_opt(b.offset),
        obj_get(b.fields(), "text"@) == enc_opt(b.text),
        obj_get(b.fields(), "textposition"@) == enc_opt(b.text_position),
        obj_get(b.fields(), "texttemplate"@) == enc_opt(b.text_template),
        obj_get(b.fields(), "hovertext"@) == enc_opt(b.hover_text),
        obj_get(b.fields(), "hoverinfo"@) == enc_opt(b.hover_info),
        obj_get(b.fields(), "hovertemplate"@) == enc_opt(b.hover_template),
        obj_get(b.fields(), "xaxis"@) == enc_opt(b.x_axis),
        obj_get(b.fields(), "yaxis"@) == enc_opt(b.y_axis),
        obj_get(b.fields(), "orientation"@) == enc_opt(b.orientation),
        obj_get(b.fields(), "alignmentgroup"@) == enc_opt(b.alignment_group),
        obj_get(b.fields(), "offsetgroup"@) == enc_opt(b.offset_group),
        obj_get(b.fields(), "marker"@) == enc_opt(b.marker),
        obj_get(b.fields(), "textangle"@) == enc_opt(b.text_angle),
        obj_get(b.fields(), "textfont"@) == enc_opt(b.text_font),
        obj_get(b.fields(), "error_x"@) == enc_opt(b.error_x),
        obj_get(b.fields(), "error_y"@) == enc_opt(b.error_y),
        obj_get(b.fields(), "cliponaxis"@) == enc_opt(b.clip_on_axis),
        obj_get(b.fields(), "constraintext"@) == enc_opt(b.constrain_text),
        obj_get(b.fields(), "hoverlabel"@) == enc_opt(b.hover_label),
        obj_get(b.fields(), "insidetextanchor"@) == enc_opt(b.inside_text_anchor),
        obj_get(b.fields(), "insidetextfont"@) == enc_opt(b.inside_text_font),
        obj_get(b.fields(), "outsidetextfont"@) == enc_opt(b.outside_text_font),
        obj_get(b.fields(), "xcalendar"@) == enc_opt(b.x_calendar),
        obj_get(b.fields(), "ycalendar"@) == enc_opt(b.y_calendar),
{
    reveal_strlit("x");
    reveal_strlit("y");
    reveal_strlit("type");
    reveal_strlit("name");
    reveal_strlit("visible");
    reveal_strlit("showlegend");
    reveal_strlit("legendgroup");
    reveal_strlit("opacity");
    reveal_strlit("ids");
    reveal_strlit("width");
    reveal_strlit("offset");
    reveal_strlit("text");
    reveal_strlit("textposition");
    reveal_strlit("texttemplate");
    reveal_strlit("hovertext");
    reveal_strlit("hoverinfo");
    reveal_strlit("hovertemplate");
    reveal_strlit("xaxis");
    reveal_strlit("yaxis");
    reveal_strlit("orientation");
    reveal_strlit("alignmentgroup");
    reveal_strlit("offsetgroup");
    reveal_strlit("marker");
    reveal_strlit("textangle");
    reveal_strlit("textfont");
    reveal_strlit("error_x");
    reveal_strlit("error_y");
    reveal_strlit("cliponaxis");
    reveal_strlit("constraintext");
    reveal_strlit("hoverlabel");
    reveal_strlit("insidetextanchor");
    reveal_strlit("insidetextfont");
    reveal_strlit("outsidetextfont");
    reveal_strlit("xcalendar");
    reveal_strlit("ycalendar");
    broadcast use vstd::string::group_string_axioms;

    assert forall|k: Seq<char>|
        #[trigger] obj_has_key(b.fields(), k) == (obj_get(b.fields(), k) is Some) by {
        crate::json::lemma_obj_get_some(b.fields(), k);
    }
    let es = b.entries();
    reveal_with_fuel(crate::json::key_absent_range, 40);
    assert("x"@.len() == 1);
    assert("y"@.len() == 1);
    assert("type"@.len() == 4);
    assert("name"@.len() == 4);
    assert("visible"@.len() == 7);
    assert("showlegend"@.len() == 10);
    assert("legendgroup"@.len() == 11);
    assert("opacity"@.len() == 7);
    assert("ids"@.len() == 3);
    assert("width"@.len() == 5);
    assert("offset"@.len() == 6);
    assert("text"@.len() == 4);
    assert("textposition"@.len() == 12);
    assert("texttemplate"@.len() == 12);
    assert("hovertext"@.len() == 9);
    assert("hoverinfo"@.len() == 9);
    assert("hovertemplate"@.len() == 13);
    assert("xaxis"@.len() == 5);
    assert("yaxis"@.len() == 5);
    assert("orientation"@.len() == 11);
    assert("alignmentgroup"@.len() == 14);
    assert("offsetgroup"@.len() == 11);
    assert("marker"@.len() == 6);
    assert("textangle"@.len() == 9);
    assert("textfont"@.len() == 8);
    assert("error_x"@.len() == 7);
    assert("error_y"@.len() == 7);
    assert("cliponaxis"@.len() == 10);
    assert("constraintext"@.len() == 13);
    assert("hoverlabel"@.len() == 10);
    assert("insidetextanchor"@.len() == 16);
    assert("insidetextfont"@.len() == 14);
    assert("outsidetextfont"@.len() == 15);
    assert("xcalendar"@.len() == 9);
    assert("ycalendar"@.len() == 9);
    assert("alignmentgroup"@[0] == 'a');
    assert("cliponaxis"@[0] == 'c');
    assert("constraintext"@[0] == 'c');
    assert("error_x"@[0] == 'e');
    assert("error_x"@[6] == 'x');
    assert("error_y"@[0] == 'e');
    assert("error_y"@[6] == 'y');
    assert("hoverinfo"@[0] == 'h');
    assert("hoverinfo"@[5] == 'i');
    assert("hoverlabel"@[0] == 'h');
    assert("hovertemplate"@[0] == 'h');
    assert("hovertext"@[0] == 'h');
    assert("hovertext"@[5] == 't');
    assert("insidetextfont"@[0] == 'i');
    assert("legendgroup"@[0] == 'l');
    assert("marker"@[0] == 'm');
    assert("name"@[0] == 'n');
    assert("offset"@[0] == 'o');
    assert("offsetgroup"@[0] == 'o');
    assert("offsetgroup"@[1] == 'f');
    assert("opacity"@[0] == 'o');
    assert("orientation"@[0] == 'o');
    assert("orientation"@[1] == 'r');
    assert("showlegend"@[0] == 's');
    assert("text"@[0] == 't');
    assert("text"@[1] == 'e');
    assert("textangle"@[0] == 't');
    assert("textposition"@[4] == 'p');
    assert("texttemplate"@[4] == 't');
    assert("type"@[0] == 't');
    assert("type"@[1] == 'y');
    assert("visible"@[0] == 'v');
    assert("width"@[0] == 'w');
    assert("x"@[0] == 'x');
    assert("xaxis"@[0] == 'x');
    assert("xcalendar"@[0] == 'x');
    assert("y"@[0] == 'y');
    assert("yaxis"@[0] == 'y');
    assert("ycalendar"@[0] == 'y');
    crate::json::lemma_present_get_grounded(es, 0);
    crate::json::lemma_present_get_grounded(es, 1);
    crate::json::lemma_present_get_grounded(es, 2);
    crate::json::lemma_present_get_grounded(es, 3);
    crate::json::lemma_present_get_grounded(es, 4);
    crate::json::lemma_present_get_grounded(es, 5);
    crate::json::lemma_present_get_grounded(es, 6);
    crate::json::lemma_present_get_grounded(es, 7);
    crate::json::lemma_present_get_grounded(es, 8);
    crate::json::lemma_present_get_grounded(es, 9);
    crate::json::lemma_present_get_grounded(es, 10);
    crate::json::lemma_present_get_grounded(es, 11);
    crate::json::lemma_present_get_grounded(es, 12);
    crate::json::lemma_present_get_grounded(es, 13);
    crate::json::lemma_present_get_grounded(es, 14);
    crate::json::lemma_present_get_grounded(es, 15);
    crate::json::lemma_present_get_grounded(es, 16);
    crate::json::lemma_present_get_grounded(es, 17);
    crate::json::lemma_present_get_grounded(es, 18);
    crate::json::lemma_present_get_grounded(es, 19);
    crate::json::lemma_present_get_grounded(es, 20);
    crate::json::lemma_present_get_grounded(es, 21);
    crate::json::lemma_present_get_grounded(es, 22);
    crate::json::lemma_present_get_grounded(es, 23);
    crate::json::lemma_present_get_grounded(es, 24);
    crate::json::lemma_present_get_grounded(es, 25);
    crate::json::lemma_present_get_grounded(es, 26);
    crate::json::lemma_present_get_grounded(es, 27);
    crate::json::lemma_present_get_grounded(es, 28);
    crate::json::lemma_present_get_grounded(es, 29);
    crate::json::lemma_present_get_grounded(es, 30);
    crate::json::lemma_present_get_grounded(es, 31);
    crate::json::lemma_present_get_grounded(es, 32);
    crate::json::lemma_present_get_grounded(es, 33);
    crate::json::lemma_present_get_grounded(es, 34);
}

/// On one dimensional attribute slot, the array call after the scalar call
/// replaces the slot whole: only the array stands afterwards, every other
/// field untouched.
pub fn law_bar_dim_overwrite_array_wins(b: Bar, t: &str, vs: Vec<String>) -> (r: Bar)
    ensures
        r == (Bar { text: Some(DimAttr::Sequence(vs)), ..b }),
{
    b.text(t).text_array(vs)
}

/// On one dimensional attribute slot, the scalar call after the array call
/// replaces the slot whole: only the scalar stands afterwards, every other
/// field untouched.
pub fn law_bar_dim_overwrite_scalar_wins(b: Bar, t: &str, vs: Vec<String>) -> (r: Bar)
    ensures
        r == (Bar { text: r.text, ..b }),
        r.text matches Some(DimAttr::Scalar(s)) && s@ == t@,
{
    b.text_array(vs).text(t)
}

} // verus!
