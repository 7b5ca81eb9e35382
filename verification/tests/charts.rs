//! Chart builders: field presence, wire keys, overwrite semantics, defaults
//! and end-to-end output, cross-checked against an independent JSON parser.

use plotly::common::{
    Calendar, ColorSpec, ErrorData, ErrorType, Fill, GroupNorm, HoverInfo, Line, LineDash, Marker,
    Mode, NamedColor, NumOrString, Orientation, TextPosition, Visible,
};
use plotly::histogram::{Cumulative, HistFunc, HistNorm};
use plotly::json::Real;
use plotly::{Bar, Candlestick, Histogram, Scatter, Trace};

fn nums(xs: &[i64]) -> Vec<NumOrString> {
    xs.iter().map(|&i| NumOrString::Num(Real::from_int(i))).collect()
}

#[test]
fn bar_end_to_end() {
    let s = Bar::new(nums(&[1, 2, 3]), nums(&[10, 20, 30])).name("Revenue").serialize();
    assert_eq!(s, r#"{"x":[1,2,3],"y":[10,20,30],"type":"bar","name":"Revenue"}"#);
}

#[test]
fn bar_untouched_fields_are_absent() {
    let s = Bar::new(nums(&[1]), nums(&[2])).serialize();
    assert_eq!(s, r#"{"x":[1],"y":[2],"type":"bar"}"#);
    let v: serde_json::Value = serde_json::from_str(&s).unwrap();
    let obj = v.as_object().unwrap();
    assert_eq!(obj.len(), 3);
    assert!(!obj.contains_key("name"));
    assert!(!obj.contains_key("marker"));
}

#[test]
fn bar_mutators_write_documented_keys() {
    let s = Bar::new(nums(&[1]), nums(&[2]))
        .show_legend(true)
        .legend_group("g")
        .width(5)
        .text_position(TextPosition::Outside)
        .x_axis("x2")
        .orientation(Orientation::Horizontal)
        .serialize();
    assert_eq!(
        s,
        r#"{"x":[1],"y":[2],"type":"bar","showlegend":true,"legendgroup":"g","width":5,"textposition":"outside","xaxis":"x2","orientation":"h"}"#,
    );
}

#[test]
fn bar_marker_and_error_bars() {
    let s = Bar::new(nums(&[1]), nums(&[2]))
        .marker(Marker::new().color(ColorSpec::Named(NamedColor::Purple)))
        .error_y(ErrorData::new(ErrorType::Percent).value(Real::decimal(false, 55, 1)))
        .serialize();
    assert_eq!(
        s,
        r#"{"x":[1],"y":[2],"type":"bar","marker":{"color":"purple"},"error_y":{"type":"percent","value":5.5}}"#,
    );
}

#[test]
fn dim_attr_overwrite_keeps_last_call_only() {
    let scalar_then_array =
        Bar::new(nums(&[1]), nums(&[2])).text("one").text_array(vec!["a".into(), "b".into()]);
    assert_eq!(
        scalar_then_array.serialize(),
        r#"{"x":[1],"y":[2],"type":"bar","text":["a","b"]}"#,
    );
    let array_then_scalar =
        Bar::new(nums(&[1]), nums(&[2])).text_array(vec!["a".into(), "b".into()]).text("one");
    assert_eq!(array_then_scalar.serialize(), r#"{"x":[1],"y":[2],"type":"bar","text":"one"}"#);
}

#[test]
fn candlestick_defaults() {
    let s = Candlestick::new(nums(&[1]), nums(&[10]), nums(&[12]), nums(&[9]), nums(&[11]))
        .serialize();
    assert_eq!(
        s,
        r#"{"type":"candlestick","x":[1],"open":[10],"high":[12],"low":[9],"close":[11],"increasing":{"line":{"width":1.0,"color":"green"}},"decreasing":{"line":{"width":1.0,"color":"red"}}}"#,
    );
}

#[test]
fn candlestick_mutator_replaces_default_whole() {
    let s = Candlestick::new(nums(&[1]), nums(&[10]), nums(&[12]), nums(&[9]), nums(&[11]))
        .increasing(plotly::common::Direction::Increasing {
            line: Line::new().color(ColorSpec::Named(NamedColor::Blue)),
        })
        .serialize();
    assert!(s.contains(r#""increasing":{"line":{"color":"blue"}}"#));
    assert!(s.contains(r#""decreasing":{"line":{"width":1.0,"color":"red"}}"#));
}

#[test]
fn histogram_constructors() {
    let h = Histogram::new(nums(&[1, 2, 2]));
    assert_eq!(h.serialize(), r#"{"type":"histogram","x":[1,2,2]}"#);
    let hv = Histogram::new_vertical(nums(&[5]));
    assert_eq!(hv.serialize(), r#"{"type":"histogram","y":[5]}"#);
    let hxy = Histogram::new_xy(nums(&[1]), nums(&[2]));
    assert_eq!(hxy.serialize(), r#"{"type":"histogram","x":[1],"y":[2]}"#);
}

#[test]
fn histogram_binning_attributes() {
    let s = Histogram::new(nums(&[1]))
        .hist_func(HistFunc::Average)
        .hist_norm(HistNorm::ProbabilityDensity)
        .n_bins_x(20)
        .auto_bin_x(false)
        .cumulative(Cumulative::new().enabled(true))
        .serialize();
    assert_eq!(
        s,
        r#"{"type":"histogram","x":[1],"histfunc":"avg","histnorm":"probability density","nbinsx":20,"autobinx":false,"cumulative":{"enabled":true}}"#,
    );
}

#[test]
fn scatter_end_to_end() {
    let s = Scatter::new(nums(&[0, 1]), nums(&[5, 6])).name("t").serialize();
    assert_eq!(s, r#"{"type":"scatter","name":"t","x":[0,1],"y":[5,6]}"#);
}

#[test]
fn scatter_web_gl_mode_switches_discriminant() {
    let on = Scatter::new(nums(&[0]), nums(&[1])).web_gl_mode(true);
    assert_eq!(on.serialize(), r#"{"type":"scattergl","x":[0],"y":[1]}"#);
    let off = Scatter::new(nums(&[0]), nums(&[1])).web_gl_mode(true).web_gl_mode(false);
    assert_eq!(off.serialize(), r#"{"type":"scatter","x":[0],"y":[1]}"#);
}

#[test]
fn scatter_truthy_visible() {
    let s = Scatter::new(nums(&[0]), nums(&[1])).visible(Visible::False).serialize();
    assert_eq!(s, r#"{"type":"scatter","visible":false,"x":[0],"y":[1]}"#);
    let l = Scatter::new(nums(&[0]), nums(&[1])).visible(Visible::LegendOnly).serialize();
    assert_eq!(l, r#"{"type":"scatter","visible":"legendonly","x":[0],"y":[1]}"#);
}

#[test]
fn scatter_linear_space_and_meta() {
    let s = Scatter::new(nums(&[0]), nums(&[1]))
        .x0(Real::decimal(false, 5, 1))
        .dx(Real::from_int(2))
        .meta(String::from("m"))
        .custom_data(vec![1i64, 2, 3])
        .serialize();
    assert_eq!(
        s,
        r#"{"type":"scatter","x":[0],"x0":0.5,"dx":2,"y":[1],"meta":"m","custom_data":[1,2,3]}"#,
    );
}

#[test]
fn trace_handles_serialize_like_their_charts() {
    let bar = Bar::new(nums(&[1]), nums(&[2]));
    let expected = bar.serialize();
    let handle = Bar::new(nums(&[1]), nums(&[2])).into_trace();
    assert_eq!(handle.serialize(), expected);

    let traces: Vec<plotly::TraceHandle> = vec![
        Bar::new(nums(&[1]), nums(&[2])).into_trace(),
        Scatter::new(nums(&[0]), nums(&[1])).into_trace(),
        Histogram::new(nums(&[3])).into_trace(),
        Candlestick::new(nums(&[1]), nums(&[2]), nums(&[3]), nums(&[1]), nums(&[2])).into_trace(),
    ];
    let parts: Vec<String> = traces.iter().map(|t| t.serialize()).collect();
    assert!(parts[0].contains(r#""type":"bar""#));
    assert!(parts[1].contains(r#""type":"scatter""#));
    assert!(parts[2].contains(r#""type":"histogram""#));
    assert!(parts[3].contains(r#""type":"candlestick""#));
}

#[test]
fn output_round_trips_through_independent_parser() {
    let s = Bar::new(nums(&[1, 2]), nums(&[3, 4]))
        .name("r\"t\\l\nx")
        .opacity(Real::decimal(false, 5, 1))
        .text_array(vec!["a".into(), "\u{1}".into()])
        .serialize();
    let v: serde_json::Value = serde_json::from_str(&s).unwrap();
    let expected: serde_json::Value = serde_json::from_str(
        "{\"x\":[1,2],\"y\":[3,4],\"type\":\"bar\",\"name\":\"r\\\"t\\\\l\\nx\",\
         \"opacity\":0.5,\"text\":[\"a\",\"\\u0001\"]}",
    )
    .unwrap();
    assert_eq!(v, expected);
    let re = serde_json::to_string(&v).unwrap();
    let v2: serde_json::Value = serde_json::from_str(&re).unwrap();
    assert_eq!(v, v2);
}

#[test]
fn dim_attr_round_trips_both_variants() {
    let scalar = Bar::new(nums(&[1]), nums(&[2])).text("same").serialize();
    let vs: serde_json::Value = serde_json::from_str(&scalar).unwrap();
    assert!(vs["text"].is_string());
    let arr = Bar::new(nums(&[1]), nums(&[2])).text_array(vec!["p".into(), "q".into()]).serialize();
    let va: serde_json::Value = serde_json::from_str(&arr).unwrap();
    assert_eq!(va["text"].as_array().unwrap().len(), 2);
    let re = serde_json::to_string(&va["text"]).unwrap();
    assert_eq!(re, r#"["p","q"]"#);
}

#[test]
fn histogram_explicit_bins() {
    let s = Histogram::new(nums(&[1]))
        .x_bins(plotly::histogram::Bins::new(
            Real::decimal(false, 5, 1),
            Real::from_int(10),
            Real::decimal(false, 5, 1),
        ))
        .serialize();
    assert_eq!(
        s,
        r#"{"type":"histogram","x":[1],"xbins":{"start":0.5,"end":10,"size":0.5}}"#,
    );
}

#[test]
fn bar_ids_and_offsets() {
    let s = Bar::new(nums(&[1]), nums(&[2]))
        .ids(vec!["p".into(), "q".into()])
        .offset(3)
        .serialize();
    assert_eq!(s, r#"{"x":[1],"y":[2],"type":"bar","ids":["p","q"],"offset":3}"#);
    let a = Bar::new(nums(&[1]), nums(&[2])).offset_array(vec![1, 2]).serialize();
    assert_eq!(a, r#"{"x":[1],"y":[2],"type":"bar","offset":[1,2]}"#);
}

#[test]
fn scatter_stacking_and_fill() {
    let s = Scatter::new(nums(&[0]), nums(&[1]))
        .mode(Mode::Lines)
        .group_norm(GroupNorm::Default)
        .stack_group("one")
        .fill(Fill::ToNextY)
        .fill_color(ColorSpec::Rgb(1, 2, 3))
        .connect_gaps(true)
        .hover_on("points")
        .stack_gaps("interpolate")
        .serialize();
    assert_eq!(
        s,
        r#"{"type":"scatter","mode":"lines","x":[0],"y":[1],"groupnorm":"","stackgroup":"one","connectgaps":true,"fill":"tonexty","fillcolor":"rgb(1,2,3)","hoveron":"points","stackgaps":"interpolate"}"#,
    );
}

#[test]
fn candlestick_styling_attributes() {
    let s = Candlestick::new(nums(&[1]), nums(&[2]), nums(&[3]), nums(&[1]), nums(&[2]))
        .name("ohlc")
        .line(Line::new().dash(LineDash::Dash))
        .whisker_width(Real::decimal(false, 25, 2))
        .hover_info(HoverInfo::XAndY)
        .x_calendar(Calendar::Julian)
        .serialize();
    assert!(s.contains(r#""name":"ohlc""#));
    assert!(s.contains(r#""line":{"dash":"dash"}"#));
    assert!(s.contains(r#""whiskerwidth":0.25"#));
    assert!(s.contains(r#""hoverinfo":"x+y""#));
    assert!(s.contains(r#""xcalendar":"julian""#));
}

#[test]
fn error_data_extents() {
    let e = ErrorData::new(ErrorType::Data)
        .array(vec![Real::from_int(1), Real::decimal(false, 5, 1)])
        .symmetric(false)
        .visible(true);
    let s = Bar::new(nums(&[1]), nums(&[2])).error_x(e).serialize();
    assert_eq!(
        s,
        r#"{"x":[1],"y":[2],"type":"bar","error_x":{"type":"data","array":[1,0.5],"visible":true,"symmetric":false}}"#,
    );
}
