//! Value wrappers, number formatting, string escaping and enum wire names.

use plotly::common::{
    Calendar, ColorSpec, DimAttr, Font, HoverInfo, Label, Line, LineDash, Marker, Mode,
    NamedColor, NumOrString, Orientation, Position, TextPosition, ToNumOrString, TruthyWrapper,
    Visible,
};
use plotly::json::{Enc, Real};

fn render<T: Enc>(v: &T) -> String {
    v.encode().render()
}

#[test]
fn integers_render_bare() {
    assert_eq!(render(&Real::from_int(0)), "0");
    assert_eq!(render(&Real::from_int(42)), "42");
    assert_eq!(render(&Real::from_int(-7)), "-7");
    assert_eq!(render(&Real::from_int(i64::MIN)), "-9223372036854775808");
    assert_eq!(render(&Real::from_uint(u64::MAX)), "18446744073709551615");
    assert_eq!(render(&18u64), "18");
    assert_eq!(render(&3usize), "3");
    assert_eq!(render(&(-5i64)), "-5");
}

#[test]
fn decimals_render_with_point() {
    assert_eq!(render(&Real::decimal(false, 10, 1)), "1.0");
    assert_eq!(render(&Real::decimal(false, 15, 1)), "1.5");
    assert_eq!(render(&Real::decimal(false, 5, 3)), "0.005");
    assert_eq!(render(&Real::decimal(false, 123456, 2)), "1234.56");
    assert_eq!(render(&Real::decimal(true, 10, 1)), "-1.0");
    assert_eq!(render(&Real::decimal(false, 0, 2)), "0.00");
    assert_eq!(render(&Real::decimal(false, 18446744073709551615, 19)), "1.8446744073709551615");
}

#[test]
fn booleans_render_bare() {
    assert_eq!(render(&true), "true");
    assert_eq!(render(&false), "false");
}

#[test]
fn strings_escape_specials() {
    assert_eq!(render(&String::from("plain")), "\"plain\"");
    assert_eq!(render(&String::from("a\"b")), r#""a\"b""#);
    assert_eq!(render(&String::from("a\\b")), r#""a\\b""#);
    assert_eq!(render(&String::from("a\nb\tc\rd")), r#""a\nb\tc\rd""#);
    assert_eq!(render(&String::from("\u{8}\u{c}")), r#""\b\f""#);
    assert_eq!(render(&String::from("\u{1}\u{1f}")), r#""\u0001\u001f""#);
    assert_eq!(render(&String::from("caf\u{e9}")), "\"caf\u{e9}\"");
}

#[test]
fn num_or_string_serializes_untagged() {
    let n = NumOrString::Num(Real::decimal(false, 25, 1));
    assert_eq!(render(&n), "2.5");
    let s = NumOrString::Text(String::from("tag"));
    assert_eq!(render(&s), "\"tag\"");
    assert_eq!(render(&7i64.to_num_or_string()), "7");
    assert_eq!(render(&9u64.to_num_or_string()), "9");
    assert_eq!(render(&String::from("x").to_num_or_string()), "\"x\"");
}

#[test]
fn dim_attr_scalar_is_bare_and_sequence_is_array() {
    let scalar = DimAttr::scalar(5u64);
    assert_eq!(render(&scalar), "5");
    let seq = DimAttr::sequence(vec![1u64, 2, 3]);
    assert_eq!(render(&seq), "[1,2,3]");
    let one = DimAttr::sequence(vec![String::from("a")]);
    assert_eq!(render(&one), "[\"a\"]");
    let empty: DimAttr<u64> = DimAttr::sequence(vec![]);
    assert_eq!(render(&empty), "[]");
}

#[test]
fn truthy_wrapper_maps_off_variant_to_false() {
    assert_eq!(render(&TruthyWrapper { e: Visible::False }), "false");
    assert_eq!(render(&TruthyWrapper { e: Visible::True }), "\"true\"");
    assert_eq!(render(&TruthyWrapper { e: Visible::LegendOnly }), "\"legendonly\"");
}

#[test]
fn enum_wire_names() {
    assert_eq!(render(&Orientation::Vertical), "\"v\"");
    assert_eq!(render(&Orientation::Horizontal), "\"h\"");
    assert_eq!(render(&Calendar::Ummalqura), "\"ummalqura\"");
    assert_eq!(render(&TextPosition::Off), "\"none\"");
    assert_eq!(render(&Position::MiddleCenter), "\"middle center\"");
    assert_eq!(render(&Mode::LinesMarkersText), "\"lines+markers+text\"");
    assert_eq!(render(&HoverInfo::XAndYAndZ), "\"x+y+z\"");
    assert_eq!(render(&NamedColor::Green), "\"green\"");
    assert_eq!(render(&LineDash::LongDashDot), "\"longdashdot\"");
}

#[test]
fn colors_render_names_and_rgb() {
    assert_eq!(render(&ColorSpec::Named(NamedColor::Red)), "\"red\"");
    assert_eq!(render(&ColorSpec::Rgb(255, 0, 10)), "\"rgb(255,0,10)\"");
}

#[test]
fn line_omits_unset_fields() {
    assert_eq!(render(&Line::new()), "{}");
    let l = Line::new().width(Real::decimal(false, 10, 1)).color(ColorSpec::Named(
        NamedColor::Green,
    ));
    assert_eq!(render(&l), r#"{"width":1.0,"color":"green"}"#);
    let d = Line::new().dash(LineDash::Dot);
    assert_eq!(render(&d), r#"{"dash":"dot"}"#);
}

#[test]
fn marker_font_label_fragments() {
    let m = Marker::new().size(10).color(ColorSpec::Named(NamedColor::Blue));
    assert_eq!(render(&m), r#"{"size":10,"color":"blue"}"#);
    let ma = Marker::new().size_array(vec![1, 2]);
    assert_eq!(render(&ma), r#"{"size":[1,2]}"#);
    let f = Font::new().family("Arial").size(12);
    assert_eq!(render(&f), r#"{"family":"Arial","size":12}"#);
    let lab = Label::new().align("left").name_length(-1);
    assert_eq!(render(&lab), r#"{"align":"left","namelength":-1}"#);
    let lab2 = Label::new().font(Font::new().size(9));
    assert_eq!(render(&lab2), r#"{"font":{"size":9}}"#);
}
