//! Shared value wrappers and sub-models: the dimensional attribute type, the
//! untagged number-or-text wrapper, the truthy enum wrapper, and the opaque
//! styling values (colors, lines, markers, fonts, error bars, hover labels)
//! that chart builders hold as optional attributes.

use vstd::prelude::*;

use vstd::string::StringExecFns;

use crate::json::{
    enc_opt, enc_seq, jopt_of, jval_of, opt_dup, opt_encode, present, push_digits, spec_digits,
    spec_quote, spec_render, spec_render_items, Enc, JVal, JsonValue, ObjBuilder, OptEntry, Real,
};

verus! {

/// A dimensional attribute: one value applied uniformly to every data point,
/// or one value per data point.
///
/// No length check is made against the owning chart's point count; a
/// mismatched sequence is a caller error that only the rendering engine
/// reports.
#[derive(Debug)]
pub enum DimAttr<T> {
    Scalar(T),
    Sequence(Vec<T>),
}

impl<T> DimAttr<T> {
    /// One value for every data point.
    pub fn scalar(v: T) -> (r: Self)
        ensures
            r == DimAttr::Scalar(v),
    {
        DimAttr::Scalar(v)
    }

    /// One value per data point, in order.
    pub fn sequence(vs: Vec<T>) -> (r: Self)
        ensures
            r == DimAttr::Sequence(vs),
    {
        DimAttr::Sequence(vs)
    }
}

impl<T: Enc> Enc for DimAttr<T> {
    /// A scalar encodes as the bare value, a sequence as the array of the
    /// values' encodings: that shape distinction is the type's entire point.
    open spec fn enc(&self) -> JVal {
        match self {
            DimAttr::Scalar(t) => t.enc(),
            DimAttr::Sequence(ts) => JVal::Arr(enc_seq(ts@)),
        }
    }

    fn encode(&self) -> (v: JsonValue)
        ensures
            v@ == self.enc(),
    {
        match self {
            DimAttr::Scalar(t) => t.encode(),
            DimAttr::Sequence(ts) => ts.encode(),
        }
    }

    fn dup(&self) -> (r: Self)
        ensures
            r.enc() == self.enc(),
    {
        match self {
            DimAttr::Scalar(t) => DimAttr::Scalar(t.dup()),
            DimAttr::Sequence(ts) => DimAttr::Sequence(ts.dup()),
        }
    }
}

/// For every value type: a scalar dimensional attribute serializes to the
/// bare encoding of its value, and a sequence serializes to the array of the
/// members' bare encodings, in order, one per member.
pub proof fn law_dim_attr_shape<T: Enc>(v: T, vs: Vec<T>)
    ensures
        DimAttr::Scalar(v).enc() == v.enc(),
        DimAttr::Sequence(vs).enc() == JVal::Arr(enc_seq(vs@)),
        enc_seq(vs@).len() == vs@.len(),
        forall|i: int| 0 <= i < vs@.len() ==> enc_seq(vs@)[i] == vs@[i].enc(),
        spec_render(DimAttr::Sequence(vs).enc()) == seq!['['] + spec_render_items(enc_seq(vs@))
            + seq![']'],
{
}

/// A value that is either a number or a piece of text.
///
/// It serializes as whichever it holds, with no wrapper object and no
/// discriminant: the wire format cannot tell that both came through one type.
#[derive(Debug)]
pub enum NumOrString {
    Num(Real),
    Text(String),
}

impl Enc for NumOrString {
    open spec fn enc(&self) -> JVal {
        match self {
            NumOrString::Num(n) => n.enc(),
            NumOrString::Text(s) => JVal::Text(s@),
        }
    }

    fn encode(&self) -> (v: JsonValue)
        ensures
            v@ == self.enc(),
    {
        match self {
            NumOrString::Num(n) => JsonValue::Num(*n),
            NumOrString::Text(s) => JsonValue::Text(s.clone()),
        }
    }

    /// The copy is in fact exact, not merely encoding-preserving.
    fn dup(&self) -> (r: Self)
        ensures
            r.enc() == self.enc(),
            r == *self,
    {
        match self {
            NumOrString::Num(n) => NumOrString::Num(*n),
            NumOrString::Text(s) => NumOrString::Text(s.clone()),
        }
    }
}

/// A numeric source serializes as a bare number and a textual source as a
/// bare string; neither gets a wrapper object or a discriminant key.
pub proof fn law_num_or_string_untagged(n: Real, s: String)
    ensures
        NumOrString::Num(n).enc() == n.model(),
        spec_render(NumOrString::Num(n).enc()) == spec_render(n.model()),
        NumOrString::Text(s).enc() == JVal::Text(s@),
        spec_render(NumOrString::Text(s).enc()) == spec_quote(s@),
{
}

/// Conversion into [`NumOrString`], implemented once per accepted source
/// type.
pub trait ToNumOrString: Sized {
    /// The encoding of the wrapper value that the conversion yields.
    spec fn nos_enc(&self) -> JVal;

    fn to_num_or_string(self) -> (r: NumOrString)
        ensures
            r.enc() == self.nos_enc(),
    ;
}

impl ToNumOrString for i64 {
    open spec fn nos_enc(&self) -> JVal {
        self.enc()
    }

    fn to_num_or_string(self) -> (r: NumOrString)
        ensures
            r.enc() == self.nos_enc(),
    {
        NumOrString::Num(Real::from_int(self))
    }
}

impl ToNumOrString for u64 {
    open spec fn nos_enc(&self) -> JVal {
        self.enc()
    }

    fn to_num_or_string(self) -> (r: NumOrString)
        ensures
            r.enc() == self.nos_enc(),
    {
        NumOrString::Num(Real::from_uint(self))
    }
}

impl ToNumOrString for Real {
    open spec fn nos_enc(&self) -> JVal {
        self.model()
    }

    fn to_num_or_string(self) -> (r: NumOrString)
        ensures
            r.enc() == self.nos_enc(),
    {
        NumOrString::Num(self)
    }
}

impl ToNumOrString for String {
    open spec fn nos_enc(&self) -> JVal {
        JVal::Text(self@)
    }

    fn to_num_or_string(self) -> (r: NumOrString)
        ensures
            r.enc() == self.nos_enc(),
    {
        NumOrString::Text(self)
    }
}

/// An enum whose "off" variant serializes as the plain boolean `false` while
/// every other variant keeps its normal encoded form.
pub trait Truthy: Enc + Copy {
    /// Whether this is the "off" variant.
    spec fn is_off(&self) -> bool;

    fn off(&self) -> (b: bool)
        ensures
            b == self.is_off(),
    ;
}

/// Wrapper applying the truthy rendering exception of [`Truthy`] to the held
/// enum; this is an attribute-specific exception, not a general boolean
/// coercion.
#[derive(Clone, Copy, Debug)]
pub struct TruthyWrapper<E> {
    pub e: E,
}

impl<E: Truthy> Enc for TruthyWrapper<E> {
    open spec fn enc(&self) -> JVal {
        if self.e.is_off() {
            JVal::Bool(false)
        } else {
            self.e.enc()
        }
    }

    fn encode(&self) -> (v: JsonValue)
        ensures
            v@ == self.enc(),
    {
        if self.e.off() {
            JsonValue::Bool(false)
        } else {
            self.e.encode()
        }
    }

    fn dup(&self) -> (r: Self)
        ensures
            r.enc() == self.enc(),
    {
        *self
    }
}

/// The fixed discriminant each chart object carries under its `type` key,
/// naming the chart kind to the rendering engine; the GL variant is the
/// performance-oriented acceleration tag of the scatter kind.
#[derive(Clone, Copy, Debug, PartialEq, Eq, Structural)]
pub enum PlotType {
    Bar,
    Scatter,
    ScatterGL,
    Histogram,
    Candlestick,
}

impl PlotType {
    pub open spec fn wire(self) -> Seq<char> {
        match self {
            PlotType::Bar => "bar"@,
            PlotType::Scatter => "scatter"@,
            PlotType::ScatterGL => "scattergl"@,
            PlotType::Histogram => "histogram"@,
            PlotType::Candlestick => "candlestick"@,
        }
    }

    fn wire_str(&self) -> (s: &str)
        ensures
            s@ == self.wire(),
    {
        match self {
            PlotType::Bar => "bar",
            PlotType::Scatter => "scatter",
            PlotType::ScatterGL => "scattergl",
            PlotType::Histogram => "histogram",
            PlotType::Candlestick => "candlestick",
        }
    }
}

impl Enc for PlotType {
    open spec fn enc(&self) -> JVal {
        JVal::Text(self.wire())
    }

    fn encode(&self) -> (v: JsonValue)
        ensures
            v@ == self.enc(),
    {
        JsonValue::Text(self.wire_str().to_owned())
    }

    fn dup(&self) -> (r: Self)
        ensures
            r.enc() == self.enc(),
    {
        *self
    }
}

/// Stacking / bar direction.
#[derive(Clone, Copy, Debug, PartialEq, Eq, Structural)]
pub enum Orientation {
    Vertical,
    Horizontal,
}

impl Orientation {
    pub open spec fn wire(self) -> Seq<char> {
        match self {
            Orientation::Vertical => "v"@,
            Orientation::Horizontal => "h"@,
        }
    }

    fn wire_str(&self) -> (s: &str)
        ensures
            s@ == self.wire(),
    {
        match self {
            Orientation::Vertical => "v",
            Orientation::Horizontal => "h",
        }
    }
}

impl Enc for Orientation {
    open spec fn enc(&self) -> JVal {
        JVal::Text(self.wire())
    }

    fn encode(&self) -> (v: JsonValue)
        ensures
            v@ == self.enc(),
    {
        JsonValue::Text(self.wire_str().to_owned())
    }

    fn dup(&self) -> (r: Self)
        ensures
            r.enc() == self.enc(),
    {
        *self
    }
}

/// Calendar system for date-valued coordinates.
#[derive(Clone, Copy, Debug, PartialEq, Eq, Structural)]
pub enum Calendar {
    Gregorian,
    Chinese,
    Coptic,
    DiscWorld,
    Ethiopian,
    Hebrew,
    Islamic,
    Julian,
    Mayan,
    Nanakshahi,
    Nepali,
    Persian,
    Jalali,
    Taiwan,
    Thai,
    Ummalqura,
}

impl Calendar {
    pub open spec fn wire(self) -> Seq<char> {
        match self {
            Calendar::Gregorian => "gregorian"@,
            Calendar::Chinese => "chinese"@,
            Calendar::Coptic => "coptic"@,
            Calendar::DiscWorld => "discworld"@,
            Calendar::Ethiopian => "ethiopian"@,
            Calendar::Hebrew => "hebrew"@,
            Calendar::Islamic => "islamic"@,
            Calendar::Julian => "julian"@,
            Calendar::Mayan => "mayan"@,
            Calendar::Nanakshahi => "nanakshahi"@,
            Calendar::Nepali => "nepali"@,
            Calendar::Persian => "persian"@,
            Calendar::Jalali => "jalali"@,
            Calendar::Taiwan => "taiwan"@,
            Calendar::Thai => "thai"@,
            Calendar::Ummalqura => "ummalqura"@,
        }
    }

    fn wire_str(&self) -> (s: &str)
        ensures
            s@ == self.wire(),
    {
        match self {
            Calendar::Gregorian => "gregorian",
            Calendar::Chinese => "chinese",
            Calendar::Coptic => "coptic",
            Calendar::DiscWorld => "discworld",
            Calendar::Ethiopian => "ethiopian",
            Calendar::Hebrew => "hebrew",
            Calendar::Islamic => "islamic",
            Calendar::Julian => "julian",
            Calendar::Mayan => "mayan",
            Calendar::Nanakshahi => "nanakshahi",
            Calendar::Nepali => "nepali",
            Calendar::Persian => "persian",
            Calendar::Jalali => "jalali",
            Calendar::Taiwan => "taiwan",
            Calendar::Thai => "thai",
            Calendar::Ummalqura => "ummalqura",
        }
    }
}

impl Enc for Calendar {
    open spec fn enc(&self) -> JVal {
        JVal::Text(self.wire())
    }

    fn encode(&self) -> (v: JsonValue)
        ensures
            v@ == self.enc(),
    {
        JsonValue::Text(self.wire_str().to_owned())
    }

    fn dup(&self) -> (r: Self)
        ensures
            r.enc() == self.enc(),
    {
        *self
    }
}

/// Placement of bar text relative to its bar; `Off` is the wire value
/// `"none"`, suppressing the text.
#[derive(Clone, Copy, Debug, PartialEq, Eq, Structural)]
pub enum TextPosition {
    Inside,
    Outside,
    Auto,
    Off,
}

impl TextPosition {
    pub open spec fn wire(self) -> Seq<char> {
        match self {
            TextPosition::Inside => "inside"@,
            TextPosition::Outside => "outside"@,
            TextPosition::Auto => "auto"@,
            TextPosition::Off => "none"@,
        }
    }

    fn wire_str(&self) -> (s: &str)
        ensures
            s@ == self.wire(),
    {
        match self {
            TextPosition::Inside => "inside",
            TextPosition::Outside => "outside",
            TextPosition::Auto => "auto",
            TextPosition::Off => "none",
        }
    }
}

impl Enc for TextPosition {
    open spec fn enc(&self) -> JVal {
        JVal::Text(self.wire())
    }

    fn encode(&self) -> (v: JsonValue)
        ensures
            v@ == self.enc(),
    {
        JsonValue::Text(self.wire_str().to_owned())
    }

    fn dup(&self) -> (r: Self)
        ensures
            r.enc() == self.enc(),
    {
        *self
    }
}

/// Anchoring of text drawn inside a bar.
#[derive(Clone, Copy, Debug, PartialEq, Eq, Structural)]
pub enum TextAnchor {
    Start,
    Middle,
    End,
}

impl TextAnchor {
    pub open spec fn wire(self) -> Seq<char> {
        match self {
            TextAnchor::Start => "start"@,
            TextAnchor::Middle => "middle"@,
            TextAnchor::End => "end"@,
        }
    }

    fn wire_str(&self) -> (s: &str)
        ensures
            s@ == self.wire(),
    {
        match self {
            TextAnchor::Start => "start",
            TextAnchor::Middle => "middle",
            TextAnchor::End => "end",
        }
    }
}

impl Enc for TextAnchor {
    open spec fn enc(&self) -> JVal {
        JVal::Text(self.wire())
    }

    fn encode(&self) -> (v: JsonValue)
        ensures
            v@ == self.enc(),
    {
        JsonValue::Text(self.wire_str().to_owned())
    }

    fn dup(&self) -> (r: Self)
        ensures
            r.enc() == self.enc(),
    {
        *self
    }
}

/// How text too large for its bar is handled; `Off` is the wire value
/// `"none"`.
#[derive(Clone, Copy, Debug, PartialEq, Eq, Structural)]
pub enum ConstrainText {
    Inside,
    Outside,
    Both,
    Off,
}

impl ConstrainText {
    pub open spec fn wire(self) -> Seq<char> {
        match self {
            ConstrainText::Inside => "inside"@,
            ConstrainText::Outside => "outside"@,
            ConstrainText::Both => "both"@,
            ConstrainText::Off => "none"@,
        }
    }

    fn wire_str(&self) -> (s: &str)
        ensures
            s@ == self.wire(),
    {
        match self {
            ConstrainText::Inside => "inside",
            ConstrainText::Outside => "outside",
            ConstrainText::Both => "both",
            ConstrainText::Off => "none",
        }
    }
}

impl Enc for ConstrainText {
    open spec fn enc(&self) -> JVal {
        JVal::Text(self.wire())
    }

    fn encode(&self) -> (v: JsonValue)
        ensures
            v@ == self.enc(),
    {
        JsonValue::Text(self.wire_str().to_owned())
    }

    fn dup(&self) -> (r: Self)
        ensures
            r.enc() == self.enc(),
    {
        *self
    }
}

/// Which pieces of information the hover box shows.  `Off` is the wire value
/// `"none"` (events still fire); `Skip` additionally silences events.
#[derive(Clone, Copy, Debug, PartialEq, Eq, Structural)]
pub enum HoverInfo {
    X,
    Y,
    Z,
    XAndY,
    XAndZ,
    YAndZ,
    XAndYAndZ,
    Text,
    All,
    Off,
    Skip,
}

impl HoverInfo {
    pub open spec fn wire(self) -> Seq<char> {
        match self {
            HoverInfo::X => "x"@,
            HoverInfo::Y => "y"@,
            HoverInfo::Z => "z"@,
            HoverInfo::XAndY => "x+y"@,
            HoverInfo::XAndZ => "x+z"@,
            HoverInfo::YAndZ => "y+z"@,
            HoverInfo::XAndYAndZ => "x+y+z"@,
            HoverInfo::Text => "text"@,
            HoverInfo::All => "all"@,
            HoverInfo::Off => "none"@,
            HoverInfo::Skip => "skip"@,
        }
    }

    fn wire_str(&self) -> (s: &str)
        ensures
            s@ == self.wire(),
    {
        match self {
            HoverInfo::X => "x",
            HoverInfo::Y => "y",
            HoverInfo::Z => "z",
            HoverInfo::XAndY => "x+y",
            HoverInfo::XAndZ => "x+z",
            HoverInfo::YAndZ => "y+z",
            HoverInfo::XAndYAndZ => "x+y+z",
            HoverInfo::Text => "text",
            HoverInfo::All => "all",
            HoverInfo::Off => "none",
            HoverInfo::Skip => "skip",
        }
    }
}

impl Enc for HoverInfo {
    open spec fn enc(&self) -> JVal {
        JVal::Text(self.wire())
    }

    fn encode(&self) -> (v: JsonValue)
        ensures
            v@ == self.enc(),
    {
        JsonValue::Text(self.wire_str().to_owned())
    }

    fn dup(&self) -> (r: Self)
        ensures
            r.enc() == self.enc(),
    {
        *self
    }
}

/// Placement of scatter text relative to its point.
#[derive(Clone, Copy, Debug, PartialEq, Eq, Structural)]
pub enum Position {
    TopLeft,
    TopCenter,
    TopRight,
    MiddleLeft,
    MiddleCenter,
    MiddleRight,
    BottomLeft,
    BottomCenter,
    BottomRight,
}

impl Position {
    pub open spec fn wire(self) -> Seq<char> {
        match self {
            Position::TopLeft => "top left"@,
            Position::TopCenter => "top center"@,
            Position::TopRight => "top right"@,
            Position::MiddleLeft => "middle left"@,
            Position::MiddleCenter => "middle center"@,
            Position::MiddleRight => "middle right"@,
            Position::BottomLeft => "bottom left"@,
            Position::BottomCenter => "bottom center"@,
            Position::BottomRight => "bottom right"@,
        }
    }

    fn wire_str(&self) -> (s: &str)
        ensures
            s@ == self.wire(),
    {
        match self {
            Position::TopLeft => "top left",
            Position::TopCenter => "top center",
            Position::TopRight => "top right",
            Position::MiddleLeft => "middle left",
            Position::MiddleCenter => "middle center",
            Position::MiddleRight => "middle right",
            Position::BottomLeft => "bottom left",
            Position::BottomCenter => "bottom center",
            Position::BottomRight => "bottom right",
        }
    }
}

impl Enc for Position {
    open spec fn enc(&self) -> JVal {
        JVal::Text(self.wire())
    }

    fn encode(&self) -> (v: JsonValue)
        ensures
            v@ == self.enc(),
    {
        JsonValue::Text(self.wire_str().to_owned())
    }

    fn dup(&self) -> (r: Self)
        ensures
            r.enc() == self.enc(),
    {
        *self
    }
}

/// Drawing mode of a scatter trace; `Off` is the wire value `"none"`.
#[derive(Clone, Copy, Debug, PartialEq, Eq, Structural)]
pub enum Mode {
    Lines,
    Markers,
    Text,
    LinesMarkers,
    LinesText,
    MarkersText,
    LinesMarkersText,
    Off,
}

impl Mode {
    pub open spec fn wire(self) -> Seq<char> {
        match self {
            Mode::Lines => "lines"@,
            Mode::Markers => "markers"@,
            Mode::Text => "text"@,
            Mode::LinesMarkers => "lines+markers"@,
            Mode::LinesText => "lines+text"@,
            Mode::MarkersText => "markers+text"@,
            Mode::LinesMarkersText => "lines+markers+text"@,
            Mode::Off => "none"@,
        }
    }

    fn wire_str(&self) -> (s: &str)
        ensures
            s@ == self.wire(),
    {
        match self {
            Mode::Lines => "lines",
            Mode::Markers => "markers",
            Mode::Text => "text",
            Mode::LinesMarkers => "lines+markers",
            Mode::LinesText => "lines+text",
            Mode::MarkersText => "markers+text",
            Mode::LinesMarkersText => "lines+markers+text",
            Mode::Off => "none",
        }
    }
}

impl Enc for Mode {
    open spec fn enc(&self) -> JVal {
        JVal::Text(self.wire())
    }

    fn encode(&self) -> (v: JsonValue)
        ensures
            v@ == self.enc(),
    {
        JsonValue::Text(self.wire_str().to_owned())
    }

    fn dup(&self) -> (r: Self)
        ensures
            r.enc() == self.enc(),
    {
        *self
    }
}

/// Area filled by a scatter trace; `Off` is the wire value `"none"`.
#[derive(Clone, Copy, Debug, PartialEq, Eq, Structural)]
pub enum Fill {
    ToZeroY,
    ToZeroX,
    ToNextY,
    ToNextX,
    ToSelf,
    ToNext,
    Off,
}

impl Fill {
    pub open spec fn wire(self) -> Seq<char> {
        match self {
            Fill::ToZeroY => "tozeroy"@,
            Fill::ToZeroX => "tozerox"@,
            Fill::ToNextY => "tonexty"@,
            Fill::ToNextX => "tonextx"@,
            Fill::ToSelf => "toself"@,
            Fill::ToNext => "tonext"@,
            Fill::Off => "none"@,
        }
    }

    fn wire_str(&self) -> (s: &str)
        ensures
            s@ == self.wire(),
    {
        match self {
            Fill::ToZeroY => "tozeroy",
            Fill::ToZeroX => "tozerox",
            Fill::ToNextY => "tonexty",
            Fill::ToNextX => "tonextx",
            Fill::ToSelf => "toself",
            Fill::ToNext => "tonext",
            Fill::Off => "none",
        }
    }
}

impl Enc for Fill {
    open spec fn enc(&self) -> JVal {
        JVal::Text(self.wire())
    }

    fn encode(&self) -> (v: JsonValue)
        ensures
            v@ == self.enc(),
    {
        JsonValue::Text(self.wire_str().to_owned())
    }

    fn dup(&self) -> (r: Self)
        ensures
            r.enc() == self.enc(),
    {
        *self
    }
}

/// Normalization of a stack group's summed values.
#[derive(Clone, Copy, Debug, PartialEq, Eq, Structural)]
pub enum GroupNorm {
    Default,
    Fraction,
    Percent,
}

impl GroupNorm {
    pub open spec fn wire(self) -> Seq<char> {
        match self {
            GroupNorm::Default => ""@,
            GroupNorm::Fraction => "fraction"@,
            GroupNorm::Percent => "percent"@,
        }
    }

    fn wire_str(&self) -> (s: &str)
        ensures
            s@ == self.wire(),
    {
        match self {
            GroupNorm::Default => "",
            GroupNorm::Fraction => "fraction",
            GroupNorm::Percent => "percent",
        }
    }
}

impl Enc for GroupNorm {
    open spec fn enc(&self) -> JVal {
        JVal::Text(self.wire())
    }

    fn encode(&self) -> (v: JsonValue)
        ensures
            v@ == self.enc(),
    {
        JsonValue::Text(self.wire_str().to_owned())
    }

    fn dup(&self) -> (r: Self)
        ensures
            r.enc() == self.enc(),
    {
        *self
    }
}

/// Visibility of a trace; `False` is the variant that the truthy wrapper
/// turns into the plain boolean `false`, while `LegendOnly` keeps the trace
/// off the plot but in the legend.
#[derive(Clone, Copy, Debug, PartialEq, Eq, Structural)]
pub enum Visible {
    True,
    False,
    LegendOnly,
}

impl Visible {
    pub open spec fn wire(self) -> Seq<char> {
        match self {
            Visible::True => "true"@,
            Visible::False => "false"@,
            Visible::LegendOnly => "legendonly"@,
        }
    }

    fn wire_str(&self) -> (s: &str)
        ensures
            s@ == self.wire(),
    {
        match self {
            Visible::True => "true",
            Visible::False => "false",
            Visible::LegendOnly => "legendonly",
        }
    }
}

impl Enc for Visible {
    open spec fn enc(&self) -> JVal {
        JVal::Text(self.wire())
    }

    fn encode(&self) -> (v: JsonValue)
        ensures
            v@ == self.enc(),
    {
        JsonValue::Text(self.wire_str().to_owned())
    }

    fn dup(&self) -> (r: Self)
        ensures
            r.enc() == self.enc(),
    {
        *self
    }
}

impl Truthy for Visible {
    open spec fn is_off(&self) -> bool {
        *self is False
    }

    fn off(&self) -> (b: bool)
        ensures
            b == self.is_off(),
    {
        match self {
            Visible::False => true,
            _ => false,
        }
    }
}

/// A CSS color name.
#[derive(Clone, Copy, Debug, PartialEq, Eq, Structural)]
pub enum NamedColor {
    Black,
    Blue,
    Brown,
    Cyan,
    Gray,
    Green,
    Magenta,
    Orange,
    Pink,
    Purple,
    Red,
    Transparent,
    White,
    Yellow,
}

impl NamedColor {
    pub open spec fn wire(self) -> Seq<char> {
        match self {
            NamedColor::Black => "black"@,
            NamedColor::Blue => "blue"@,
            NamedColor::Brown => "brown"@,
            NamedColor::Cyan => "cyan"@,
            NamedColor::Gray => "gray"@,
            NamedColor::Green => "green"@,
            NamedColor::Magenta => "magenta"@,
            NamedColor::Orange => "orange"@,
            NamedColor::Pink => "pink"@,
            NamedColor::Purple => "purple"@,
            NamedColor::Red => "red"@,
            NamedColor::Transparent => "transparent"@,
            NamedColor::White => "white"@,
            NamedColor::Yellow => "yellow"@,
        }
    }

    fn wire_str(&self) -> (s: &str)
        ensures
            s@ == self.wire(),
    {
        match self {
            NamedColor::Black => "black",
            NamedColor::Blue => "blue",
            NamedColor::Brown => "brown",
            NamedColor::Cyan => "cyan",
            NamedColor::Gray => "gray",
            NamedColor::Green => "green",
            NamedColor::Magenta => "magenta",
            NamedColor::Orange => "orange",
            NamedColor::Pink => "pink",
            NamedColor::Purple => "purple",
            NamedColor::Red => "red",
            NamedColor::Transparent => "transparent",
            NamedColor::White => "white",
            NamedColor::Yellow => "yellow",
        }
    }
}

impl Enc for NamedColor {
    open spec fn enc(&self) -> JVal {
        JVal::Text(self.wire())
    }

    fn encode(&self) -> (v: JsonValue)
        ensures
            v@ == self.enc(),
    {
        JsonValue::Text(self.wire_str().to_owned())
    }

    fn dup(&self) -> (r: Self)
        ensures
            r.enc() == self.enc(),
    {
        *self
    }
}

/// A color value: a CSS color name or an `rgb(r,g,b)` triple.
#[derive(Clone, Copy, Debug)]
pub enum ColorSpec {
    Named(NamedColor),
    Rgb(u8, u8, u8),
}

/// The wire text of an `rgb(r,g,b)` color.
pub open spec fn rgb_wire(r: nat, g: nat, b: nat) -> Seq<char> {
    "rgb("@ + spec_digits(r) + ","@ + spec_digits(g) + ","@ + spec_digits(b) + ")"@
}

impl Enc for ColorSpec {
    open spec fn enc(&self) -> JVal {
        match self {
            ColorSpec::Named(c) => c.enc(),
            ColorSpec::Rgb(r, g, b) => JVal::Text(rgb_wire(*r as nat, *g as nat, *b as nat)),
        }
    }

    fn encode(&self) -> (v: JsonValue)
        ensures
            v@ == self.enc(),
    {
        match self {
            ColorSpec::Named(c) => c.encode(),
            ColorSpec::Rgb(r, g, b) => {
                let mut s = String::new();
                s.append("rgb(");
                push_digits(&mut s, *r as u64);
                s.append(",");
                push_digits(&mut s, *g as u64);
                s.append(",");
                push_digits(&mut s, *b as u64);
                s.append(")");
                proof {
                    assert(s@ =~= rgb_wire(*r as nat, *g as nat, *b as nat));
                }
                JsonValue::Text(s)
            },
        }
    }

    fn dup(&self) -> (r: Self)
        ensures
            r.enc() == self.enc(),
    {
        *self
    }
}

/// Dash pattern of a line.
#[derive(Clone, Copy, Debug, PartialEq, Eq, Structural)]
pub enum LineDash {
    Solid,
    Dot,
    Dash,
    LongDash,
    DashDot,
    LongDashDot,
}

impl LineDash {
    pub open spec fn wire(self) -> Seq<char> {
        match self {
            LineDash::Solid => "solid"@,
            LineDash::Dot => "dot"@,
            LineDash::Dash => "dash"@,
            LineDash::LongDash => "longdash"@,
            LineDash::DashDot => "dashdot"@,
            LineDash::LongDashDot => "longdashdot"@,
        }
    }

    fn wire_str(&self) -> (s: &str)
        ensures
            s@ == self.wire(),
    {
        match self {
            LineDash::Solid => "solid",
            LineDash::Dot => "dot",
            LineDash::Dash => "dash",
            LineDash::LongDash => "longdash",
            LineDash::DashDot => "dashdot",
            LineDash::LongDashDot => "longdashdot",
        }
    }
}

impl Enc for LineDash {
    open spec fn enc(&self) -> JVal {
        JVal::Text(self.wire())
    }

    fn encode(&self) -> (v: JsonValue)
        ensures
            v@ == self.enc(),
    {
        JsonValue::Text(self.wire_str().to_owned())
    }

    fn dup(&self) -> (r: Self)
        ensures
            r.enc() == self.enc(),
    {
        *self
    }
}

/// Line styling: an opaque value object the chart builders hold whole.
#[derive(Clone, Copy, Debug)]
pub struct Line {
    pub width: Option<Real>,
    pub color: Option<ColorSpec>,
    pub dash: Option<LineDash>,
}

impl Line {
    /// The line's optional fields under their wire keys, in order.
    pub open spec fn entries(self) -> Seq<OptEntry> {
        seq![
            ("width"@, enc_opt(self.width)),
            ("color"@, enc_opt(self.color)),
            ("dash"@, enc_opt(self.dash)),
        ]
    }

    pub fn new() -> (r: Line)
        ensures
            r == (Line { width: None, color: None, dash: None }),
    {
        Line { width: None, color: None, dash: None }
    }

    pub fn width(self, width: Real) -> (r: Line)
        ensures
            r == (Line { width: Some(width), ..self }),
    {
        Line { width: Some(width), ..self }
    }

    pub fn color(self, color: ColorSpec) -> (r: Line)
        ensures
            r == (Line { color: Some(color), ..self }),
    {
        Line { color: Some(color), ..self }
    }

    pub fn dash(self, dash: LineDash) -> (r: Line)
        ensures
            r == (Line { dash: Some(dash), ..self }),
    {
        Line { dash: Some(dash), ..self }
    }
}

impl Enc for Line {
    open spec fn enc(&self) -> JVal {
        JVal::Obj(present(self.entries()))
    }

    fn encode(&self) -> (v: JsonValue)
        ensures
            v@ == self.enc(),
    {
        let mut b = ObjBuilder::new();
        b.field("width", opt_encode(&self.width));
        b.field("color", opt_encode(&self.color));
        b.field("dash", opt_encode(&self.dash));
        proof {
            assert(b.model() =~= self.entries());
        }
        b.finish()
    }

    fn dup(&self) -> (r: Self)
        ensures
            r.enc() == self.enc(),
    {
        *self
    }
}

/// Marker styling: an opaque value object the chart builders hold whole.
#[derive(Debug)]
pub struct Marker {
    pub size: Option<DimAttr<usize>>,
    pub color: Option<ColorSpec>,
    pub opacity: Option<Real>,
}

impl Marker {
    /// The marker's optional fields under their wire keys, in order.
    pub open spec fn entries(self) -> Seq<OptEntry> {
        seq![
            ("size"@, enc_opt(self.size)),
            ("color"@, enc_opt(self.color)),
            ("opacity"@, enc_opt(self.opacity)),
        ]
    }

    pub fn new() -> (r: Marker)
        ensures
            r == (Marker { size: None, color: None, opacity: None }),
    {
        Marker { size: None, color: None, opacity: None }
    }

    pub fn size(self, size: usize) -> (r: Marker)
        ensures
            r == (Marker { size: r.size, ..self }),
            r.size == Some(DimAttr::Scalar(size)),
    {
        Marker { size: Some(DimAttr::Scalar(size)), ..self }
    }

    pub fn size_array(self, size: Vec<usize>) -> (r: Marker)
        ensures
            r == (Marker { size: r.size, ..self }),
            r.size == Some(DimAttr::Sequence(size)),
    {
        Marker { size: Some(DimAttr::Sequence(size)), ..self }
    }

    pub fn color(self, color: ColorSpec) -> (r: Marker)
        ensures
            r == (Marker { color: Some(color), ..self }),
    {
        Marker { color: Some(color), ..self }
    }

    pub fn opacity(self, opacity: Real) -> (r: Marker)
        ensures
            r == (Marker { opacity: Some(opacity), ..self }),
    {
        Marker { opacity: Some(opacity), ..self }
    }
}

impl Enc for Marker {
    open spec fn enc(&self) -> JVal {
        JVal::Obj(present(self.entries()))
    }

    fn encode(&self) -> (v: JsonValue)
        ensures
            v@ == self.enc(),
    {
        let mut b = ObjBuilder::new();
        b.field("size", opt_encode(&self.size));
        b.field("color", opt_encode(&self.color));
        b.field("opacity", opt_encode(&self.opacity));
        proof {
            assert(b.model() =~= self.entries());
        }
        b.finish()
    }

    fn dup(&self) -> (r: Self)
        ensures
            r.enc() == self.enc(),
    {
        let r = Marker { size: opt_dup(&self.size), color: self.color, opacity: self.opacity };
        proof {
            assert(r.entries() =~= self.entries());
        }
        r
    }
}

/// Font styling: an opaque value object the chart builders hold whole.
#[derive(Debug)]
pub struct Font {
    pub family: Option<String>,
    pub size: Option<usize>,
    pub color: Option<ColorSpec>,
}

impl Font {
    /// The font's optional fields under their wire keys, in order.
    pub open spec fn entries(self) -> Seq<OptEntry> {
        seq![
            ("family"@, enc_opt(self.family)),
            ("size"@, enc_opt(self.size)),
            ("color"@, enc_opt(self.color)),
        ]
    }

    pub fn new() -> (r: Font)
        ensures
            r == (Font { family: None, size: None, color: None }),
    {
        Font { family: None, size: None, color: None }
    }

    pub fn family(self, family: &str) -> (r: Font)
        ensures
            r == (Font { family: r.family, ..self }),
            r.family matches Some(f) && f@ == family@,
    {
        Font { family: Some(family.to_owned()), ..self }
    }

    pub fn size(self, size: usize) -> (r: Font)
        ensures
            r == (Font { size: Some(size), ..self }),
    {
        Font { size: Some(size), ..self }
    }

    pub fn color(self, color: ColorSpec) -> (r: Font)
        ensures
            r == (Font { color: Some(color), ..self }),
    {
        Font { color: Some(color), ..self }
    }
}

impl Enc for Font {
    open spec fn enc(&self) -> JVal {
        JVal::Obj(present(self.entries()))
    }

    fn encode(&self) -> (v: JsonValue)
        ensures
            v@ == self.enc(),
    {
        let mut b = ObjBuilder::new();
        b.field("family", opt_encode(&self.family));
        b.field("size", opt_encode(&self.size));
        b.field("color", opt_encode(&self.color));
        proof {
            assert(b.model() =~= self.entries());
        }
        b.finish()
    }

    fn dup(&self) -> (r: Self)
        ensures
            r.enc() == self.enc(),
    {
        let r = Font { family: opt_dup(&self.family), size: self.size, color: self.color };
        proof {
            assert(r.entries() =~= self.entries());
        }
        r
    }
}

/// The kind of an error bar's extent.
#[derive(Clone, Copy, Debug, PartialEq, Eq, Structural)]
pub enum ErrorType {
    Percent,
    Constant,
    SquareRoot,
    Data,
}

impl ErrorType {
    pub open spec fn wire(self) -> Seq<char> {
        match self {
            ErrorType::Percent => "percent"@,
            ErrorType::Constant => "constant"@,
            ErrorType::SquareRoot => "sqrt"@,
            ErrorType::Data => "data"@,
        }
    }

    fn wire_str(&self) -> (s: &str)
        ensures
            s@ == self.wire(),
    {
        match self {
            ErrorType::Percent => "percent",
            ErrorType::Constant => "constant",
            ErrorType::SquareRoot => "sqrt",
            ErrorType::Data => "data",
        }
    }
}

impl Enc for ErrorType {
    open spec fn enc(&self) -> JVal {
        JVal::Text(self.wire())
    }

    fn encode(&self) -> (v: JsonValue)
        ensures
            v@ == self.enc(),
    {
        JsonValue::Text(self.wire_str().to_owned())
    }

    fn dup(&self) -> (r: Self)
        ensures
            r.enc() == self.enc(),
    {
        *self
    }
}

/// Error bar specification: an opaque value object the chart builders hold
/// whole.  The kind is always present; the extents are optional.
#[derive(Debug)]
pub struct ErrorData {
    pub error_type: ErrorType,
    pub array: Option<Vec<Real>>,
    pub visible: Option<bool>,
    pub symmetric: Option<bool>,
    pub value: Option<Real>,
}

impl ErrorData {
    /// The error bar's fields under their wire keys, in order.
    pub open spec fn entries(self) -> Seq<OptEntry> {
        seq![
            ("type"@, Some(self.error_type.enc())),
            ("array"@, enc_opt(self.array)),
            ("visible"@, enc_opt(self.visible)),
            ("symmetric"@, enc_opt(self.symmetric)),
            ("value"@, enc_opt(self.value)),
        ]
    }

    pub fn new(error_type: ErrorType) -> (r: ErrorData)
        ensures
            r == (ErrorData {
                error_type,
                array: None,
                visible: None,
                symmetric: None,
                value: None,
            }),
    {
        ErrorData { error_type, array: None, visible: None, symmetric: None, value: None }
    }

    pub fn array(self, array: Vec<Real>) -> (r: ErrorData)
        ensures
            r == (ErrorData { array: Some(array), ..self }),
    {
        ErrorData { array: Some(array), ..self }
    }

    pub fn visible(self, visible: bool) -> (r: ErrorData)
        ensures
            r == (ErrorData { visible: Some(visible), ..self }),
    {
        ErrorData { visible: Some(visible), ..self }
    }

    pub fn symmetric(self, symmetric: bool) -> (r: ErrorData)
        ensures
            r == (ErrorData { symmetric: Some(symmetric), ..self }),
    {
        ErrorData { symmetric: Some(symmetric), ..self }
    }

    pub fn value(self, value: Real) -> (r: ErrorData)
        ensures
            r == (ErrorData { value: Some(value), ..self }),
    {
        ErrorData { value: Some(value), ..self }
    }
}

impl Enc for ErrorData {
    open spec fn enc(&self) -> JVal {
        JVal::Obj(present(self.entries()))
    }

    fn encode(&self) -> (v: JsonValue)
        ensures
            v@ == self.enc(),
    {
        let mut b = ObjBuilder::new();
        b.field("type", Some(self.error_type.encode()));
        b.field("array", opt_encode(&self.array));
        b.field("visible", opt_encode(&self.visible));
        b.field("symmetric", opt_encode(&self.symmetric));
        b.field("value", opt_encode(&self.value));
        proof {
            assert(b.model() =~= self.entries());
        }
        b.finish()
    }

    fn dup(&self) -> (r: Self)
        ensures
            r.enc() == self.enc(),
    {
        let r = ErrorData {
            error_type: self.error_type,
            array: opt_dup(&self.array),
            visible: self.visible,
            symmetric: self.symmetric,
            value: self.value,
        };
        proof {
            assert(r.entries() =~= self.entries());
        }
        r
    }
}

/// Hover label styling: an opaque value object the chart builders hold
/// whole.
#[derive(Debug)]
pub struct Label {
    pub background_color: Option<ColorSpec>,
    pub border_color: Option<ColorSpec>,
    pub font: Option<Font>,
    pub align: Option<String>,
    pub name_length: Option<i64>,
}

impl Label {
    /// The label's optional fields under their wire keys, in order.
    pub open spec fn entries(self) -> Seq<OptEntry> {
        seq![
            ("bgcolor"@, enc_opt(self.background_color)),
            ("bordercolor"@, enc_opt(self.border_color)),
            ("font"@, enc_opt(self.font)),
            ("align"@, enc_opt(self.align)),
            ("namelength"@, enc_opt(self.name_length)),
        ]
    }

    pub fn new() -> (r: Label)
        ensures
            r == (Label {
                background_color: None,
                border_color: None,
                font: None,
                align: None,
                name_length: None,
            }),
    {
        Label { background_color: None, border_color: None, font: None, align: None, name_length: None }
    }

    pub fn background_color(self, background_color: ColorSpec) -> (r: Label)
        ensures
            r == (Label { background_color: Some(background_color), ..self }),
    {
        Label { background_color: Some(background_color), ..self }
    }

    pub fn border_color(self, border_color: ColorSpec) -> (r: Label)
        ensures
            r == (Label { border_color: Some(border_color), ..self }),
    {
        Label { border_color: Some(border_color), ..self }
    }

    pub fn font(self, font: Font) -> (r: Label)
        ensures
            r == (Label { font: Some(font), ..self }),
    {
        Label { font: Some(font), ..self }
    }

    pub fn align(self, align: &str) -> (r: Label)
        ensures
            r == (Label { align: r.align, ..self }),
            r.align matches Some(a) && a@ == align@,
    {
        Label { align: Some(align.to_owned()), ..self }
    }

    pub fn name_length(self, name_length: i64) -> (r: Label)
        ensures
            r == (Label { name_length: Some(name_length), ..self }),
    {
        Label { name_length: Some(name_length), ..self }
    }
}

impl Enc for Label {
    open spec fn enc(&self) -> JVal {
        JVal::Obj(present(self.entries()))
    }

    fn encode(&self) -> (v: JsonValue)
        ensures
            v@ == self.enc(),
    {
        let mut b = ObjBuilder::new();
        b.field("bgcolor", opt_encode(&self.background_color));
        b.field("bordercolor", opt_encode(&self.border_color));
        b.field("font", opt_encode(&self.font));
        b.field("align", opt_encode(&self.align));
        b.field("namelength", opt_encode(&self.name_length));
        proof {
            assert(b.model() =~= self.entries());
        }
        b.finish()
    }

    fn dup(&self) -> (r: Self)
        ensures
            r.enc() == self.enc(),
    {
        let r = Label {
            background_color: self.background_color,
            border_color: self.border_color,
            font: opt_dup(&self.font),
            align: opt_dup(&self.align),
            name_length: self.name_length,
        };
        proof {
            assert(r.entries() =~= self.entries());
        }
        r
    }
}

/// Direction styling of a candlestick: the line used for rising or falling
/// candles.  Both variants serialize as an object holding only the line; the
/// direction itself is given by which attribute slot holds the value.
#[derive(Clone, Copy, Debug)]
pub enum Direction {
    Increasing { line: Line },
    Decreasing { line: Line },
}

impl Direction {
    /// The line the direction styles, whichever the variant.
    pub open spec fn line_of(self) -> Line {
        match self {
            Direction::Increasing { line } => line,
            Direction::Decreasing { line } => line,
        }
    }
}

impl Enc for Direction {
    open spec fn enc(&self) -> JVal {
        JVal::Obj(present(seq![("line"@, Some(self.line_of().enc()))]))
    }

    fn encode(&self) -> (v: JsonValue)
        ensures
            v@ == self.enc(),
    {
        let line = match self {
            Direction::Increasing { line } => line,
            Direction::Decreasing { line } => line,
        };
        let mut b = ObjBuilder::new();
        b.field("line", Some(line.encode()));
        proof {
            assert(b.model() =~= seq![("line"@, Some(self.line_of().enc()))]);
        }
        b.finish()
    }

    fn dup(&self) -> (r: Self)
        ensures
            r.enc() == self.enc(),
    {
        *self
    }
}

} // verus!
