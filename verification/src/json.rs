//! A small JSON document model with a fully specified text rendering.
//!
//! `JsonValue` is the executable document tree; its mathematical counterpart
//! is `JVal`, built from `Seq` and `nat`.  `spec_render` defines, character by
//! character, the exact text that `render` produces, including decimal
//! formatting of numbers and string escaping.

use vstd::prelude::*;

verus! {

/// Mathematical model of a JSON document fragment.
///
/// Numbers are decimals: `Num(neg, mag, scale)` stands for the number whose
/// digit string is `mag` with a decimal point `scale` places from the right,
/// negated when `neg` holds.
pub enum JVal {
    Bool(bool),
    Num(bool, nat, nat),
    Text(Seq<char>),
    Arr(Seq<JVal>),
    Obj(Seq<(Seq<char>, JVal)>),
}

/// The absolute value of an integer, as a natural number.
pub open spec fn abs_of(i: int) -> nat {
    if i < 0 { (-i) as nat } else { i as nat }
}

/// Decimal number value: `(-1)^neg * mag / 10^scale`.
///
/// The scale is bounded so that `10^scale` always fits in a `u64` while
/// rendering.
#[derive(Clone, Copy, Debug)]
pub struct Real {
    neg: bool,
    mag: u64,
    scale: u32,
}

impl Real {
    #[verifier::type_invariant]
    pub closed spec fn inv(self) -> bool {
        self.scale <= 19
    }

    /// The number as a model value.
    pub closed spec fn model(self) -> JVal {
        JVal::Num(self.neg, self.mag as nat, self.scale as nat)
    }

    /// An integer value.
    pub fn from_int(i: i64) -> (r: Real)
        ensures
            r.model() == JVal::Num(i < 0, abs_of(i as int), 0nat),
    {
        let mag: u64 = if i >= 0 { i as u64 } else { (-(i as i128)) as u64 };
        Real { neg: i < 0, mag, scale: 0 }
    }

    /// A non-negative integer value.
    pub fn from_uint(u: u64) -> (r: Real)
        ensures
            r.model() == JVal::Num(false, u as nat, 0nat),
    {
        Real { neg: false, mag: u, scale: 0 }
    }

    /// The decimal `(-1)^neg * mag / 10^scale`; for example `(false, 15, 1)`
    /// renders as `1.5`.
    pub fn decimal(neg: bool, mag: u64, scale: u32) -> (r: Real)
        requires
            scale <= 19,
        ensures
            r.model() == JVal::Num(neg, mag as nat, scale as nat),
    {
        Real { neg, mag, scale }
    }
}

/// Executable JSON document tree.  Object fields keep their insertion order.
pub enum JsonValue {
    Bool(bool),
    Num(Real),
    Text(String),
    Arr(Vec<JsonValue>),
    Obj(Vec<(String, JsonValue)>),
}

/// Model of an executable document tree.
pub open spec fn jval_of(v: JsonValue) -> JVal
    decreases v,
{
    match v {
        JsonValue::Bool(b) => JVal::Bool(b),
        JsonValue::Num(r) => r.model(),
        JsonValue::Text(s) => JVal::Text(s@),
        JsonValue::Arr(xs) => JVal::Arr(jvals_of(xs@)),
        JsonValue::Obj(fs) => JVal::Obj(jfields_of(fs@)),
    }
}

/// Models of a sequence of document trees.
pub open spec fn jvals_of(xs: Seq<JsonValue>) -> Seq<JVal>
    decreases xs,
{
    if xs.len() == 0 {
        Seq::empty()
    } else {
        jvals_of(xs.drop_last()).push(jval_of(xs.last()))
    }
}

/// Models of a sequence of object fields.
pub open spec fn jfields_of(fs: Seq<(String, JsonValue)>) -> Seq<(Seq<char>, JVal)>
    decreases fs,
{
    if fs.len() == 0 {
        Seq::empty()
    } else {
        jfields_of(fs.drop_last()).push((fs.last().0@, jval_of(fs.last().1)))
    }
}

impl View for JsonValue {
    type V = JVal;

    open spec fn view(&self) -> JVal {
        jval_of(*self)
    }
}

pub broadcast proof fn lemma_jvals_of_push(xs: Seq<JsonValue>, x: JsonValue)
    ensures
        #[trigger] jvals_of(xs.push(x)) == jvals_of(xs).push(jval_of(x)),
{
    assert(xs.push(x).drop_last() =~= xs);
    assert(xs.push(x).last() == x);
}

pub broadcast proof fn lemma_jfields_of_push(fs: Seq<(String, JsonValue)>, f: (String, JsonValue))
    ensures
        #[trigger] jfields_of(fs.push(f)) == jfields_of(fs).push((f.0@, jval_of(f.1))),
{
    assert(fs.push(f).drop_last() =~= fs);
    assert(fs.push(f).last() == f);
}

pub proof fn lemma_jvals_of_len(xs: Seq<JsonValue>)
    ensures
        jvals_of(xs).len() == xs.len(),
        forall|i: int| 0 <= i < xs.len() ==> jvals_of(xs)[i] == jval_of(xs[i]),
    decreases xs,
{
    if xs.len() > 0 {
        lemma_jvals_of_len(xs.drop_last());
    }
}

/// The decimal digit character for `d < 10`.
pub open spec fn digit_char(d: nat) -> char {
    if d == 0 { '0' }
    else if d == 1 { '1' }
    else if d == 2 { '2' }
    else if d == 3 { '3' }
    else if d == 4 { '4' }
    else if d == 5 { '5' }
    else if d == 6 { '6' }
    else if d == 7 { '7' }
    else if d == 8 { '8' }
    else if d == 9 { '9' }
    else { ' ' }
}

/// The ordinary decimal digit string of `n`, without leading zeroes (except
/// for `n == 0`, which is `"0"`).
pub open spec fn spec_digits(n: nat) -> Seq<char>
    decreases n,
{
    if n < 10 {
        seq![digit_char(n)]
    } else {
        spec_digits(n / 10).push(digit_char(n % 10))
    }
}

/// The digit string of `n` left-padded with zeroes to exactly `w` characters;
/// meaningful when `n < 10^w`.
pub open spec fn spec_padded(n: nat, w: nat) -> Seq<char>
    decreases w,
{
    if w == 0 {
        Seq::empty()
    } else {
        spec_padded(n / 10, (w - 1) as nat).push(digit_char(n % 10))
    }
}

/// `10^k`.
pub open spec fn pow10(k: nat) -> nat
    decreases k,
{
    if k == 0 {
        1
    } else {
        10 * pow10((k - 1) as nat)
    }
}

/// The rendered form of the decimal `(-1)^neg * mag / 10^scale`: a minus sign
/// when negative, then the integer part, then — when `scale > 0` — a point
/// and exactly `scale` fraction digits.
pub open spec fn spec_num(neg: bool, mag: nat, scale: nat) -> Seq<char> {
    let sign = if neg { seq!['-'] } else { Seq::<char>::empty() };
    if scale == 0 {
        sign + spec_digits(mag)
    } else {
        sign + spec_digits(mag / pow10(scale)) + seq!['.'] + spec_padded(mag % pow10(scale), scale)
    }
}

/// The escaped form of one character inside a JSON string literal: quote and
/// backslash get a backslash escape, control characters their short escape or
/// a `\u00..` escape, and every other character stands for itself.
pub open spec fn esc_char(c: char) -> Seq<char> {
    if c == '"' { seq!['\\', '"'] }
    else if c == '\\' { seq!['\\', '\\'] }
    else if c == '\u{8}' { seq!['\\', 'b'] }
    else if c == '\u{9}' { seq!['\\', 't'] }
    else if c == '\u{a}' { seq!['\\', 'n'] }
    else if c == '\u{c}' { seq!['\\', 'f'] }
    else if c == '\u{d}' { seq!['\\', 'r'] }
    else if (c as u32) < 32 {
        seq!['\\', 'u', '0', '0', digit_char(((c as u32) / 16) as nat), hex_char(((c as u32) % 16) as nat)]
    } else {
        seq![c]
    }
}

/// The lower-case hexadecimal digit character for `d < 16`.
pub open spec fn hex_char(d: nat) -> char {
    if d < 10 { digit_char(d) }
    else if d == 10 { 'a' }
    else if d == 11 { 'b' }
    else if d == 12 { 'c' }
    else if d == 13 { 'd' }
    else if d == 14 { 'e' }
    else { 'f' }
}

/// The body of a JSON string literal: every character escaped.
pub open spec fn spec_escape(s: Seq<char>) -> Seq<char>
    decreases s,
{
    if s.len() == 0 {
        Seq::empty()
    } else {
        spec_escape(s.drop_last()) + esc_char(s.last())
    }
}

/// A complete JSON string literal.
pub open spec fn spec_quote(s: Seq<char>) -> Seq<char> {
    seq!['"'] + spec_escape(s) + seq!['"']
}

/// The comma-separated renderings of the array items, in order.
pub open spec fn spec_render_items(xs: Seq<JVal>) -> Seq<char>
    decreases xs,
{
    if xs.len() == 0 {
        Seq::empty()
    } else if xs.len() == 1 {
        spec_render(xs[0])
    } else {
        spec_render_items(xs.drop_last()) + seq![','] + spec_render(xs.last())
    }
}

/// The comma-separated renderings of the object fields, each a quoted key,
/// a colon and the field value, in order.
pub open spec fn spec_render_fields(fs: Seq<(Seq<char>, JVal)>) -> Seq<char>
    decreases fs,
{
    if fs.len() == 0 {
        Seq::empty()
    } else if fs.len() == 1 {
        spec_quote(fs[0].0) + seq![':'] + spec_render(fs[0].1)
    } else {
        spec_render_fields(fs.drop_last()) + seq![',']
            + spec_quote(fs.last().0) + seq![':'] + spec_render(fs.last().1)
    }
}

/// The exact rendered text of a document fragment.
pub open spec fn spec_render(v: JVal) -> Seq<char>
    decreases v,
{
    match v {
        JVal::Bool(b) => if b { seq!['t', 'r', 'u', 'e'] } else { seq!['f', 'a', 'l', 's', 'e'] },
        JVal::Num(neg, mag, scale) => spec_num(neg, mag, scale),
        JVal::Text(s) => spec_quote(s),
        JVal::Arr(xs) => seq!['['] + spec_render_items(xs) + seq![']'],
        JVal::Obj(fs) => seq!['{'] + spec_render_fields(fs) + seq!['}'],
    }
}

/// Relies on `String::push`: appends exactly the given character.
#[verifier::external_body]
fn push_char(out: &mut String, c: char)
    ensures
        final(out)@ == old(out)@ + seq![c],
{
    out.push(c);
}

/// Appends the decimal digit character for `d`.
fn push_digit(out: &mut String, d: u64)
    requires
        d < 10,
    ensures
        final(out)@ == old(out)@ + seq![digit_char(d as nat)],
{
    let c: char = match d {
        0 => '0',
        1 => '1',
        2 => '2',
        3 => '3',
        4 => '4',
        5 => '5',
        6 => '6',
        7 => '7',
        8 => '8',
        _ => '9',
    };
    push_char(out, c);
}

/// Appends the decimal digit string of `n`.
pub(crate) fn push_digits(out: &mut String, n: u64)
    ensures
        final(out)@ == old(out)@ + spec_digits(n as nat),
    decreases n,
{
    if n < 10 {
        push_digit(out, n);
    } else {
        push_digits(out, n / 10);
        push_digit(out, n % 10);
        assert(out@ =~= old(out)@ + spec_digits(n as nat));
    }
}

/// Appends the digit string of `n` left-padded with zeroes to width `w`.
fn push_padded(out: &mut String, n: u64, w: u32)
    ensures
        final(out)@ == old(out)@ + spec_padded(n as nat, w as nat),
    decreases w,
{
    if w > 0 {
        push_padded(out, n / 10, w - 1);
        push_digit(out, n % 10);
        assert(out@ =~= old(out)@ + spec_padded(n as nat, w as nat));
    }
}

proof fn lemma_pow10_mono(a: nat, b: nat)
    requires
        a <= b,
    ensures
        pow10(a) <= pow10(b),
    decreases b,
{
    if a < b {
        lemma_pow10_mono(a, (b - 1) as nat);
    }
}

fn pow10_u64(k: u32) -> (p: u64)
    requires
        k <= 19,
    ensures
        p as nat == pow10(k as nat),
        p >= 1,
{
    let mut p: u64 = 1;
    let mut i: u32 = 0;
    while i < k
        invariant
            i <= k,
            k <= 19,
            p as nat == pow10(i as nat),
        decreases k - i,
    {
        proof {
            reveal_with_fuel(pow10, 20);
            assert(pow10(19) == 10000000000000000000);
            lemma_pow10_mono(i as nat + 1, 19);
        }
        p = p * 10;
        i = i + 1;
    }
    proof {
        lemma_pow10_mono(0, k as nat);
    }
    p
}

impl Real {
    /// Appends the rendered decimal.
    fn write(&self, out: &mut String)
        ensures
            final(out)@ == old(out)@ + spec_render(self.model()),
    {
        proof {
            use_type_invariant(*self);
        }
        if self.neg {
            push_char(out, '-');
        }
        if self.scale == 0 {
            push_digits(out, self.mag);
        } else {
            let p = pow10_u64(self.scale);
            push_digits(out, self.mag / p);
            push_char(out, '.');
            push_padded(out, self.mag % p, self.scale);
        }
        assert(out@ =~= old(out)@ + spec_render(self.model()));
    }
}

/// Appends the lower-case hexadecimal digit character for `d`.
fn push_hex(out: &mut String, d: u32)
    requires
        d < 16,
    ensures
        final(out)@ == old(out)@ + seq![hex_char(d as nat)],
{
    let c: char = match d {
        0 => '0',
        1 => '1',
        2 => '2',
        3 => '3',
        4 => '4',
        5 => '5',
        6 => '6',
        7 => '7',
        8 => '8',
        9 => '9',
        10 => 'a',
        11 => 'b',
        12 => 'c',
        13 => 'd',
        14 => 'e',
        _ => 'f',
    };
    push_char(out, c);
}

/// Appends the escaped form of one character.
fn push_esc_char(out: &mut String, c: char)
    ensures
        final(out)@ == old(out)@ + esc_char(c),
{
    if c == '"' {
        push_char(out, '\\');
        push_char(out, '"');
    } else if c == '\\' {
        push_char(out, '\\');
        push_char(out, '\\');
    } else if c == '\u{8}' {
        push_char(out, '\\');
        push_char(out, 'b');
    } else if c == '\u{9}' {
        push_char(out, '\\');
        push_char(out, 't');
    } else if c == '\u{a}' {
        push_char(out, '\\');
        push_char(out, 'n');
    } else if c == '\u{c}' {
        push_char(out, '\\');
        push_char(out, 'f');
    } else if c == '\u{d}' {
        push_char(out, '\\');
        push_char(out, 'r');
    } else {
        let u = c as u32;
        if u < 32 {
            push_char(out, '\\');
            push_char(out, 'u');
            push_char(out, '0');
            push_char(out, '0');
            push_digit(out, (u / 16) as u64);
            push_hex(out, u % 16);
        } else {
            push_char(out, c);
        }
    }
    assert(out@ =~= old(out)@ + esc_char(c));
}

/// Appends the escaped body of a JSON string literal.
fn push_escaped(out: &mut String, s: &str)
    ensures
        final(out)@ == old(out)@ + spec_escape(s@),
{
    let n = s.unicode_len();
    let mut i: usize = 0;
    while i < n
        invariant
            i <= n,
            n == s@.len(),
            out@ == old(out)@ + spec_escape(s@.take(i as int)),
        decreases n - i,
    {
        let c = s.get_char(i);
        push_esc_char(out, c);
        proof {
            assert(s@.take(i + 1 as int).drop_last() =~= s@.take(i as int));
            assert(s@.take(i + 1 as int).last() == s@[i as int]);
        }
        i = i + 1;
    }
    assert(s@.take(n as int) =~= s@);
}

/// Appends a complete JSON string literal for `s`.
fn push_quoted(out: &mut String, s: &str)
    ensures
        final(out)@ == old(out)@ + spec_quote(s@),
{
    push_char(out, '"');
    push_escaped(out, s);
    push_char(out, '"');
    assert(out@ =~= old(out)@ + spec_quote(s@));
}

proof fn lemma_render_items_push(ys: Seq<JVal>, y: JVal)
    ensures
        spec_render_items(ys.push(y)) == if ys.len() == 0 {
            spec_render(y)
        } else {
            spec_render_items(ys) + seq![','] + spec_render(y)
        },
{
    assert(ys.push(y).drop_last() =~= ys);
    assert(ys.push(y).last() == y);
    if ys.len() == 0 {
        assert(ys.push(y)[0] == y);
    }
}

proof fn lemma_render_fields_push(fs: Seq<(Seq<char>, JVal)>, f: (Seq<char>, JVal))
    ensures
        spec_render_fields(fs.push(f)) == if fs.len() == 0 {
            spec_quote(f.0) + seq![':'] + spec_render(f.1)
        } else {
            spec_render_fields(fs) + seq![','] + spec_quote(f.0) + seq![':'] + spec_render(f.1)
        },
{
    assert(fs.push(f).drop_last() =~= fs);
    assert(fs.push(f).last() == f);
    if fs.len() == 0 {
        assert(fs.push(f)[0] == f);
    }
}

/// Appends the exact rendered text of `v`.
fn write_json(v: &JsonValue, out: &mut String)
    ensures
        final(out)@ == old(out)@ + spec_render(v@),
    decreases *v,
{
    match v {
        JsonValue::Bool(b) => {
            if *b {
                push_char(out, 't');
                push_char(out, 'r');
                push_char(out, 'u');
                push_char(out, 'e');
            } else {
                push_char(out, 'f');
                push_char(out, 'a');
                push_char(out, 'l');
                push_char(out, 's');
                push_char(out, 'e');
            }
            assert(out@ =~= old(out)@ + spec_render(v@));
        },
        JsonValue::Num(r) => {
            r.write(out);
        },
        JsonValue::Text(s) => {
            push_quoted(out, s.as_str());
        },
        JsonValue::Arr(xs) => {
            push_char(out, '[');
            let mut i: usize = 0;
            while i < xs.len()
                invariant
                    i <= xs.len(),
                    *v == JsonValue::Arr(*xs),
                    out@ == old(out)@ + seq!['['] + spec_render_items(jvals_of(xs@.take(i as int))),
                decreases xs.len() - i,
            {
                if i > 0 {
                    push_char(out, ',');
                }
                proof {
                    vstd::std_specs::vec::axiom_vec_index_decreases(*xs, i as int);
                    assert(decreases_to!(*v => v->Arr_0));
                    assert(v->Arr_0 == *xs);
                }
                write_json(&xs[i], out);
                proof {
                    assert(xs@.take(i + 1 as int) =~= xs@.take(i as int).push(xs@[i as int]));
                    lemma_jvals_of_push(xs@.take(i as int), xs@[i as int]);
                    lemma_jvals_of_len(xs@.take(i as int));
                    lemma_render_items_push(jvals_of(xs@.take(i as int)), jval_of(xs@[i as int]));
                }
                i = i + 1;
                assert(out@ =~= old(out)@ + seq!['['] + spec_render_items(jvals_of(xs@.take(i as int))));
            }
            push_char(out, ']');
            proof {
                assert(xs@.take(xs@.len() as int) =~= xs@);
            }
            assert(out@ =~= old(out)@ + spec_render(v@));
        },
        JsonValue::Obj(fs) => {
            push_char(out, '{');
            let mut i: usize = 0;
            while i < fs.len()
                invariant
                    i <= fs.len(),
                    *v == JsonValue::Obj(*fs),
                    out@ == old(out)@ + seq!['{'] + spec_render_fields(jfields_of(fs@.take(i as int))),
                decreases fs.len() - i,
            {
                if i > 0 {
                    push_char(out, ',');
                }
                push_quoted(out, fs[i].0.as_str());
                push_char(out, ':');
                proof {
                    vstd::std_specs::vec::axiom_vec_index_decreases(*fs, i as int);
                    assert(decreases_to!(*v => v->Obj_0));
                    assert(v->Obj_0 == *fs);
                    assert(decreases_to!(fs@[i as int] => fs@[i as int].1));
                }
                write_json(&fs[i].1, out);
                proof {
                    assert(fs@.take(i + 1 as int) =~= fs@.take(i as int).push(fs@[i as int]));
                    lemma_jfields_of_push_entry(fs@.take(i as int), fs@[i as int]);
                    lemma_render_fields_push(
                        jfields_of(fs@.take(i as int)),
                        (fs@[i as int].0@, jval_of(fs@[i as int].1)),
                    );
                }
                i = i + 1;
                assert(out@ =~= old(out)@ + seq!['{'] + spec_render_fields(jfields_of(fs@.take(i as int))));
            }
            push_char(out, '}');
            proof {
                assert(fs@.take(fs@.len() as int) =~= fs@);
            }
            assert(out@ =~= old(out)@ + spec_render(v@));
        },
    }
}

proof fn lemma_jfields_of_push_entry(fs: Seq<(String, JsonValue)>, f: (String, JsonValue))
    ensures
        jfields_of(fs.push(f)) == jfields_of(fs).push((f.0@, jval_of(f.1))),
{
    lemma_jfields_of_push(fs, f);
}

impl JsonValue {
    /// The exact rendered text of the document fragment.
    pub fn render(&self) -> (s: String)
        ensures
            s@ == spec_render(self@),
    {
        let mut out = String::new();
        write_json(self, &mut out);
        out
    }
}

/// Whether the field list holds the key.
pub open spec fn obj_has_key(fs: Seq<(Seq<char>, JVal)>, k: Seq<char>) -> bool
    decreases fs,
{
    if fs.len() == 0 {
        false
    } else {
        fs[0].0 == k || obj_has_key(fs.drop_first(), k)
    }
}

/// The value under the key, at its first occurrence.
pub open spec fn obj_get(fs: Seq<(Seq<char>, JVal)>, k: Seq<char>) -> Option<JVal>
    decreases fs,
{
    if fs.len() == 0 {
        None
    } else if fs[0].0 == k {
        Some(fs[0].1)
    } else {
        obj_get(fs.drop_first(), k)
    }
}

pub proof fn lemma_obj_get_concat(a: Seq<(Seq<char>, JVal)>, b: Seq<(Seq<char>, JVal)>, k: Seq<char>)
    ensures
        obj_has_key(a + b, k) == (obj_has_key(a, k) || obj_has_key(b, k)),
        obj_get(a + b, k) == if obj_has_key(a, k) {
            obj_get(a, k)
        } else {
            obj_get(b, k)
        },
    decreases a,
{
    if a.len() == 0 {
        assert(a + b =~= b);
    } else {
        assert((a + b).drop_first() =~= a.drop_first() + b);
        lemma_obj_get_concat(a.drop_first(), b, k);
    }
}

pub proof fn lemma_obj_get_some(fs: Seq<(Seq<char>, JVal)>, k: Seq<char>)
    ensures
        obj_has_key(fs, k) <==> obj_get(fs, k) is Some,
    decreases fs,
{
    if fs.len() > 0 {
        lemma_obj_get_some(fs.drop_first(), k);
    }
}

/// An optional field list entry: the key together with the value that the
/// owning object holds under it, or nothing when the field is unset.
pub type OptEntry = (Seq<char>, Option<JVal>);

/// The fields that are actually present, in order: unset entries drop out,
/// set entries keep their key and value.
pub open spec fn present(es: Seq<OptEntry>) -> Seq<(Seq<char>, JVal)>
    decreases es,
{
    if es.len() == 0 {
        Seq::empty()
    } else {
        present(es.drop_last()) + (match es.last().1 {
            Some(v) => seq![(es.last().0, v)],
            None => Seq::empty(),
        })
    }
}

pub proof fn lemma_present_push(es: Seq<OptEntry>, e: OptEntry)
    ensures
        present(es.push(e)) == present(es) + (match e.1 {
            Some(v) => seq![(e.0, v)],
            None => Seq::<(Seq<char>, JVal)>::empty(),
        }),
{
    assert(es.push(e).drop_last() =~= es);
    assert(es.push(e).last() == e);
}

proof fn lemma_obj_single_other(k0: Seq<char>, v: JVal, k: Seq<char>)
    requires
        k0 != k,
    ensures
        !obj_has_key(seq![(k0, v)], k),
        obj_get(seq![(k0, v)], k) is None,
{
    reveal_with_fuel(obj_has_key, 2);
    reveal_with_fuel(obj_get, 2);
    assert(seq![(k0, v)][0] == (k0, v));
    assert(seq![(k0, v)].drop_first() =~= Seq::<(Seq<char>, JVal)>::empty());
}

proof fn lemma_obj_single_same(k: Seq<char>, v: JVal)
    ensures
        obj_has_key(seq![(k, v)], k),
        obj_get(seq![(k, v)], k) == Some(v),
{
    reveal_with_fuel(obj_has_key, 2);
    reveal_with_fuel(obj_get, 2);
    assert(seq![(k, v)][0] == (k, v));
}

/// No entry carries the key: the rendered object has no such field.
pub proof fn lemma_present_no_key(es: Seq<OptEntry>, k: Seq<char>)
    requires
        forall|j: int| 0 <= j < es.len() ==> es[j].0 != k,
    ensures
        !obj_has_key(present(es), k),
    decreases es,
{
    if es.len() > 0 {
        lemma_present_no_key(es.drop_last(), k);
        assert(es[es.len() - 1].0 != k);
        match es.last().1 {
            Some(v) => {
                lemma_obj_single_other(es.last().0, v, k);
                lemma_obj_get_concat(present(es.drop_last()), seq![(es.last().0, v)], k);
            },
            None => {
                assert(present(es) =~= present(es.drop_last()));
            },
        }
    }
}

/// With pairwise distinct keys, the field under entry `i`'s key is present in
/// the rendered object exactly when the entry is set, and then carries the
/// entry's value.
pub proof fn lemma_present_get(es: Seq<OptEntry>, i: int)
    requires
        0 <= i < es.len(),
        forall|j: int| 0 <= j < es.len() && j != i ==> es[j].0 != es[i].0,
    ensures
        obj_get(present(es), es[i].0) == es[i].1,
        obj_has_key(present(es), es[i].0) == (es[i].1 is Some),
    decreases es,
{
    let k = es[i].0;
    if i == es.len() - 1 {
        lemma_present_no_key(es.drop_last(), k);
        lemma_obj_get_some(present(es.drop_last()), k);
        match es.last().1 {
            Some(v) => {
                lemma_obj_single_same(k, v);
                lemma_obj_get_concat(present(es.drop_last()), seq![(k, v)], k);
            },
            None => {
                assert(present(es) =~= present(es.drop_last()));
            },
        }
    } else {
        lemma_present_get(es.drop_last(), i);
        lemma_obj_get_some(present(es.drop_last()), k);
        assert(es[es.len() - 1].0 != k);
        match es.last().1 {
            Some(v) => {
                lemma_obj_single_other(es.last().0, v, k);
                lemma_obj_get_concat(present(es.drop_last()), seq![(es.last().0, v)], k);
            },
            None => {
                assert(present(es) =~= present(es.drop_last()));
            },
        }
    }
}

/// No entry with index in `lo .. hi` carries the key `k`.  Written as a
/// recursion over the index range so that a verifier can evaluate it entry
/// by entry on a concrete field list.
pub open spec fn key_absent_range(es: Seq<OptEntry>, k: Seq<char>, lo: int, hi: int) -> bool
    decreases hi - lo,
{
    if lo >= hi {
        true
    } else {
        es[lo].0 != k && key_absent_range(es, k, lo + 1, hi)
    }
}

proof fn lemma_key_absent_range_index(es: Seq<OptEntry>, k: Seq<char>, lo: int, hi: int, j: int)
    requires
        key_absent_range(es, k, lo, hi),
        lo <= j < hi,
    ensures
        es[j].0 != k,
    decreases j - lo,
{
    if j > lo {
        lemma_key_absent_range_index(es, k, lo + 1, hi, j);
    }
}

/// As [`lemma_present_get`], with the key's uniqueness given entry by entry
/// over the two index ranges around `i`.
pub proof fn lemma_present_get_grounded(es: Seq<OptEntry>, i: int)
    requires
        0 <= i < es.len(),
        key_absent_range(es, es[i].0, 0, i),
        key_absent_range(es, es[i].0, i + 1, es.len() as int),
    ensures
        obj_get(present(es), es[i].0) == es[i].1,
        obj_has_key(present(es), es[i].0) == (es[i].1 is Some),
{
    assert forall|j: int| 0 <= j < es.len() && j != i implies es[j].0 != es[i].0 by {
        if j < i {
            lemma_key_absent_range_index(es, es[i].0, 0, i, j);
        } else {
            lemma_key_absent_range_index(es, es[i].0, i + 1, es.len() as int, j);
        }
    }
    lemma_present_get(es, i);
}

/// Model of an optional document tree.
pub open spec fn jopt_of(o: Option<JsonValue>) -> Option<JVal> {
    match o {
        Some(v) => Some(jval_of(v)),
        None => None,
    }
}

/// Model of a built list of optional fields.
pub open spec fn opt_entries_of(es: Seq<(String, Option<JsonValue>)>) -> Seq<OptEntry>
    decreases es,
{
    if es.len() == 0 {
        Seq::empty()
    } else {
        opt_entries_of(es.drop_last()).push((es.last().0@, jopt_of(es.last().1)))
    }
}

pub proof fn lemma_opt_entries_of_push(es: Seq<(String, Option<JsonValue>)>, e: (String, Option<JsonValue>))
    ensures
        opt_entries_of(es.push(e)) == opt_entries_of(es).push((e.0@, jopt_of(e.1))),
{
    assert(es.push(e).drop_last() =~= es);
    assert(es.push(e).last() == e);
}

/// Builds the object holding, in order, exactly those fields whose value is
/// set; unset fields are omitted entirely, never written as a placeholder.
pub fn build_obj(entries: Vec<(String, Option<JsonValue>)>) -> (v: JsonValue)
    ensures
        v@ == JVal::Obj(present(opt_entries_of(entries@))),
{
    let ghost all = entries@;
    let mut entries = entries;
    let mut fields: Vec<(String, JsonValue)> = Vec::new();
    while entries.len() > 0
        invariant
            all =~= all.take(all.len() - entries@.len()) + entries@,
            jfields_of(fields@) == present(opt_entries_of(all.take(all.len() - entries@.len()))),
        decreases entries@.len(),
    {
        let ghost idx = all.len() - entries@.len();
        let e = entries.remove(0);
        proof {
            assert(all.take(idx + 1) =~= all.take(idx).push(e));
            lemma_opt_entries_of_push(all.take(idx), e);
            lemma_present_push(opt_entries_of(all.take(idx)), (e.0@, jopt_of(e.1)));
        }
        match e.1 {
            Some(v) => {
                let key = e.0;
                let ghost prev = fields@;
                let ghost kv = (key@, jval_of(v));
                fields.push((key, v));
                proof {
                    lemma_jfields_of_push(prev, (key, v));
                }
                assert(jfields_of(fields@) =~= present(opt_entries_of(all.take(idx + 1))));
            },
            None => {
                assert(jfields_of(fields@) =~= present(opt_entries_of(all.take(idx + 1))));
            },
        }
        proof {
            assert(all =~= all.take(all.len() - entries@.len()) + entries@);
        }
    }
    proof {
        assert(all.take(all.len() as int) =~= all);
    }
    JsonValue::Obj(fields)
}

/// Accumulates the optional fields of one object in order, then builds the
/// object that holds exactly the set ones.
pub struct ObjBuilder {
    entries: Vec<(String, Option<JsonValue>)>,
}

impl ObjBuilder {
    /// The optional field entries accumulated so far, in order.
    pub closed spec fn model(&self) -> Seq<OptEntry> {
        opt_entries_of(self.entries@)
    }

    pub fn new() -> (b: Self)
        ensures
            b.model() == Seq::<OptEntry>::empty(),
    {
        ObjBuilder { entries: Vec::new() }
    }

    /// Appends one optional field.
    pub fn field(&mut self, key: &str, val: Option<JsonValue>)
        ensures
            final(self).model() == old(self).model().push((key@, jopt_of(val))),
    {
        let ghost prev = self.entries@;
        let k = key.to_owned();
        self.entries.push((k, val));
        proof {
            lemma_opt_entries_of_push(prev, (k, val));
        }
    }

    /// The object with exactly the set fields, in order.
    pub fn finish(self) -> (v: JsonValue)
        ensures
            v@ == JVal::Obj(present(self.model())),
    {
        build_obj(self.entries)
    }
}

/// A value with a fixed JSON encoding.
///
/// `enc` is the mathematical encoding; `encode` produces the document tree
/// whose model it is.  Every attribute value a chart can hold implements
/// this, which is what lets one serializer serve every chart kind.
pub trait Enc: Sized {
    /// The mathematical JSON encoding of the value.
    spec fn enc(&self) -> JVal;

    /// The document tree for this value.
    fn encode(&self) -> (v: JsonValue)
        ensures
            v@ == self.enc(),
    ;

    /// A copy that encodes identically.
    fn dup(&self) -> (r: Self)
        ensures
            r.enc() == self.enc(),
    ;
}

/// The encodings of a sequence of values, in order.
pub open spec fn enc_seq<T: Enc>(s: Seq<T>) -> Seq<JVal> {
    Seq::new(s.len(), |i: int| s[i].enc())
}

/// The encoding of an optional value, when set.
pub open spec fn enc_opt<T: Enc>(o: Option<T>) -> Option<JVal> {
    match o {
        Some(t) => Some(t.enc()),
        None => None,
    }
}

/// Encodes an optional value, when set.
pub fn opt_encode<T: Enc>(o: &Option<T>) -> (r: Option<JsonValue>)
    ensures
        jopt_of(r) == enc_opt(*o),
{
    match o {
        Some(t) => Some(t.encode()),
        None => None,
    }
}

/// Copies an optional value, preserving its encoding.
pub fn opt_dup<T: Enc>(o: &Option<T>) -> (r: Option<T>)
    ensures
        enc_opt(r) == enc_opt(*o),
{
    match o {
        Some(t) => Some(t.dup()),
        None => None,
    }
}

impl Enc for String {
    open spec fn enc(&self) -> JVal {
        JVal::Text(self@)
    }

    fn encode(&self) -> (v: JsonValue)
        ensures
            v@ == self.enc(),
    {
        JsonValue::Text(self.clone())
    }

    fn dup(&self) -> (r: Self)
        ensures
            r.enc() == self.enc(),
    {
        self.clone()
    }
}

impl Enc for bool {
    open spec fn enc(&self) -> JVal {
        JVal::Bool(*self)
    }

    fn encode(&self) -> (v: JsonValue)
        ensures
            v@ == self.enc(),
    {
        JsonValue::Bool(*self)
    }

    fn dup(&self) -> (r: Self)
        ensures
            r.enc() == self.enc(),
    {
        *self
    }
}

impl Enc for u64 {
    open spec fn enc(&self) -> JVal {
        JVal::Num(false, *self as nat, 0nat)
    }

    fn encode(&self) -> (v: JsonValue)
        ensures
            v@ == self.enc(),
    {
        JsonValue::Num(Real::from_uint(*self))
    }

    fn dup(&self) -> (r: Self)
        ensures
            r.enc() == self.enc(),
    {
        *self
    }
}

impl Enc for usize {
    open spec fn enc(&self) -> JVal {
        JVal::Num(false, *self as nat, 0nat)
    }

    fn encode(&self) -> (v: JsonValue)
        ensures
            v@ == self.enc(),
    {
        JsonValue::Num(Real::from_uint(*self as u64))
    }

    fn dup(&self) -> (r: Self)
        ensures
            r.enc() == self.enc(),
    {
        *self
    }
}

impl Enc for i64 {
    open spec fn enc(&self) -> JVal {
        JVal::Num(*self < 0, abs_of(*self as int), 0nat)
    }

    fn encode(&self) -> (v: JsonValue)
        ensures
            v@ == self.enc(),
    {
        JsonValue::Num(Real::from_int(*self))
    }

    fn dup(&self) -> (r: Self)
        ensures
            r.enc() == self.enc(),
    {
        *self
    }
}

impl Enc for Real {
    open spec fn enc(&self) -> JVal {
        self.model()
    }

    fn encode(&self) -> (v: JsonValue)
        ensures
            v@ == self.enc(),
    {
        JsonValue::Num(*self)
    }

    fn dup(&self) -> (r: Self)
        ensures
            r.enc() == self.enc(),
    {
        *self
    }
}

impl<T: Enc> Enc for Vec<T> {
    open spec fn enc(&self) -> JVal {
        JVal::Arr(enc_seq(self@))
    }

    fn encode(&self) -> (v: JsonValue)
        ensures
            v@ == self.enc(),
    {
        let mut out: Vec<JsonValue> = Vec::new();
        let mut i: usize = 0;
        while i < self.len()
            invariant
                i <= self.len(),
                jvals_of(out@) == enc_seq(self@.take(i as int)),
            decreases self.len() - i,
        {
            let item = self[i].encode();
            let ghost prev = out@;
            out.push(item);
            proof {
                lemma_jvals_of_push(prev, item);
                assert(enc_seq(self@.take(i + 1 as int)) =~= enc_seq(self@.take(i as int)).push(
                    self@[i as int].enc(),
                ));
            }
            i = i + 1;
        }
        proof {
            assert(self@.take(self@.len() as int) =~= self@);
        }
        JsonValue::Arr(out)
    }

    fn dup(&self) -> (r: Self)
        ensures
            r.enc() == self.enc(),
    {
        let mut out: Vec<T> = Vec::new();
        let mut i: usize = 0;
        while i < self.len()
            invariant
                i <= self.len(),
                out@.len() == i,
                forall|j: int| 0 <= j < i ==> #[trigger] out@[j].enc() == self@[j].enc(),
            decreases self.len() - i,
        {
            let item = self[i].dup();
            out.push(item);
            i = i + 1;
        }
        proof {
            assert(enc_seq(out@) =~= enc_seq(self@));
        }
        out
    }
}

} // verus!
