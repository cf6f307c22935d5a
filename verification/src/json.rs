//! The library's own model of a JSON document, the bridge from JSON text into
//! that model, and helpers for writing JSON text back out.
//!
//! Manifests and search results arrive as raw JSON. The text is turned into a
//! [`JsonValue`] once, at the edge; everything that interprets the document
//! works on that plain value and is verified against [`JsonV`], its
//! mathematical shape. Numbers are beyond what this library ever reads from a
//! document, so they are kept only as a marker variant.

use vstd::prelude::*;
use vstd::string::StrSliceExecFns;

verus! {

/// Mathematical shape of a JSON document: the view of [`JsonValue`].
#[verifier::ext_equal]
pub enum JsonV {
    Null,
    Bool(bool),
    Num,
    Str(Seq<char>),
    Arr(Seq<JsonV>),
    Obj(Seq<(Seq<char>, JsonV)>),
}

/// A parsed JSON document as a plain value.
pub enum JsonValue {
    Null,
    Bool(bool),
    Num,
    Str(String),
    Arr(Vec<JsonValue>),
    Obj(Vec<(String, JsonValue)>),
}

/// The shape of a parsed value: [`JsonValue`]'s view, written out
/// recursively.
pub open spec fn json_view(v: JsonValue) -> JsonV
    decreases v,
{
    match v {
        JsonValue::Null => JsonV::Null,
        JsonValue::Bool(b) => JsonV::Bool(b),
        JsonValue::Num => JsonV::Num,
        JsonValue::Str(s) => JsonV::Str(s@),
        JsonValue::Arr(a) => JsonV::Arr(json_views(a@)),
        JsonValue::Obj(o) => JsonV::Obj(json_view_fields(o@)),
    }
}

/// The shapes of a sequence of parsed values, element by element.
pub open spec fn json_views(vs: Seq<JsonValue>) -> Seq<JsonV>
    decreases vs,
{
    if vs.len() == 0 {
        Seq::empty()
    } else {
        seq![json_view(vs.first())] + json_views(vs.drop_first())
    }
}

/// The shapes of an object's field list, key by key.
pub open spec fn json_view_fields(ps: Seq<(String, JsonValue)>) -> Seq<(Seq<char>, JsonV)>
    decreases ps,
{
    if ps.len() == 0 {
        Seq::empty()
    } else {
        seq![(ps.first().0@, json_view(ps.first().1))] + json_view_fields(ps.drop_first())
    }
}

impl View for JsonValue {
    type V = JsonV;

    open spec fn view(&self) -> JsonV {
        json_view(*self)
    }
}

/// A sequence of values and its sequence of shapes line up element by
/// element.
pub proof fn lemma_json_views(vs: Seq<JsonValue>)
    ensures
        json_views(vs).len() == vs.len(),
        forall|i: int| 0 <= i < vs.len() ==> json_views(vs)[i] == json_view(vs[i]),
    decreases vs.len(),
{
    if vs.len() > 0 {
        lemma_json_views(vs.drop_first());
    }
}

/// A field list and its list of shapes line up field by field.
pub proof fn lemma_json_view_fields(ps: Seq<(String, JsonValue)>)
    ensures
        json_view_fields(ps).len() == ps.len(),
        forall|i: int|
            0 <= i < ps.len() ==> json_view_fields(ps)[i] == (ps[i].0@, json_view(ps[i].1)),
    decreases ps.len(),
{
    if ps.len() > 0 {
        lemma_json_view_fields(ps.drop_first());
    }
}

/// The first value under `key` in an object's field list, if any.
pub open spec fn obj_get(fields: Seq<(Seq<char>, JsonV)>, key: Seq<char>) -> Option<JsonV>
    decreases fields.len(),
{
    if fields.len() == 0 {
        None
    } else if fields[0].0 == key {
        Some(fields[0].1)
    } else {
        obj_get(fields.drop_first(), key)
    }
}

impl JsonV {
    /// Field lookup: the first value under `key` when `self` is an object,
    /// nothing otherwise.
    pub open spec fn get(self, key: Seq<char>) -> Option<JsonV> {
        match self {
            JsonV::Obj(fields) => obj_get(fields, key),
            _ => None,
        }
    }
}

/// Whether two string slices hold the same characters. The comparison goes
/// through owned strings, whose `==` vstd gives a specification.
pub fn str_eq(a: &str, b: &str) -> (r: bool)
    ensures
        r == (a@ == b@),
{
    let sa: String = a.to_owned();
    let sb: String = b.to_owned();
    sa == sb
}

impl JsonValue {
    /// Field lookup on a parsed object, mirroring [`JsonV::get`].
    pub fn get<'a>(&'a self, key: &str) -> (r: Option<&'a JsonValue>)
        ensures
            match r {
                Some(v) => self@.get(key@) == Some(v@),
                None => self@.get(key@) is None,
            },
    {
        match self {
            JsonValue::Obj(fields) => {
                let ghost fv = json_view_fields(fields@);
                proof {
                    lemma_json_view_fields(fields@);
                    assert(fv.skip(0) =~= fv);
                }
                let n = fields.len();
                let mut i: usize = 0;
                while i < n
                    invariant
                        n == fields.len(),
                        i <= n,
                        fv == json_view_fields(fields@),
                        fv.len() == n,
                        forall|j: int|
                            0 <= j < n ==> fv[j] == (fields@[j].0@, json_view(fields@[j].1)),
                        self@ == JsonV::Obj(fv),
                        obj_get(fv, key@) == obj_get(fv.skip(i as int), key@),
                    decreases n - i,
                {
                    proof {
                        assert(fv.skip(i as int).drop_first() =~= fv.skip(i + 1));
                    }
                    if str_eq(fields[i].0.as_str(), key) {
                        return Some(&fields[i].1);
                    }
                    i += 1;
                }
                None
            },
            _ => None,
        }
    }

    /// The characters of a parsed string value, if `self` is one.
    pub fn as_str_value<'a>(&'a self) -> (r: Option<&'a String>)
        ensures
            match r {
                Some(s) => self@ == JsonV::Str(s@),
                None => !(self@ is Str),
            },
    {
        match self {
            JsonValue::Str(s) => Some(s),
            _ => None,
        }
    }
}

// ---------------------------------------------------------------------------
// The bridge from JSON text: serde_json does the lexing and grammar work.
// ---------------------------------------------------------------------------

/// Declares serde_json's value type so that the conversion below may take
/// it; nothing inside it is visible to the verifier.
#[verifier::external_type_specification]
#[verifier::external_body]
pub struct ExSerdeValue(serde_json::Value);

/// What parsing a string as JSON yields: the document's shape when the text
/// is well-formed JSON, nothing otherwise. The result depends on the
/// characters alone.
pub uninterp spec fn json_of(s: Seq<char>) -> Option<JsonV>;

/// Rebuilds serde_json's tree as the library's own [`JsonValue`], variant by
/// variant; numbers collapse to the marker variant.
#[verifier::external_body]
fn from_serde_value(v: serde_json::Value) -> JsonValue {
    match v {
        serde_json::Value::Null => JsonValue::Null,
        serde_json::Value::Bool(b) => JsonValue::Bool(b),
        serde_json::Value::Number(_) => JsonValue::Num,
        serde_json::Value::String(s) => JsonValue::Str(s),
        serde_json::Value::Array(a) => JsonValue::Arr(
            a.into_iter().map(from_serde_value).collect(),
        ),
        serde_json::Value::Object(o) => JsonValue::Obj(
            o.into_iter().map(|(k, x)| (k, from_serde_value(x))).collect(),
        ),
    }
}

/// Relies on `serde_json::from_str::<serde_json::Value>`: deterministic JSON
/// parsing by the JSON grammar, `Err` exactly on malformed text.
#[verifier::external_body]
pub(crate) fn parse_json(s: &str) -> (r: Option<JsonValue>)
    ensures
        r is Some <==> json_of(s@) is Some,
        r is Some ==> r.unwrap()@ == json_of(s@).unwrap(),
{
    match serde_json::from_str::<serde_json::Value>(s) {
        Ok(v) => Some(from_serde_value(v)),
        Err(_) => None,
    }
}

// ---------------------------------------------------------------------------
// Writing JSON text: string escaping and decimal digits.
// ---------------------------------------------------------------------------

/// A hexadecimal digit as a lowercase character.
pub open spec fn hex_digit(d: nat) -> char
    recommends
        d < 16,
{
    if d < 10 {
        ((48 + d) as u8) as char
    } else {
        ((87 + d) as u8) as char
    }
}

/// How one character appears inside a JSON string literal: quote and
/// backslash escaped, the named control characters short-escaped, any other
/// control character written as `\u00..`, everything else as itself.
pub open spec fn escape_char(c: char) -> Seq<char> {
    if c == '"' {
        seq!['\\', '"']
    } else if c == '\\' {
        seq!['\\', '\\']
    } else if c == '\u{8}' {
        seq!['\\', 'b']
    } else if c == '\t' {
        seq!['\\', 't']
    } else if c == '\n' {
        seq!['\\', 'n']
    } else if c == '\u{c}' {
        seq!['\\', 'f']
    } else if c == '\r' {
        seq!['\\', 'r']
    } else if (c as u32) < 32 {
        seq!['\\', 'u', '0', '0', hex_digit((c as u32 / 16) as nat), hex_digit((c as u32 % 16) as nat)]
    } else {
        seq![c]
    }
}

/// A whole string as it appears inside a JSON string literal.
pub open spec fn escape_string(s: Seq<char>) -> Seq<char>
    decreases s.len(),
{
    if s.len() == 0 {
        Seq::empty()
    } else {
        escape_string(s.drop_last()) + escape_char(s.last())
    }
}

/// The decimal digits of `n`, most significant first.
pub open spec fn dec_str(n: nat) -> Seq<char>
    decreases n,
{
    if n < 10 {
        seq![hex_digit(n)]
    } else {
        dec_str(n / 10).push(hex_digit(n % 10))
    }
}

fn hex_digit_char(d: u8) -> (c: char)
    requires
        d < 16,
    ensures
        c == hex_digit(d as nat),
{
    if d < 10 {
        (48 + d) as char
    } else {
        (87 + d) as char
    }
}

fn push_escaped_char(c: char, out: &mut Vec<char>)
    ensures
        final(out)@ == old(out)@ + escape_char(c),
{
    if c == '"' {
        out.push('\\');
        out.push('"');
    } else if c == '\\' {
        out.push('\\');
        out.push('\\');
    } else if c == '\u{8}' {
        out.push('\\');
        out.push('b');
    } else if c == '\t' {
        out.push('\\');
        out.push('t');
    } else if c == '\n' {
        out.push('\\');
        out.push('n');
    } else if c == '\u{c}' {
        out.push('\\');
        out.push('f');
    } else if c == '\r' {
        out.push('\\');
        out.push('r');
    } else if (c as u32) < 32 {
        let code = c as u32;
        out.push('\\');
        out.push('u');
        out.push('0');
        out.push('0');
        out.push(hex_digit_char((code / 16) as u8));
        out.push(hex_digit_char((code % 16) as u8));
    } else {
        out.push(c);
    }
    proof {
        assert(out@ =~= old(out)@ + escape_char(c));
    }
}

/// Appends `s` to `out` in its escaped JSON form.
fn push_escaped(s: &str, out: &mut Vec<char>)
    ensures
        final(out)@ == old(out)@ + escape_string(s@),
{
    let n = s.unicode_len();
    let mut i: usize = 0;
    while i < n
        invariant
            n == s@.len(),
            i <= n,
            out@ == old(out)@ + escape_string(s@.take(i as int)),
        decreases n - i,
    {
        let c = s.get_char(i);
        push_escaped_char(c, out);
        proof {
            assert(s@.take(i + 1).drop_last() =~= s@.take(i as int));
            assert(s@.take(i + 1).last() == s@[i as int]);
            assert(out@ =~= old(out)@ + escape_string(s@.take(i + 1)));
        }
        i += 1;
    }
    proof {
        assert(s@.take(n as int) =~= s@);
    }
}

/// Appends the decimal digits of `n` to `out`.
fn push_dec_u32(n: u32, out: &mut Vec<char>)
    ensures
        final(out)@ == old(out)@ + dec_str(n as nat),
    decreases n,
{
    if n < 10 {
        out.push(hex_digit_char(n as u8));
        proof {
            assert(out@ =~= old(out)@ + dec_str(n as nat));
        }
    } else {
        push_dec_u32(n / 10, out);
        out.push(hex_digit_char((n % 10) as u8));
        proof {
            assert(out@ =~= old(out)@ + dec_str(n as nat));
        }
    }
}

/// Relies on `String`'s `FromIterator` impl: collecting characters yields the
/// string of exactly those characters, in order.
#[verifier::external_body]
fn chars_to_string(chars: &Vec<char>) -> (r: String)
    ensures
        r@ == chars@,
{
    chars.iter().collect()
}

/// `s` in its escaped JSON form, as an owned string.
pub fn escaped(s: &str) -> (r: String)
    ensures
        r@ == escape_string(s@),
{
    let mut out: Vec<char> = Vec::new();
    push_escaped(s, &mut out);
    chars_to_string(&out)
}

/// The decimal digits of `n`, as an owned string.
pub fn dec_u32(n: u32) -> (r: String)
    ensures
        r@ == dec_str(n as nat),
{
    let mut out: Vec<char> = Vec::new();
    push_dec_u32(n, &mut out);
    chars_to_string(&out)
}

} // verus!
