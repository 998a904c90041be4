//! The payload codec: one field list rendered both as a canonical JSON object
//! (then base64) and as a URL query string, field for field in the same order.

use vstd::prelude::*;
use vstd::string::StringExecFns;
use vstd::utf8::encode_utf8;
use crate::amount::{Amount, decimal_text_of};
use crate::text::{dec_text, decimal_string, hex_char, push_char, push_decimal};

verus! {

/// How `serde_json` writes one character inside a string literal: `"` and
/// `\\` behind a backslash, the five short escapes, any other control
/// character below U+0020 as `\u00` and two lowercase hex digits, and every
/// other character as itself.
pub open spec fn json_escape(c: char) -> Seq<char> {
    if c == '"' {
        seq!['\\', '"']
    } else if c == '\\' {
        seq!['\\', '\\']
    } else if c == '\u{8}' {
        seq!['\\', 'b']
    } else if c == '\t' {
        seq!['\\', 't']
    } else if c == '\n' {
        seq!['\\', 'n']
    } else if c == '\u{c}' {
        seq!['\\', 'f']
    } else if c == '\r' {
        seq!['\\', 'r']
    } else if (c as u32) < 0x20 {
        seq!['\\', 'u', '0', '0', hex_char((c as u32 / 16) as nat), hex_char((c as u32 % 16) as nat)]
    } else {
        seq![c]
    }
}

/// The escaped characters of a text, in order.
pub open spec fn json_escaped(s: Seq<char>) -> Seq<char>
    decreases s.len(),
{
    if s.len() == 0 {
        Seq::empty()
    } else {
        json_escaped(s.drop_last()) + json_escape(s.last())
    }
}

/// The JSON string literal of a text: its escaped characters in quotes.
pub open spec fn json_string_text(s: Seq<char>) -> Seq<char> {
    seq!['"'] + json_escaped(s) + seq!['"']
}

/// The character of a six-bit value in the standard base64 alphabet.
pub open spec fn base64_char(v: nat) -> char {
    seq![
        'A', 'B', 'C', 'D', 'E', 'F', 'G', 'H', 'I', 'J', 'K', 'L', 'M', 'N', 'O', 'P', 'Q', 'R',
        'S', 'T', 'U', 'V', 'W', 'X', 'Y', 'Z', 'a', 'b', 'c', 'd', 'e', 'f', 'g', 'h', 'i', 'j',
        'k', 'l', 'm', 'n', 'o', 'p', 'q', 'r', 's', 't', 'u', 'v', 'w', 'x', 'y', 'z', '0', '1',
        '2', '3', '4', '5', '6', '7', '8', '9', '+', '/',
    ][v as int]
}

/// The standard base64 text, with padding, of the bytes `b`: each group of
/// three bytes becomes four characters, high bits first; a last group of
/// one or two bytes is padded with `=` to four characters.
pub open spec fn base64_text(b: Seq<u8>) -> Seq<char>
    decreases b.len(),
{
    if b.len() == 0 {
        Seq::empty()
    } else if b.len() == 1 {
        seq![base64_char(b[0] as nat / 4), base64_char((b[0] as nat % 4) * 16), '=', '=']
    } else if b.len() == 2 {
        seq![
            base64_char(b[0] as nat / 4),
            base64_char((b[0] as nat % 4) * 16 + b[1] as nat / 16),
            base64_char((b[1] as nat % 16) * 4),
            '=',
        ]
    } else {
        seq![
            base64_char(b[0] as nat / 4),
            base64_char((b[0] as nat % 4) * 16 + b[1] as nat / 16),
            base64_char((b[1] as nat % 16) * 4 + b[2] as nat / 64),
            base64_char(b[2] as nat % 64),
        ] + base64_text(b.skip(3))
    }
}

/// Relies on `serde_json::to_string` applied to a `str`: the text in quotes,
/// escaped by serde_json's table; writing into its `Vec` buffer cannot fail.
#[verifier::external_body]
fn json_quote(s: &str) -> (r: String)
    ensures
        r@ == json_string_text(s@),
{
    match serde_json::to_string(s) {
        Ok(t) => t,
        Err(_) => String::new(),
    }
}

/// Relies on `base64::encode`: the standard alphabet, with padding
/// (`STANDARD` in base64 0.13).
#[verifier::external_body]
fn base64_encode(b: &[u8]) -> (r: String)
    ensures
        r@ == base64_text(b@),
{
    base64::encode(b)
}

/// The value of one payload field.
#[derive(Debug, Clone)]
pub enum FieldValue {
    Text(String),
    Count(u64),
    Flag(bool),
    Decimal(Amount),
}

/// What a field value stands for.
pub enum ValueView {
    Text(Seq<char>),
    Count(nat),
    Flag(bool),
    Decimal(int, nat),
}

impl View for FieldValue {
    type V = ValueView;

    open spec fn view(&self) -> ValueView {
        match self {
            FieldValue::Text(s) => ValueView::Text(s@),
            FieldValue::Count(n) => ValueView::Count(*n as nat),
            FieldValue::Flag(b) => ValueView::Flag(*b),
            FieldValue::Decimal(a) => ValueView::Decimal(a@.0, a@.1),
        }
    }
}

/// One named payload field.
#[derive(Debug, Clone)]
pub struct Field {
    pub key: String,
    pub value: FieldValue,
}

/// A field as a key and the value it stands for.
pub type FieldView = (Seq<char>, ValueView);

impl View for Field {
    type V = FieldView;

    open spec fn view(&self) -> FieldView {
        (self.key@, self.value@)
    }
}

/// The views of a sequence of fields.
pub open spec fn field_views(fs: Seq<Field>) -> Seq<FieldView> {
    fs.map_values(|f: Field| f@)
}

pub open spec fn flag_text(b: bool) -> Seq<char> {
    if b {
        seq!['t', 'r', 'u', 'e']
    } else {
        seq!['f', 'a', 'l', 's', 'e']
    }
}

/// A field value in JSON: text and decimals as JSON strings, counts and
/// flags bare.
pub open spec fn json_value_text(v: ValueView) -> Seq<char> {
    match v {
        ValueView::Text(s) => json_string_text(s),
        ValueView::Count(n) => dec_text(n),
        ValueView::Flag(b) => flag_text(b),
        ValueView::Decimal(m, sc) => json_string_text(decimal_text_of(m, sc)),
    }
}

/// A field value in the query string: its plain text.
pub open spec fn query_value_text(v: ValueView) -> Seq<char> {
    match v {
        ValueView::Text(s) => s,
        ValueView::Count(n) => dec_text(n),
        ValueView::Flag(b) => flag_text(b),
        ValueView::Decimal(m, sc) => decimal_text_of(m, sc),
    }
}

/// `"key":value` for one field.
pub open spec fn json_member(f: FieldView) -> Seq<char> {
    json_string_text(f.0) + seq![':'] + json_value_text(f.1)
}

/// `key=value` for one field.
pub open spec fn query_pair(f: FieldView) -> Seq<char> {
    f.0 + seq!['='] + query_value_text(f.1)
}

/// The JSON members of the fields, in field order.
pub open spec fn json_members(fs: Seq<FieldView>) -> Seq<Seq<char>> {
    fs.map_values(|f: FieldView| json_member(f))
}

/// The query pairs of the fields, in field order.
pub open spec fn query_pairs(fs: Seq<FieldView>) -> Seq<Seq<char>> {
    fs.map_values(|f: FieldView| query_pair(f))
}

/// The parts joined with `sep` between neighbours.
pub open spec fn joined(parts: Seq<Seq<char>>, sep: char) -> Seq<char>
    decreases parts.len(),
{
    if parts.len() == 0 {
        Seq::empty()
    } else if parts.len() == 1 {
        parts[0]
    } else {
        joined(parts.drop_last(), sep) + seq![sep] + parts.last()
    }
}

/// The canonical JSON object of the fields.
pub open spec fn json_object(fs: Seq<FieldView>) -> Seq<char> {
    seq!['{'] + joined(json_members(fs), ',') + seq!['}']
}

/// The `&`-joined query string of the fields.
pub open spec fn query_string(fs: Seq<FieldView>) -> Seq<char> {
    joined(query_pairs(fs), '&')
}

/// A payload in its three transmitted forms.
#[derive(Debug, Clone)]
pub struct Encoded {
    /// The canonical JSON object.
    pub json: String,
    /// The base64 of the JSON object's UTF-8 bytes.
    pub payload: String,
    /// The query string.
    pub query: String,
}

/// The JSON text of a field value.
pub fn json_value(v: &FieldValue) -> (r: String)
    ensures
        r@ == json_value_text(v@),
{
    match v {
        FieldValue::Text(s) => json_quote(s.as_str()),
        FieldValue::Count(n) => decimal_string(*n as u128),
        FieldValue::Flag(b) => flag_string(*b),
        FieldValue::Decimal(a) => {
            let t = a.text();
            json_quote(t.as_str())
        },
    }
}

/// `true` or `false`.
pub fn flag_string(b: bool) -> (r: String)
    ensures
        r@ == flag_text(b),
{
    let mut out = String::new();
    if b {
        push_char(&mut out, 't');
        push_char(&mut out, 'r');
        push_char(&mut out, 'u');
        push_char(&mut out, 'e');
    } else {
        push_char(&mut out, 'f');
        push_char(&mut out, 'a');
        push_char(&mut out, 'l');
        push_char(&mut out, 's');
        push_char(&mut out, 'e');
    }
    assert(out@ =~= flag_text(b));
    out
}

/// Appends the query text of a field value.
pub(crate) fn push_query_value(out: &mut String, v: &FieldValue)
    ensures
        final(out)@ == old(out)@ + query_value_text(v@),
{
    match v {
        FieldValue::Text(s) => out.append(s.as_str()),
        FieldValue::Count(n) => push_decimal(out, *n as u128),
        FieldValue::Flag(b) => {
            let t = flag_string(*b);
            out.append(t.as_str());
        },
        FieldValue::Decimal(a) => {
            let t = a.text();
            out.append(t.as_str());
        },
    }
}

/// Renders the fields as a JSON object, its base64 form and a query string.
pub fn encode(fields: &Vec<Field>) -> (r: Encoded)
    ensures
        r.json@ == json_object(field_views(fields@)),
        r.payload@ == base64_text(encode_utf8(r.json@)),
        r.query@ == query_string(field_views(fields@)),
{
    let ghost all = field_views(fields@);
    let mut json = String::new();
    push_char(&mut json, '{');
    let mut query = String::new();
    let mut i: usize = 0;
    assert(json_members(all.take(0)) =~= Seq::<Seq<char>>::empty());
    assert(query_pairs(all.take(0)) =~= Seq::<Seq<char>>::empty());
    while i < fields.len()
        invariant
            i <= fields.len(),
            all == field_views(fields@),
            json@ == seq!['{'] + joined(json_members(all.take(i as int)), ','),
            query@ == joined(query_pairs(all.take(i as int)), '&'),
        decreases fields.len() - i,
    {
        let f = &fields[i];
        let k = json_quote(f.key.as_str());
        let v = json_value(&f.value);
        if i > 0 {
            push_char(&mut json, ',');
            push_char(&mut query, '&');
        }
        json.append(k.as_str());
        push_char(&mut json, ':');
        json.append(v.as_str());
        query.append(f.key.as_str());
        push_char(&mut query, '=');
        push_query_value(&mut query, &f.value);
        proof {
            let ms = json_members(all.take(i as int));
            let ms2 = json_members(all.take(i + 1));
            let qs = query_pairs(all.take(i as int));
            let qs2 = query_pairs(all.take(i + 1));
            assert(all.take(i + 1) =~= all.take(i as int).push(f@));
            assert(ms2 =~= ms.push(json_member(f@)));
            assert(qs2 =~= qs.push(query_pair(f@)));
            assert(ms2.drop_last() =~= ms);
            assert(qs2.drop_last() =~= qs);
            assert(json@ =~= seq!['{'] + joined(ms2, ','));
            assert(query@ =~= joined(qs2, '&'));
        }
        i = i + 1;
    }
    push_char(&mut json, '}');
    assert(all.take(fields.len() as int) =~= all);
    let payload = base64_encode(json.as_str().as_bytes());
    Encoded { json, payload, query }
}

/// Field parity: for every field list, its JSON object and its query string
/// hold one entry per field, in the same order, under the same key. Entry `i`
/// of the object is field `i`'s quoted key and JSON value; entry `i` of the
/// query string is the same key and its plain value.
pub proof fn lemma_field_parity(fs: Seq<FieldView>)
    ensures
        json_object(fs) == seq!['{'] + joined(json_members(fs), ',') + seq!['}'],
        query_string(fs) == joined(query_pairs(fs), '&'),
        json_members(fs).len() == fs.len(),
        query_pairs(fs).len() == fs.len(),
        forall|i: int|
            0 <= i < fs.len() ==> #[trigger] json_members(fs)[i] == json_string_text(fs[i].0)
                + seq![':'] + json_value_text(fs[i].1),
        forall|i: int|
            0 <= i < fs.len() ==> #[trigger] query_pairs(fs)[i] == fs[i].0 + seq!['=']
                + query_value_text(fs[i].1),
{
}

} // verus!
