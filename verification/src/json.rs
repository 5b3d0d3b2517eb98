//! JSON at the wire boundary: rendering the flat objects that private calls
//! send, and a tree of plain values for what responses hold.
//!
//! Rendering is verified here, character by character.  Parsing response
//! text is serde_json's work: a trusted wrapper parses the text and hands
//! back the tree below, with numbers carried as their decimal text; every
//! step after that parse is verified against the tree.

use vstd::prelude::*;
use vstd::string::StrSliceExecFns;
use vstd::string::StringExecFns;

use crate::text::{dec_of, dec_of_int, hex_digit, i64_to_dec, u64_to_dec};

verus! {

/// A JSON value as the library sees it.  Numbers keep their decimal text:
/// the wire's numeric fields are either re-parsed as integers by the codec
/// or handed on as text.
#[derive(Debug, PartialEq, Eq)]
pub enum JsonValue {
    Null,
    Bool(bool),
    Num(String),
    Str(String),
    Arr(Vec<JsonValue>),
    Obj(Vec<(String, JsonValue)>),
}

/// What parsing a body's text yields, as a function of the text alone;
/// `None` for text that is not well-formed JSON.
pub uninterp spec fn json_of(s: Seq<char>) -> Option<JsonValue>;

#[verifier::external_type_specification]
#[verifier::external_body]
pub struct ExSerdeValue(serde_json::Value);

/// Relies on serde_json::Value: one arm per variant, moving the fields into
/// the library's tree; a number becomes its decimal text.
#[verifier::external_body]
fn json_tree(v: serde_json::Value) -> JsonValue {
    match v {
        serde_json::Value::Null => JsonValue::Null,
        serde_json::Value::Bool(b) => JsonValue::Bool(b),
        serde_json::Value::Number(n) => JsonValue::Num(n.to_string()),
        serde_json::Value::String(s) => JsonValue::Str(s),
        serde_json::Value::Array(a) => JsonValue::Arr(a.into_iter().map(json_tree).collect()),
        serde_json::Value::Object(o) => JsonValue::Obj(
            o.into_iter().map(|(k, x)| (k, json_tree(x))).collect(),
        ),
    }
}

/// Relies on serde_json::from_str over serde_json::Value: parses JSON text,
/// a pure function of the text, `None` when the text is not well-formed
/// JSON.
#[verifier::external_body]
pub fn parse_json(s: &str) -> (r: Option<JsonValue>)
    ensures
        r == json_of(s@),
{
    serde_json::from_str::<serde_json::Value>(s).ok().map(json_tree)
}

/// How one character is written inside a JSON string literal: the quote and
/// the backslash are escaped, control characters take their short escapes or
/// the `\u00XX` form, and everything else stands as it is.
pub open spec fn esc_char(c: char) -> Seq<char> {
    if c == '"' {
        seq!['\\', '"']
    } else if c == '\\' {
        seq!['\\', '\\']
    } else if c as u32 == 8 {
        seq!['\\', 'b']
    } else if c == '\t' {
        seq!['\\', 't']
    } else if c == '\n' {
        seq!['\\', 'n']
    } else if c as u32 == 12 {
        seq!['\\', 'f']
    } else if c == '\r' {
        seq!['\\', 'r']
    } else if (c as u32) < 32 {
        seq!['\\', 'u', '0', '0', hex_digit(c as u32 as int / 16), hex_digit(c as u32 as int % 16)]
    } else {
        seq![c]
    }
}

/// The text escaped for a JSON string literal.
pub open spec fn esc_seq(s: Seq<char>) -> Seq<char>
    decreases s.len(),
{
    if s.len() == 0 {
        Seq::<char>::empty()
    } else {
        esc_seq(s.drop_last()) + esc_char(s.last())
    }
}

/// The JSON string literal holding the text: quoted and escaped.
pub open spec fn json_quote(s: Seq<char>) -> Seq<char> {
    seq!['"'] + esc_seq(s) + seq!['"']
}

/// Appends `s` to `out` escaped as the inside of a JSON string literal.
fn append_escaped(out: &mut String, s: &str)
    ensures
        final(out)@ == old(out)@ + esc_seq(s@),
{
    let cs = crate::text::chars_of(s);
    let n = cs.len();
    assert(s@.take(0) =~= Seq::<char>::empty());
    for i in 0..n
        invariant
            n == cs@.len(),
            cs@ == s@,
            out@ == old(out)@ + esc_seq(s@.take(i as int)),
    {
        let c = cs[i];
        let code = c as u32;
        proof {
            assert(s@.take(i + 1).drop_last() =~= s@.take(i as int));
            assert(s@.take(i + 1).last() == s@[i as int]);
        }
        if c == '"' {
            out.append("\\\"");
            proof {
                reveal_strlit("\\\"");
                assert(out@ =~= old(out)@ + esc_seq(s@.take(i + 1)));
            }
        } else if c == '\\' {
            out.append("\\\\");
            proof {
                reveal_strlit("\\\\");
                assert(out@ =~= old(out)@ + esc_seq(s@.take(i + 1)));
            }
        } else if code == 8 {
            out.append("\\b");
            proof {
                reveal_strlit("\\b");
                assert(out@ =~= old(out)@ + esc_seq(s@.take(i + 1)));
            }
        } else if c == '\t' {
            out.append("\\t");
            proof {
                reveal_strlit("\\t");
                assert(out@ =~= old(out)@ + esc_seq(s@.take(i + 1)));
            }
        } else if c == '\n' {
            out.append("\\n");
            proof {
                reveal_strlit("\\n");
                assert(out@ =~= old(out)@ + esc_seq(s@.take(i + 1)));
            }
        } else if code == 12 {
            out.append("\\f");
            proof {
                reveal_strlit("\\f");
                assert(out@ =~= old(out)@ + esc_seq(s@.take(i + 1)));
            }
        } else if c == '\r' {
            out.append("\\r");
            proof {
                reveal_strlit("\\r");
                assert(out@ =~= old(out)@ + esc_seq(s@.take(i + 1)));
            }
        } else if code < 32 {
            out.append("\\u00");
            out.append(crate::text::hex_digit_str((code / 16) as u8));
            out.append(crate::text::hex_digit_str((code % 16) as u8));
            proof {
                reveal_strlit("\\u00");
                assert(out@ =~= old(out)@ + esc_seq(s@.take(i + 1)));
            }
        } else {
            let piece = s.substring_char(i, i + 1);
            out.append(piece);
            proof {
                assert(piece@ =~= seq![s@[i as int]]);
                assert(out@ =~= old(out)@ + esc_seq(s@.take(i + 1)));
            }
        }
    }
    proof {
        assert(s@.take(n as int) =~= s@);
    }
}

/// Appends `s` to `out` as a JSON string literal.
pub fn append_json_quoted(out: &mut String, s: &str)
    ensures
        final(out)@ == old(out)@ + json_quote(s@),
{
    out.append("\"");
    append_escaped(out, s);
    out.append("\"");
    proof {
        reveal_strlit("\"");
        assert(out@ =~= old(out)@ + json_quote(s@));
    }
}

/// A value of a flat payload object: a string literal or an integer.
#[derive(Debug)]
pub enum JsonScalar {
    Text(String),
    UInt(u64),
    Int(i64),
}

/// How a payload value is rendered.
pub open spec fn scalar_text(v: JsonScalar) -> Seq<char> {
    match v {
        JsonScalar::Text(s) => json_quote(s@),
        JsonScalar::UInt(n) => dec_of(n as nat),
        JsonScalar::Int(n) => dec_of_int(n as int),
    }
}

/// How one field is rendered: the quoted key, a colon, the rendered value.
/// Keys are the library's own plain tokens and need no escaping.
pub open spec fn field_text(key: Seq<char>, val: Seq<char>) -> Seq<char> {
    seq!['"'] + key + seq!['"', ':'] + val
}

/// How the fields of an object are rendered, comma-separated.
pub open spec fn fields_text(fields: Seq<(Seq<char>, Seq<char>)>) -> Seq<char>
    decreases fields.len(),
{
    if fields.len() == 0 {
        Seq::<char>::empty()
    } else if fields.len() == 1 {
        field_text(fields[0].0, fields[0].1)
    } else {
        fields_text(fields.drop_last()) + seq![','] + field_text(
            fields.last().0,
            fields.last().1,
        )
    }
}

/// How a flat object is rendered: braces around its comma-separated fields.
pub open spec fn obj_text(fields: Seq<(Seq<char>, Seq<char>)>) -> Seq<char> {
    seq!['{'] + fields_text(fields) + seq!['}']
}

/// The key texts and rendered value texts of a list of payload fields.
pub open spec fn fields_view(fs: Seq<(String, JsonScalar)>) -> Seq<(Seq<char>, Seq<char>)> {
    fs.map(|i: int, f: (String, JsonScalar)| (f.0@, scalar_text(f.1)))
}

/// Adds a string-valued field to a payload under construction.
pub fn push_text_field(fields: &mut Vec<(String, JsonScalar)>, key: &str, val: &str)
    ensures
        fields_view(final(fields)@) == fields_view(old(fields)@) + seq![(key@, json_quote(val@))],
{
    fields.push((key.to_owned(), JsonScalar::Text(val.to_owned())));
    proof {
        assert(fields_view(fields@) =~= fields_view(old(fields)@) + seq![
            (key@, json_quote(val@)),
        ]);
    }
}

/// Adds an unsigned-integer field to a payload under construction.
pub fn push_uint_field(fields: &mut Vec<(String, JsonScalar)>, key: &str, val: u64)
    ensures
        fields_view(final(fields)@) == fields_view(old(fields)@) + seq![
            (key@, dec_of(val as nat)),
        ],
{
    fields.push((key.to_owned(), JsonScalar::UInt(val)));
    proof {
        assert(fields_view(fields@) =~= fields_view(old(fields)@) + seq![
            (key@, dec_of(val as nat)),
        ]);
    }
}

/// Adds a signed-integer field to a payload under construction.
pub fn push_int_field(fields: &mut Vec<(String, JsonScalar)>, key: &str, val: i64)
    ensures
        fields_view(final(fields)@) == fields_view(old(fields)@) + seq![
            (key@, dec_of_int(val as int)),
        ],
{
    fields.push((key.to_owned(), JsonScalar::Int(val)));
    proof {
        assert(fields_view(fields@) =~= fields_view(old(fields)@) + seq![
            (key@, dec_of_int(val as int)),
        ]);
    }
}

/// The field a present string option contributes, nothing for an absent one.
pub open spec fn opt_text_field(key: Seq<char>, v: Option<String>) -> Seq<(Seq<char>, Seq<char>)> {
    match v {
        None => Seq::<(Seq<char>, Seq<char>)>::empty(),
        Some(t) => seq![(key, json_quote(t@))],
    }
}

/// The field a present unsigned option contributes, nothing for an absent
/// one.
pub open spec fn opt_u64_field(key: Seq<char>, v: Option<u64>) -> Seq<(Seq<char>, Seq<char>)> {
    match v {
        None => Seq::<(Seq<char>, Seq<char>)>::empty(),
        Some(n) => seq![(key, dec_of(n as nat))],
    }
}

/// The field a present signed option contributes, nothing for an absent one.
pub open spec fn opt_i64_field(key: Seq<char>, v: Option<i64>) -> Seq<(Seq<char>, Seq<char>)> {
    match v {
        None => Seq::<(Seq<char>, Seq<char>)>::empty(),
        Some(n) => seq![(key, dec_of_int(n as int))],
    }
}

/// Renders a flat payload object from its fields, in order.
pub fn obj_to_text(fields: &Vec<(String, JsonScalar)>) -> (s: String)
    ensures
        s@ == obj_text(fields_view(fields@)),
{
    let ghost vt = fields_view(fields@);
    let n = fields.len();
    proof {
        reveal_strlit("{");
        reveal_strlit("}");
        reveal_strlit(",");
        reveal_strlit("\"");
        reveal_strlit("\":");
    }
    let mut s = String::from_str("{");
    proof {
        assert(vt.take(0) =~= Seq::<(Seq<char>, Seq<char>)>::empty());
        assert(s@ =~= seq!['{'] + fields_text(vt.take(0)));
    }
    for i in 0..n
        invariant
            n == fields@.len(),
            vt == fields_view(fields@),
            vt.len() == n,
            s@ == seq!['{'] + fields_text(vt.take(i as int)),
    {
        proof {
            reveal_strlit(",");
            reveal_strlit("\"");
            reveal_strlit("\":");
            assert(vt.take(i + 1).drop_last() =~= vt.take(i as int));
            assert(vt.take(i + 1).last() == vt[i as int]);
        }
        if i > 0 {
            s.append(",");
        }
        s.append("\"");
        s.append(fields[i].0.as_str());
        s.append("\":");
        match &fields[i].1 {
            JsonScalar::Text(t) => {
                append_json_quoted(&mut s, t.as_str());
            },
            JsonScalar::UInt(v) => {
                let d = u64_to_dec(*v);
                s.append(d.as_str());
            },
            JsonScalar::Int(v) => {
                let d = i64_to_dec(*v);
                s.append(d.as_str());
            },
        }
        proof {
            assert(s@ =~= seq!['{'] + fields_text(vt.take(i + 1)));
        }
    }
    s.append("}");
    proof {
        assert(vt.take(n as int) =~= vt);
        assert(s@ =~= obj_text(vt));
    }
    s
}

} // verus!
