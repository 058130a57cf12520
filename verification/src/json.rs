//! The library's own model of a JSON document, with verified escaping,
//! serialization and navigation, and a trusted bridge to `serde_json`
//! for parsing raw text.

use vstd::prelude::*;
use vstd::string::{StrSliceExecFns, StringExecFns};

verus! {

/// A JSON document as this library models it. Numbers may appear in
/// documents the remote side sends, but nothing in this tool reads one,
/// so their value is not kept.
pub enum JsonValue {
    Null,
    Bool(bool),
    Num,
    Str(String),
    Arr(Vec<JsonValue>),
    Obj(Vec<(String, JsonValue)>),
}

/// The lower-case hexadecimal digit of a value below sixteen.
pub open spec fn spec_hex_digit(n: int) -> char {
    "0123456789abcdef"@[n]
}

/// How one character appears inside a serialized JSON string literal.
pub open spec fn spec_escape_char(c: char) -> Seq<char> {
    if c == '"' {
        seq!['\\', '"']
    } else if c == '\\' {
        seq!['\\', '\\']
    } else if c == '\n' {
        seq!['\\', 'n']
    } else if c == '\r' {
        seq!['\\', 'r']
    } else if c == '\t' {
        seq!['\\', 't']
    } else if (c as int) < 0x20 {
        seq!['\\', 'u', '0', '0', spec_hex_digit(c as int / 16), spec_hex_digit(c as int % 16)]
    } else {
        seq![c]
    }
}

/// How a whole character sequence appears inside a serialized JSON
/// string literal.
pub open spec fn spec_escape(s: Seq<char>) -> Seq<char>
    decreases s.len(),
{
    if s.len() == 0 {
        Seq::empty()
    } else {
        spec_escape(s.drop_last()) + spec_escape_char(s.last())
    }
}

/// Escapes `s` for inclusion in a serialized JSON string literal.
pub fn escaped(s: &str) -> (r: String)
    ensures
        r@ == spec_escape(s@),
{
    let n = s.unicode_len();
    let mut r = String::new();
    let mut i: usize = 0;
    while i < n
        invariant
            n == s@.len(),
            i <= n,
            r@ == spec_escape(s@.take(i as int)),
        decreases n - i,
    {
        let c = s.get_char(i);
        proof {
            assert(s@.take(i as int + 1).drop_last() =~= s@.take(i as int));
            assert(s@.take(i as int + 1).last() == c);
        }
        if c == '"' {
            proof {
                reveal_strlit("\\\"");
                assert("\\\""@ =~= seq!['\\', '"']);
            }
            r.append("\\\"");
        } else if c == '\\' {
            proof {
                reveal_strlit("\\\\");
                assert("\\\\"@ =~= seq!['\\', '\\']);
            }
            r.append("\\\\");
        } else if c == '\n' {
            proof {
                reveal_strlit("\\n");
                assert("\\n"@ =~= seq!['\\', 'n']);
            }
            r.append("\\n");
        } else if c == '\r' {
            proof {
                reveal_strlit("\\r");
                assert("\\r"@ =~= seq!['\\', 'r']);
            }
            r.append("\\r");
        } else if c == '\t' {
            proof {
                reveal_strlit("\\t");
                assert("\\t"@ =~= seq!['\\', 't']);
            }
            r.append("\\t");
        } else if (c as u32) < 0x20 {
            let digits = "0123456789abcdef";
            proof {
                reveal_strlit("0123456789abcdef");
                reveal_strlit("\\u00");
                assert("\\u00"@ =~= seq!['\\', 'u', '0', '0']);
            }
            assert(digits.is_ascii());
            let hi = (c as u32 / 16) as usize;
            let lo = (c as u32 % 16) as usize;
            r.append("\\u00");
            let dh = digits.substring_ascii(hi, hi + 1);
            r.append(dh);
            let dl = digits.substring_ascii(lo, lo + 1);
            r.append(dl);
            proof {
                assert(dh@ =~= seq![spec_hex_digit(c as int / 16)]);
                assert(dl@ =~= seq![spec_hex_digit(c as int % 16)]);
            }
        } else {
            let piece = s.substring_char(i, i + 1);
            proof {
                assert(piece@ =~= seq![c]);
            }
            r.append(piece);
        }
        i = i + 1;
        proof {
            assert(r@ =~= spec_escape(s@.take(i as int)));
        }
    }
    proof {
        assert(s@.take(n as int) =~= s@);
    }
    r
}

/// The serialized text of a whole document, in compact form: no spacing,
/// object fields and array items in order, strings escaped.
pub open spec fn spec_json_text(v: JsonValue) -> Seq<char>
    decreases v, 0int,
{
    match v {
        JsonValue::Null => "null"@,
        JsonValue::Bool(b) => if b {
            "true"@
        } else {
            "false"@
        },
        JsonValue::Num => "0"@,
        JsonValue::Str(s) => seq!['"'] + spec_escape(s@) + seq!['"'],
        JsonValue::Arr(a) => seq!['['] + spec_items_text(a@, a@.len() as int) + seq![']'],
        JsonValue::Obj(fs) => seq!['{'] + spec_fields_text(fs@, fs@.len() as int) + seq!['}'],
    }
}

/// The serialized text of the first `n` items of an array, comma-separated.
pub open spec fn spec_items_text(items: Seq<JsonValue>, n: int) -> Seq<char>
    decreases items, n,
{
    if n <= 0 || n > items.len() {
        Seq::empty()
    } else {
        spec_items_text(items, n - 1) + (if n > 1 {
            seq![',']
        } else {
            Seq::empty()
        }) + spec_json_text(items[n - 1])
    }
}

/// The serialized text of the first `n` fields of an object: quoted key,
/// colon, value, comma-separated.
pub open spec fn spec_fields_text(fields: Seq<(String, JsonValue)>, n: int) -> Seq<char>
    decreases fields, n,
{
    if n <= 0 || n > fields.len() {
        Seq::empty()
    } else {
        spec_fields_text(fields, n - 1) + (if n > 1 {
            seq![',']
        } else {
            Seq::empty()
        }) + seq!['"'] + spec_escape(fields[n - 1].0@) + seq!['"', ':'] + spec_json_text(
            fields[n - 1].1,
        )
    }
}

/// Serializes a document to compact JSON text.
#[verifier::loop_isolation(false)]
pub fn json_text(v: &JsonValue) -> (r: String)
    ensures
        r@ == spec_json_text(*v),
    decreases *v,
{
    match v {
        JsonValue::Null => {
            proof {
                reveal_strlit("null");
            }
            String::from_str("null")
        },
        JsonValue::Bool(b) => {
            proof {
                reveal_strlit("true");
                reveal_strlit("false");
            }
            if *b {
                String::from_str("true")
            } else {
                String::from_str("false")
            }
        },
        JsonValue::Num => {
            proof {
                reveal_strlit("0");
            }
            String::from_str("0")
        },
        JsonValue::Str(s) => {
            proof {
                reveal_strlit("\"");
                assert("\""@ =~= seq!['"']);
            }
            let mut r = String::from_str("\"");
            let e = escaped(s.as_str());
            r.append(e.as_str());
            r.append("\"");
            proof {
                assert(r@ =~= spec_json_text(*v));
            }
            r
        },
        JsonValue::Arr(a) => {
            proof {
                reveal_strlit("[");
                reveal_strlit("]");
                reveal_strlit(",");
                assert("["@ =~= seq!['[']);
                assert("]"@ =~= seq![']']);
                assert(","@ =~= seq![',']);
            }
            let mut r = String::from_str("[");
            let n = a.len();
            let mut i: usize = 0;
            while i < n
                invariant
                    n == a@.len(),
                    i <= n,
                    r@ == seq!['['] + spec_items_text(a@, i as int),
                decreases n - i,
            {
                if i > 0 {
                    r.append(",");
                }
                proof {
                    assert(decreases_to!(*v => (*v)->Arr_0));
                    assert(decreases_to!((*v)->Arr_0 => (*v)->Arr_0@));
                    assert(decreases_to!((*v)->Arr_0@ => (*v)->Arr_0@[i as int]));
                    assert(decreases_to!(*v => a@[i as int]));
                }
                let sub = json_text(&a[i]);
                r.append(sub.as_str());
                i = i + 1;
                proof {
                    assert(r@ =~= seq!['['] + spec_items_text(a@, i as int));
                }
            }
            r.append("]");
            proof {
                assert(r@ =~= spec_json_text(*v));
            }
            r
        },
        JsonValue::Obj(fs) => {
            proof {
                reveal_strlit("{");
                reveal_strlit("}");
                reveal_strlit(",");
                reveal_strlit("\"");
                reveal_strlit("\":");
                assert("{"@ =~= seq!['{']);
                assert("}"@ =~= seq!['}']);
                assert(","@ =~= seq![',']);
                assert("\""@ =~= seq!['"']);
                assert("\":"@ =~= seq!['"', ':']);
            }
            let mut r = String::from_str("{");
            let n = fs.len();
            let mut i: usize = 0;
            while i < n
                invariant
                    n == fs@.len(),
                    i <= n,
                    r@ == seq!['{'] + spec_fields_text(fs@, i as int),
                decreases n - i,
            {
                if i > 0 {
                    r.append(",");
                }
                let pair = &fs[i];
                proof {
                    assert(decreases_to!(*v => (*v)->Obj_0));
                    assert(decreases_to!((*v)->Obj_0 => (*v)->Obj_0@));
                    assert(decreases_to!((*v)->Obj_0@ => (*v)->Obj_0@[i as int]));
                    assert(decreases_to!((*v)->Obj_0@[i as int] => (*v)->Obj_0@[i as int].1));
                    assert(decreases_to!(*v => fs@[i as int].1));
                }
                r.append("\"");
                let k = escaped(pair.0.as_str());
                r.append(k.as_str());
                r.append("\":");
                let sub = json_text(&pair.1);
                r.append(sub.as_str());
                i = i + 1;
                proof {
                    assert(r@ =~= seq!['{'] + spec_fields_text(fs@, i as int));
                }
            }
            r.append("}");
            proof {
                assert(r@ =~= spec_json_text(*v));
            }
            r
        },
    }
}

/// The value of the first field named `key`, if the document is an object
/// holding one.
pub open spec fn spec_obj_get(v: JsonValue, key: Seq<char>) -> Option<JsonValue> {
    match v {
        JsonValue::Obj(fields) => spec_fields_get(fields@, key),
        _ => None,
    }
}

/// The value of the first field named `key` in a field list.
pub open spec fn spec_fields_get(fields: Seq<(String, JsonValue)>, key: Seq<char>) -> Option<
    JsonValue,
>
    decreases fields.len(),
{
    if fields.len() == 0 {
        None
    } else if fields[0].0@ == key {
        Some(fields[0].1)
    } else {
        spec_fields_get(fields.drop_first(), key)
    }
}

/// The item at index `i`, if the document is an array of more than `i` items.
pub open spec fn spec_arr_at(v: JsonValue, i: int) -> Option<JsonValue> {
    match v {
        JsonValue::Arr(items) => if 0 <= i < items@.len() {
            Some(items@[i])
        } else {
            None
        },
        _ => None,
    }
}

/// The character sequence of the document, if it is a string.
pub open spec fn spec_str_of(v: JsonValue) -> Option<Seq<char>> {
    match v {
        JsonValue::Str(s) => Some(s@),
        _ => None,
    }
}

/// Looks a field up by name in an object document.
#[verifier::loop_isolation(false)]
pub fn obj_get<'a>(v: &'a JsonValue, key: &str) -> (r: Option<&'a JsonValue>)
    ensures
        match r {
            Some(x) => spec_obj_get(*v, key@) == Some(*x),
            None => spec_obj_get(*v, key@) is None,
        },
{
    match v {
        JsonValue::Obj(fields) => {
            let needle = String::from_str(key);
            let n = fields.len();
            let mut i: usize = 0;
            proof {
                assert(fields@.skip(0) =~= fields@);
            }
            while i < n
                invariant
                    i <= n,
                    spec_fields_get(fields@, key@) == spec_fields_get(
                        fields@.skip(i as int),
                        key@,
                    ),
                decreases n - i,
            {
                let pair = &fields[i];
                proof {
                    assert(fields@.skip(i as int)[0] == fields@[i as int]);
                    assert(fields@.skip(i as int).drop_first() =~= fields@.skip(i as int + 1));
                }
                if pair.0 == needle {
                    return Some(&pair.1);
                }
                i = i + 1;
            }
            None
        },
        _ => None,
    }
}

/// Fetches the item at `i` from an array document.
pub fn arr_at<'a>(v: &'a JsonValue, i: usize) -> (r: Option<&'a JsonValue>)
    ensures
        match r {
            Some(x) => spec_arr_at(*v, i as int) == Some(*x),
            None => spec_arr_at(*v, i as int) is None,
        },
{
    match v {
        JsonValue::Arr(items) => if i < items.len() {
            Some(&items[i])
        } else {
            None
        },
        _ => None,
    }
}

/// Reads the document as a string.
pub fn str_of<'a>(v: &'a JsonValue) -> (r: Option<&'a String>)
    ensures
        match r {
            Some(x) => spec_str_of(*v) == Some(x@),
            None => spec_str_of(*v) is None,
        },
{
    match v {
        JsonValue::Str(s) => Some(s),
        _ => None,
    }
}

#[verifier::external_type_specification]
#[verifier::external_body]
pub struct ExValue(serde_json::Value);

/// What `serde_json::from_str` makes of a text, carried into the library's
/// model: `None` exactly where the text is not well-formed JSON.
pub uninterp spec fn spec_parse_json(s: Seq<char>) -> Option<JsonValue>;

/// Relies on serde_json::Value: hands each variant of a parsed document,
/// unchanged, to the library's own model; a number's value is not kept.
#[verifier::external_body]
fn json_of_value(v: serde_json::Value) -> JsonValue {
    match v {
        serde_json::Value::Null => JsonValue::Null,
        serde_json::Value::Bool(b) => JsonValue::Bool(b),
        serde_json::Value::Number(_) => JsonValue::Num,
        serde_json::Value::String(s) => JsonValue::Str(s),
        serde_json::Value::Array(a) => JsonValue::Arr(a.into_iter().map(json_of_value).collect()),
        serde_json::Value::Object(m) => JsonValue::Obj(
            m.into_iter().map(|(k, x)| (k, json_of_value(x))).collect(),
        ),
    }
}

/// Relies on serde_json::from_str: whether a text parses as JSON, and the
/// document it parses to, depend on the text alone.
#[verifier::external_body]
pub(crate) fn parse_json_text(s: &str) -> (r: Option<JsonValue>)
    ensures
        r == spec_parse_json(s@),
{
    match serde_json::from_str::<serde_json::Value>(s) {
        Ok(v) => Some(json_of_value(v)),
        Err(_) => None,
    }
}

} // verus!
