//! The JSON wire format of an error chain:
//! `{"error":"<message>","trace":["<cause>",...]}`, compact or pretty.
//! Encoding quotes each message with serde_json and frames the object here;
//! decoding parses with serde_json and reads the two fields here.

use crate::chain::{chain_of, debug_text, flatten_chain, is_text_chain, unflatten_chain};
use crate::serror::{serror_into_error, texts, Serror};
use vstd::prelude::*;
use vstd::string::*;

verus! {

#[verifier::external_type_specification]
#[verifier::external_body]
pub struct ExJsonValue(serde_json::Value);

/// Why a chain could not be encoded or decoded.
#[derive(Clone, Copy, Debug, PartialEq, Eq)]
pub enum CodecError {
    /// The JSON encoder refused a message.
    Encode,
    /// serde_json could not parse the text as JSON.
    Syntax,
    /// The text is JSON, but not an object with a string `error` and an
    /// array of strings `trace`.
    Shape,
}

/// A lower-case hexadecimal digit.
pub open spec fn hex_digit(n: u32) -> char
    recommends
        n < 16,
{
    if n < 10 {
        ((48 + n) as u32) as char
    } else {
        ((87 + n) as u32) as char
    }
}

/// How `serde_json` writes one char inside a string literal: `"` and `\`
/// and the controls with a short escape get it, the other controls below
/// U+0020 become `\u00xx`, every other char stands as it is.
pub open spec fn escaped_char(c: char) -> Seq<char> {
    if c == '"' {
        seq!['\\', '"']
    } else if c == '\\' {
        seq!['\\', '\\']
    } else if c == '\u{8}' {
        seq!['\\', 'b']
    } else if c == '\t' {
        seq!['\\', 't']
    } else if c == '\n' {
        seq!['\\', 'n']
    } else if c == '\u{c}' {
        seq!['\\', 'f']
    } else if c == '\r' {
        seq!['\\', 'r']
    } else if (c as u32) < 32 {
        seq!['\\', 'u', '0', '0', hex_digit((c as u32) / 16), hex_digit((c as u32) % 16)]
    } else {
        seq![c]
    }
}

/// The chars of a text, each escaped as in a JSON string literal.
pub open spec fn escaped(s: Seq<char>) -> Seq<char>
    decreases s.len(),
{
    if s.len() == 0 {
        Seq::empty()
    } else {
        escaped(s.drop_last()) + escaped_char(s.last())
    }
}

/// The JSON string literal of a text, as `serde_json` writes it: the escaped
/// chars between double quotes.
pub open spec fn json_quoted(s: Seq<char>) -> Seq<char> {
    seq!['"'] + escaped(s) + seq!['"']
}

/// The JSON value that `serde_json` parses a text into; none where it
/// refuses the text (not JSON, or nested deeper than its recursion limit).
pub uninterp spec fn json_parse(text: Seq<char>) -> Option<serde_json::Value>;

/// The member of a JSON object under a key; none if the value is no object
/// or has no such member.
pub uninterp spec fn json_member(v: serde_json::Value, key: Seq<char>) -> Option<serde_json::Value>;

/// The text of a JSON string value; none for any other value.
pub uninterp spec fn json_string(v: serde_json::Value) -> Option<Seq<char>>;

/// The elements of a JSON array value; none for any other value.
pub uninterp spec fn json_array(v: serde_json::Value) -> Option<Seq<serde_json::Value>>;

/// Relies on `serde_json::to_string` on a `str`: it writes the string as a
/// JSON string literal, escaping by its `ESCAPE` table and writing `\u00xx`
/// with lower-case hex digits. Its documentation names two causes of failure, a
/// `Serialize` impl that fails and a map with non-string keys; `str` has
/// neither, so the call succeeds.
#[verifier::external_body]
fn quote(s: &str) -> (r: Option<String>)
    ensures
        r is Some,
        r.unwrap()@ == json_quoted(s@),
{
    serde_json::to_string(s).ok()
}

/// Relies on `serde_json::from_str` into a `serde_json::Value`: the parsed
/// value, or none where the parser refuses the text.
#[verifier::external_body]
fn parse_json(text: &str) -> (r: Option<serde_json::Value>)
    ensures
        r == json_parse(text@),
{
    serde_json::from_str(text).ok()
}

/// Relies on `serde_json::Value::get` with a string index.
#[verifier::external_body]
fn member(v: &serde_json::Value, key: &str) -> (r: Option<serde_json::Value>)
    ensures
        r == json_member(*v, key@),
{
    v.get(key).cloned()
}

/// Relies on `serde_json::Value::as_str`.
#[verifier::external_body]
fn string_of(v: &serde_json::Value) -> (r: Option<String>)
    ensures
        match r {
            Some(s) => json_string(*v) == Some(s@),
            None => json_string(*v) is None,
        },
{
    v.as_str().map(String::from)
}

/// Relies on `serde_json::Value::as_array`.
#[verifier::external_body]
fn array_of(v: &serde_json::Value) -> (r: Option<Vec<serde_json::Value>>)
    ensures
        match r {
            Some(a) => json_array(*v) == Some(a@),
            None => json_array(*v) is None,
        },
{
    v.as_array().cloned()
}

/// The quoted texts, in order, with `sep` between two neighbours.
pub open spec fn quoted_list(items: Seq<Seq<char>>, sep: Seq<char>) -> Seq<char>
    decreases items.len(),
{
    if items.len() == 0 {
        Seq::empty()
    } else if items.len() == 1 {
        json_quoted(items[0])
    } else {
        quoted_list(items.drop_last(), sep) + sep + json_quoted(items.last())
    }
}

/// The compact wire text of a message and its trace.
pub open spec fn wire_text(chain: (Seq<char>, Seq<Seq<char>>)) -> Seq<char> {
    "{\"error\":"@ + json_quoted(chain.0) + ",\"trace\":["@ + quoted_list(chain.1, ","@) + "]}"@
}

/// The pretty wire text of a message and its trace: two spaces of indent per
/// level, one member or element per line, an empty trace as `[]`.
pub open spec fn wire_text_pretty(chain: (Seq<char>, Seq<Seq<char>>)) -> Seq<char> {
    "{\n  \"error\": "@ + json_quoted(chain.0) + ",\n  \"trace\": "@ + (if chain.1.len() == 0 {
        "[]"@
    } else {
        "[\n    "@ + quoted_list(chain.1, ",\n    "@) + "\n  ]"@
    }) + "\n}"@
}

/// Whether every element is a JSON string.
pub open spec fn all_strings(items: Seq<serde_json::Value>) -> bool {
    forall|i: int| 0 <= i < items.len() ==> (#[trigger] json_string(items[i])) is Some
}

/// The chain that a JSON value holds: a string member `error` and an array
/// member `trace` whose elements are all strings.
pub open spec fn value_chain(v: serde_json::Value) -> Option<(Seq<char>, Seq<Seq<char>>)> {
    match (json_member(v, "error"@), json_member(v, "trace"@)) {
        (Some(ev), Some(tv)) => match (json_string(ev), json_array(tv)) {
            (Some(m), Some(items)) => if all_strings(items) {
                Some((m, items.map_values(|x: serde_json::Value| json_string(x)->Some_0)))
            } else {
                None
            },
            _ => None,
        },
        _ => None,
    }
}

/// The chain that a wire text holds, if it is JSON of the right shape.
pub open spec fn text_chain(text: Seq<char>) -> Option<(Seq<char>, Seq<Seq<char>>)> {
    match json_parse(text) {
        Some(v) => value_chain(v),
        None => None,
    }
}

/// The chain that the tolerant decoder gives for a text: the decoded chain,
/// or else the whole text as the message with an empty trace.
pub open spec fn decoded_or_text(text: Seq<char>) -> (Seq<char>, Seq<Seq<char>>) {
    match text_chain(text) {
        Some(c) => c,
        None => (text, Seq::empty()),
    }
}

/// Quotes each text and joins the literals with `sep`.
fn join_quoted(items: &Vec<String>, sep: &str) -> (r: Result<String, CodecError>)
    ensures
        r matches Ok(t) && t@ == quoted_list(texts(items@), sep@),
{
    let ghost all = texts(items@);
    let mut out = String::new();
    let mut i: usize = 0;
    while i < items.len()
        invariant
            i <= items.len(),
            all == texts(items@),
            out@ == quoted_list(all.subrange(0, i as int), sep@),
        decreases items.len() - i,
    {
        let q = match quote(items[i].as_str()) {
            Some(q) => q,
            None => {
                return Err(CodecError::Encode);
            },
        };
        if i > 0 {
            out.append(sep);
        }
        out.append(q.as_str());
        assert(all.subrange(0, i + 1).drop_last() =~= all.subrange(0, i as int));
        i += 1;
    }
    assert(all.subrange(0, items.len() as int) =~= all);
    Ok(out)
}

/// Encodes a chain as compact wire text.
pub fn encode_serror(s: &Serror) -> (r: Result<String, CodecError>)
    ensures
        r matches Ok(t) && t@ == wire_text((s.error@, s.trace_view())),
{
    let message = match quote(s.error.as_str()) {
        Some(q) => q,
        None => {
            return Err(CodecError::Encode);
        },
    };
    let list = join_quoted(&s.trace, ",")?;
    let mut out = String::from_str("{\"error\":");
    out.append(message.as_str());
    out.append(",\"trace\":[");
    out.append(list.as_str());
    out.append("]}");
    Ok(out)
}

/// Encodes a chain as pretty wire text.
pub fn encode_serror_pretty(s: &Serror) -> (r: Result<String, CodecError>)
    ensures
        r matches Ok(t) && t@ == wire_text_pretty((s.error@, s.trace_view())),
{
    let message = match quote(s.error.as_str()) {
        Some(q) => q,
        None => {
            return Err(CodecError::Encode);
        },
    };
    let mut out = String::from_str("{\n  \"error\": ");
    out.append(message.as_str());
    out.append(",\n  \"trace\": ");
    if s.trace.len() == 0 {
        out.append("[]");
    } else {
        let list = join_quoted(&s.trace, ",\n    ")?;
        out.append("[\n    ");
        out.append(list.as_str());
        out.append("\n  ]");
    }
    out.append("\n}");
    Ok(out)
}

/// Reads the chain out of a parsed JSON value: the string member `error`
/// and the array member `trace`, each of whose elements must be a string.
pub fn serror_from_value(v: &serde_json::Value) -> (r: Option<Serror>)
    ensures
        match r {
            Some(s) => value_chain(*v) == Some((s.error@, s.trace_view())),
            None => value_chain(*v) is None,
        },
{
    let error_value = member(v, "error")?;
    let trace_value = member(v, "trace")?;
    let error = string_of(&error_value)?;
    let items = array_of(&trace_value)?;
    let mut trace: Vec<String> = Vec::new();
    let mut i: usize = 0;
    while i < items.len()
        invariant
            i <= items.len(),
            json_member(*v, "error"@) == Some(error_value),
            json_member(*v, "trace"@) == Some(trace_value),
            json_string(error_value) == Some(error@),
            json_array(trace_value) == Some(items@),
            trace@.len() == i,
            forall|j: int| 0 <= j < i ==> (#[trigger] json_string(items@[j])) == Some(trace@[j]@),
        decreases items.len() - i,
    {
        match string_of(&items[i]) {
            Some(t) => trace.push(t),
            None => {
                assert(!all_strings(items@));
                return None;
            },
        }
        i += 1;
    }
    let ghost decoded = items@.map_values(|x: serde_json::Value| json_string(x)->Some_0);
    assert(texts(trace@) =~= decoded);
    Some(Serror { error, trace })
}

/// Decodes wire text into a chain, failing with `Syntax` on text that
/// serde_json does not parse and with `Shape` on JSON that holds no chain.
pub fn try_deserialize_serror(json: &str) -> (r: Result<Serror, CodecError>)
    ensures
        match r {
            Ok(s) => text_chain(json@) == Some((s.error@, s.trace_view())),
            Err(CodecError::Syntax) => json_parse(json@) is None,
            Err(CodecError::Shape) => json_parse(json@) is Some && text_chain(json@) is None,
            Err(CodecError::Encode) => false,
        },
{
    let v = match parse_json(json) {
        Some(v) => v,
        None => {
            return Err(CodecError::Syntax);
        },
    };
    match serror_from_value(&v) {
        Some(s) => Ok(s),
        None => Err(CodecError::Shape),
    }
}

/// Decodes wire text into a chain; text that holds no chain becomes the
/// message of a chain with an empty trace.
pub fn deserialize_serror(json: String) -> (r: Serror)
    ensures
        (r.error@, r.trace_view()) == decoded_or_text(json@),
{
    match try_deserialize_serror(json.as_str()) {
        Ok(s) => s,
        Err(_) => {
            let r = Serror { error: json, trace: Vec::new() };
            assert(r.trace_view() =~= Seq::<Seq<char>>::empty());
            r
        },
    }
}

/// Decodes wire text into a generic causal error whose chain is the decoded
/// chain (or the whole text, if it holds none).
pub fn deserialize_error(json: String) -> (r: anyhow::Error)
    ensures
        is_text_chain(r),
        chain_of(r) == unflatten_chain(decoded_or_text(json@).0, decoded_or_text(json@).1),
{
    serror_into_error(deserialize_serror(json))
}

/// Encodes the chain of a causal error as compact wire text: the text of
/// some non-empty chain of messages, and of the error's own chain where that
/// is made from strings alone.
pub fn try_serialize_error(e: &anyhow::Error) -> (r: Result<String, CodecError>)
    ensures
        r is Ok,
        exists|m: Seq<Seq<char>>|
            m.len() >= 1 && r.unwrap()@ == wire_text(#[trigger] flatten_chain(m)),
        is_text_chain(*e) ==> r.unwrap()@ == wire_text(flatten_chain(chain_of(*e))),
{
    encode_serror(&Serror::from_error(e))
}

/// Encodes the chain of a causal error as pretty wire text, as
/// [`try_serialize_error`] does compact text.
pub fn try_serialize_error_pretty(e: &anyhow::Error) -> (r: Result<String, CodecError>)
    ensures
        r is Ok,
        exists|m: Seq<Seq<char>>|
            m.len() >= 1 && r.unwrap()@ == wire_text_pretty(#[trigger] flatten_chain(m)),
        is_text_chain(*e) ==> r.unwrap()@ == wire_text_pretty(flatten_chain(chain_of(*e))),
{
    encode_serror_pretty(&Serror::from_error(e))
}

/// The compact wire text of a causal error. This never fails: should the
/// encoder refuse, the error's alternate debug rendering is returned instead.
pub fn serialize_error(e: &anyhow::Error) -> (r: String)
    ensures
        exists|m: Seq<Seq<char>>| m.len() >= 1 && r@ == wire_text(#[trigger] flatten_chain(m)),
        is_text_chain(*e) ==> r@ == wire_text(flatten_chain(chain_of(*e))),
{
    match try_serialize_error(e) {
        Ok(t) => t,
        Err(_) => debug_text(e),
    }
}

/// The pretty wire text of a causal error. This never fails: should the
/// encoder refuse, the error's alternate debug rendering is returned instead.
pub fn serialize_error_pretty(e: &anyhow::Error) -> (r: String)
    ensures
        exists|m: Seq<Seq<char>>|
            m.len() >= 1 && r@ == wire_text_pretty(#[trigger] flatten_chain(m)),
        is_text_chain(*e) ==> r@ == wire_text_pretty(flatten_chain(chain_of(*e))),
{
    match try_serialize_error_pretty(e) {
        Ok(t) => t,
        Err(_) => debug_text(e),
    }
}

} // verus!
