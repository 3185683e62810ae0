use vstd::prelude::*;

use serde_json::Value;

verus! {

/// A JSON value as this library reads it.
#[derive(Debug, Clone)]
pub enum JsonNode {
    /// The text is not JSON.
    Invalid,
    /// The text is JSON, but nothing stands at the pointer.
    Missing,
    Null,
    /// A number that is a non-negative integer within `u64`.
    Count(u64),
    Text(String),
    /// An array of this length.
    List(usize),
    /// An object with these keys.
    Object(Vec<String>),
    /// A boolean, or a number that is not a `u64`.
    Other,
}

/// The mathematical form of a `JsonNode`.
pub enum JsonShape {
    Invalid,
    Missing,
    Null,
    Count(u64),
    Text(Seq<char>),
    List(nat),
    Object(Seq<Seq<char>>),
    Other,
}

impl View for JsonNode {
    type V = JsonShape;

    open spec fn view(&self) -> JsonShape {
        match self {
            JsonNode::Invalid => JsonShape::Invalid,
            JsonNode::Missing => JsonShape::Missing,
            JsonNode::Null => JsonShape::Null,
            JsonNode::Count(n) => JsonShape::Count(*n),
            JsonNode::Text(s) => JsonShape::Text(s@),
            JsonNode::List(n) => JsonShape::List(*n as nat),
            JsonNode::Object(keys) => JsonShape::Object(keys@.map_values(|k: String| k@)),
            JsonNode::Other => JsonShape::Other,
        }
    }
}

/// The value that a JSON pointer designates in a JSON text.
pub uninterp spec fn json_at(text: Seq<char>, pointer: Seq<char>) -> JsonShape;

/// The JSON string literal that stands for a text.
pub uninterp spec fn json_quoted(s: Seq<char>) -> Seq<char>;

/// Relies on serde_json::from_str into a `Value` and on `Value::pointer`: reads the
/// value that `pointer` designates in the JSON text `text`.
#[verifier::external_body]
pub(crate) fn node_at(text: &str, pointer: &str) -> (r: JsonNode)
    ensures
        r@ == json_at(text@, pointer@),
{
    match serde_json::from_str::<Value>(text) {
        Err(_) => JsonNode::Invalid,
        Ok(v) => match v.pointer(pointer) {
            None => JsonNode::Missing,
            Some(Value::Null) => JsonNode::Null,
            Some(Value::Number(n)) => n.as_u64().map_or(JsonNode::Other, JsonNode::Count),
            Some(Value::String(s)) => JsonNode::Text(s.clone()),
            Some(Value::Array(a)) => JsonNode::List(a.len()),
            Some(Value::Object(m)) => JsonNode::Object(m.keys().cloned().collect()),
            Some(Value::Bool(_)) => JsonNode::Other,
        },
    }
}

/// Relies on serde_json::to_string on a string slice: the JSON string literal, quotes
/// and escapes included, that stands for `s`.
#[verifier::external_body]
pub(crate) fn quote(s: &str) -> (r: String)
    ensures
        r@ == json_quoted(s@),
{
    match serde_json::to_string(s) {
        Ok(q) => q,
        Err(_) => String::new(),
    }
}

/// How one character of an object key is written in a JSON pointer.
pub open spec fn escape_char(c: char) -> Seq<char> {
    if c == '~' {
        seq!['~', '0']
    } else if c == '/' {
        seq!['~', '1']
    } else {
        seq![c]
    }
}

/// An object key written as a reference token of a JSON pointer.
pub open spec fn escape_token(k: Seq<char>) -> Seq<char>
    decreases k.len(),
{
    if k.len() == 0 {
        Seq::empty()
    } else {
        escape_token(k.drop_last()) + escape_char(k.last())
    }
}

/// Appends to `pointer` the reference token of the object key `key`.
pub fn push_token(pointer: &mut String, key: &str)
    ensures
        final(pointer)@ == old(pointer)@ + seq!['/'] + escape_token(key@),
{
    pointer.append("/");
    let n = key.unicode_len();
    let mut i: usize = 0;
    let ghost start = pointer@;
    proof {
        assert(key@.take(0) =~= Seq::<char>::empty());
        assert(start =~= start + escape_token(key@.take(0)));
    }
    while i < n
        invariant
            n == key@.len(),
            i <= n,
            pointer@ == start + escape_token(key@.take(i as int)),
        decreases n - i,
    {
        let c = key.get_char(i);
        proof {
            reveal_strlit("~0");
            reveal_strlit("~1");
            assert(key@.take(i + 1).drop_last() =~= key@.take(i as int));
        }
        if c == '~' {
            pointer.append("~0");
        } else if c == '/' {
            pointer.append("~1");
        } else {
            pointer.append(key.substring_char(i, i + 1));
            proof {
                assert(key@.subrange(i as int, i + 1) =~= seq![c]);
            }
        }
        proof {
            assert(pointer@ =~= start + escape_token(key@.take(i + 1)));
        }
        i = i + 1;
    }
    proof {
        assert(key@.take(n as int) =~= key@);
        reveal_strlit("/");
    }
}

} // verus!
