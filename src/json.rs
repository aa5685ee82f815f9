//! What the library relies on from serde_json: string literals, and reading
//! members of a parsed reply.
use vstd::prelude::*;

verus! {

#[verifier::external_type_specification]
#[verifier::external_body]
pub struct ExJsonValue(serde_json::Value);

#[verifier::external_type_specification]
#[verifier::external_body]
pub struct ExJsonError(serde_json::Error);

pub open spec fn hex_digit(d: nat) -> char {
    if d < 10 {
        ((48 + d) as u8) as char
    } else {
        ((87 + d) as u8) as char
    }
}

/// How one character is written inside a JSON string: `"` and `\` escaped,
/// the short forms for backspace, tab, newline, form feed and carriage
/// return, `\u00xx` for the other control characters, anything else as is.
pub open spec fn json_escape(c: char) -> Seq<char> {
    let u = c as u32;
    if c == '"' {
        seq!['\\', '"']
    } else if c == '\\' {
        seq!['\\', '\\']
    } else if u == 8 {
        seq!['\\', 'b']
    } else if u == 9 {
        seq!['\\', 't']
    } else if u == 10 {
        seq!['\\', 'n']
    } else if u == 12 {
        seq!['\\', 'f']
    } else if u == 13 {
        seq!['\\', 'r']
    } else if u < 32 {
        seq!['\\', 'u', '0', '0', hex_digit((u / 16) as nat), hex_digit((u % 16) as nat)]
    } else {
        seq![c]
    }
}

pub open spec fn json_escaped(s: Seq<char>) -> Seq<char>
    decreases s.len(),
{
    if s.len() == 0 {
        seq![]
    } else {
        json_escape(s[0]) + json_escaped(s.drop_first())
    }
}

/// The JSON string literal for `s`.
pub open spec fn json_quoted(s: Seq<char>) -> Seq<char> {
    seq!['"'] + json_escaped(s) + seq!['"']
}

/// Relies on `serde_json::to_string` on a `str`: the escaped string in
/// quotes. Serializing a string into memory does not fail.
#[verifier::external_body]
pub(crate) fn json_string(s: &str) -> (r: Result<String, serde_json::Error>)
    ensures
        r is Ok,
        r is Ok ==> r->Ok_0@ == json_quoted(s@),
{
    serde_json::to_string(s)
}

/// Whether serde_json reads the text as one JSON value.
pub uninterp spec fn json_parses(s: Seq<char>) -> bool;

/// A JSON text together with the value serde_json read from it.
pub struct ParsedJson {
    text: String,
    value: serde_json::Value,
}

impl ParsedJson {
    /// The text the value was read from.
    pub closed spec fn source(&self) -> Seq<char> {
        self.text@
    }
}

/// Relies on `serde_json::from_str` into a `Value`: succeeds exactly when the
/// text is one JSON value, which depends on the text alone.
#[verifier::external_body]
pub(crate) fn parse_json(s: &str) -> (r: Result<ParsedJson, serde_json::Error>)
    ensures
        r is Ok <==> json_parses(s@),
        r matches Ok(p) ==> p.source() == s@,
{
    match serde_json::from_str(s) {
        Ok(value) => Ok(ParsedJson { text: s.to_string(), value }),
        Err(e) => Err(e),
    }
}

/// A member of a JSON object, as far as the library reads it.
pub enum JsonMember {
    Absent,
    Bool(bool),
    Str(String),
    Other,
}

pub enum MemberView {
    Absent,
    Bool(bool),
    Str(Seq<char>),
    Other,
}

impl View for JsonMember {
    type V = MemberView;

    open spec fn view(&self) -> MemberView {
        match self {
            JsonMember::Absent => MemberView::Absent,
            JsonMember::Bool(b) => MemberView::Bool(*b),
            JsonMember::Str(s) => MemberView::Str(s@),
            JsonMember::Other => MemberView::Other,
        }
    }
}

/// What `Value::get` finds under `key` in the value read from `text`.
pub uninterp spec fn json_member_of(text: Seq<char>, key: Seq<char>) -> MemberView;

/// Relies on `serde_json::Value::get`: the member under `key` when the value
/// is an object holding it, told apart by kind.
#[verifier::external_body]
pub(crate) fn json_member(p: &ParsedJson, key: &str) -> (r: JsonMember)
    ensures
        r@ == json_member_of(p.source(), key@),
{
    match p.value.get(key) {
        None => JsonMember::Absent,
        Some(serde_json::Value::Bool(b)) => JsonMember::Bool(*b),
        Some(serde_json::Value::String(t)) => JsonMember::Str(t.clone()),
        Some(_) => JsonMember::Other,
    }
}

} // verus!
