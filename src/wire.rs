use vstd::prelude::*;

verus! {

/// The hex digit, lower case, of a value below sixteen.
pub open spec fn hex_digit(n: int) -> char {
    seq!['0', '1', '2', '3', '4', '5', '6', '7', '8', '9', 'a', 'b', 'c', 'd', 'e', 'f'][n]
}

/// How one character of a string is written inside a JSON string literal:
/// the quote and the backslash are escaped, the five control characters
/// that have a short form take it, every other control character becomes
/// `\u00XX`, and all else stands as it is.
pub open spec fn escape_char(c: char) -> Seq<char> {
    if c == '"' {
        seq!['\\', '"']
    } else if c == '\\' {
        seq!['\\', '\\']
    } else if c == '\u{8}' {
        seq!['\\', 'b']
    } else if c == '\u{c}' {
        seq!['\\', 'f']
    } else if c == '\n' {
        seq!['\\', 'n']
    } else if c == '\r' {
        seq!['\\', 'r']
    } else if c == '\t' {
        seq!['\\', 't']
    } else if (c as int) < 0x20 {
        seq!['\\', 'u', '0', '0', hex_digit((c as int) / 16), hex_digit((c as int) % 16)]
    } else {
        seq![c]
    }
}

/// The characters of `s`, each escaped, in order.
pub open spec fn json_escaped(s: Seq<char>) -> Seq<char>
    decreases s.len(),
{
    if s.len() == 0 {
        Seq::empty()
    } else {
        json_escaped(s.drop_last()) + escape_char(s.last())
    }
}

/// `s` as a JSON string literal.
pub open spec fn json_quoted(s: Seq<char>) -> Seq<char> {
    seq!['"'] + json_escaped(s) + seq!['"']
}

/// Relies on `serde_json::to_string` applied to a `str`: it writes the
/// string between quotes, escaping each character as `escape_char` says
/// (its `format_escaped_str`), and it does not fail on a `str`, whose
/// serialization neither fails by itself nor holds a map.
#[verifier::external_body]
fn serialize_str(s: &str) -> (r: Result<String, serde_json::Error>)
    ensures
        r is Ok,
        r matches Ok(t) ==> t@ == json_quoted(s@),
{
    serde_json::to_string(s)
}

/// `s` as a JSON string literal.
pub fn quote_str(s: &str) -> (r: String)
    ensures
        r@ == json_quoted(s@),
{
    match serialize_str(s) {
        Ok(t) => t,
        Err(_) => {
            proof {
                assert(false);
            }
            String::new()
        },
    }
}

/// The compact JSON text that serde_json writes for `v`.
pub uninterp spec fn value_text(v: serde_json::Value) -> Seq<char>;

/// Relies on `Display` for `serde_json::Value`: it writes the value as
/// compact JSON through serde_json's serializer. Objects are ordered maps
/// (no `preserve_order`), so the text is a function of the value alone.
#[verifier::external_body]
fn value_to_text(v: &serde_json::Value) -> (r: String)
    ensures
        r@ == value_text(*v),
{
    v.to_string()
}

/// `v` as compact JSON text.
pub fn json_text(v: &serde_json::Value) -> (r: String)
    ensures
        r@ == value_text(*v),
{
    value_to_text(v)
}

} // verus!
