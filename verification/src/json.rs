//! A plain model of JSON values, filled by serde_json, and lookups on it.

use vstd::prelude::*;
use crate::text::str_equal;

verus! {

/// A JSON number as serde_json holds it: a non-negative integer, a negative
/// integer, or another number, kept as the text serde_json prints for it.
#[derive(Debug, PartialEq, Clone)]
pub enum JsonNumber {
    PosInt(u64),
    NegInt(i64),
    Other(String),
}

/// A JSON value. `Json::parse` fills an object's members in the order
/// serde_json walks its map, where no key occurs twice; lookups take the
/// first member with the key.
#[derive(Debug, PartialEq)]
pub enum Json {
    Null,
    Bool(bool),
    Number(JsonNumber),
    Str(String),
    Array(Vec<Json>),
    Object(Vec<(String, Json)>),
}

/// The value serde_json reads from `text`, or `None` where it refuses the text.
pub uninterp spec fn parsed_json(text: Seq<char>) -> Option<Json>;

/// The lowercase hexadecimal digit for `d`, which is below sixteen.
pub open spec fn hex_digit(d: int) -> char {
    if d < 10 {
        ('0' as int + d) as char
    } else {
        ('a' as int + d - 10) as char
    }
}

/// How serde_json writes one character inside a string literal: a quote
/// and a backslash get a backslash before them; backspace, tab, line feed,
/// form feed and carriage return get their short escapes; any other
/// character below U+0020 becomes `\u00` and two lowercase hex digits; every
/// other character is written as it is.
pub open spec fn json_char_escape(c: char) -> Seq<char> {
    if c == '"' {
        seq!['\\', '"']
    } else if c == '\\' {
        seq!['\\', '\\']
    } else if c == '\u{8}' {
        seq!['\\', 'b']
    } else if c == '\t' {
        seq!['\\', 't']
    } else if c == '\n' {
        seq!['\\', 'n']
    } else if c == '\u{c}' {
        seq!['\\', 'f']
    } else if c == '\r' {
        seq!['\\', 'r']
    } else if (c as int) < 0x20 {
        seq!['\\', 'u', '0', '0', hex_digit((c as int) / 16), hex_digit((c as int) % 16)]
    } else {
        seq![c]
    }
}

/// The characters of `s`, each escaped as serde_json escapes it.
pub open spec fn json_escaped(s: Seq<char>) -> Seq<char>
    decreases s.len(),
{
    if s.len() == 0 {
        Seq::empty()
    } else {
        json_escaped(s.drop_last()) + json_char_escape(s.last())
    }
}

/// The JSON string literal that serde_json writes for the string `s`: the
/// characters of `s`, escaped, between double quotes.
pub open spec fn json_string_literal(s: Seq<char>) -> Seq<char> {
    seq!['"'] + json_escaped(s) + seq!['"']
}

/// Whether serde_json writes `c` inside a string literal as it is.
pub open spec fn json_plain_char(c: char) -> bool {
    c != '"' && c != '\\' && (c as int) >= 0x20
}

proof fn lemma_plain_chars_unescaped(s: Seq<char>)
    requires
        forall|i: int| 0 <= i < s.len() ==> json_plain_char(#[trigger] s[i]),
    ensures
        json_escaped(s) == s,
    decreases s.len(),
{
    if s.len() > 0 {
        let t = s.drop_last();
        assert forall|i: int| 0 <= i < t.len() implies json_plain_char(#[trigger] t[i]) by {
            assert(t[i] == s[i]);
        }
        lemma_plain_chars_unescaped(t);
        assert(json_plain_char(s[s.len() - 1]));
        assert(json_escaped(s) =~= s);
    } else {
        assert(json_escaped(s) =~= s);
    }
}

/// A string of plain characters is written between double quotes unchanged.
pub proof fn law_plain_strings_are_quoted(s: Seq<char>)
    requires
        forall|i: int| 0 <= i < s.len() ==> json_plain_char(#[trigger] s[i]),
    ensures
        json_string_literal(s) == seq!['"'] + s + seq!['"'],
{
    lemma_plain_chars_unescaped(s);
}

/// serde_json's own value type, carried opaquely into the conversion below.
#[verifier::external_type_specification]
#[verifier::external_body]
pub struct ExSerdeValue(serde_json::Value);

/// Converts a serde_json value, variant by variant, into the plain model.
#[verifier::external_body]
fn json_of_value(v: serde_json::Value) -> Json {
    match v {
        serde_json::Value::Null => Json::Null,
        serde_json::Value::Bool(b) => Json::Bool(b),
        serde_json::Value::Number(n) => Json::Number(match (n.as_u64(), n.as_i64()) {
            (Some(u), _) => JsonNumber::PosInt(u),
            (None, Some(i)) => JsonNumber::NegInt(i),
            (None, None) => JsonNumber::Other(n.to_string()),
        }),
        serde_json::Value::String(s) => Json::Str(s),
        serde_json::Value::Array(a) => Json::Array(a.into_iter().map(json_of_value).collect()),
        serde_json::Value::Object(m) => Json::Object(m.into_iter().map(|(k, x)| (k, json_of_value(x))).collect()),
    }
}

/// Calls `serde_json::from_str::<serde_json::Value>` on the text. Claimed:
/// the result is `parsed_json` of the text, a function of the text alone;
/// nothing is claimed of which texts serde_json accepts or what it builds.
#[verifier::external_body]
fn serde_parse(text: &str) -> (r: Option<Json>)
    ensures
        r == parsed_json(text@),
{
    match serde_json::from_str::<serde_json::Value>(text) {
        Ok(v) => Some(json_of_value(v)),
        Err(_) => None,
    }
}

/// Calls `serde_json::to_string` on a string slice, which cannot fail for a
/// string. Claimed: the result is `json_string_literal` of the string, the
/// escaping that serde_json's `format_escaped_str` performs.
#[verifier::external_body]
pub(crate) fn serde_string_literal(s: &str) -> (r: String)
    ensures
        r@ == json_string_literal(s@),
{
    match serde_json::to_string(s) {
        Ok(t) => t,
        Err(_) => String::new(),
    }
}

/// The value of the first member named `key` among `members`.
pub open spec fn member(members: Seq<(String, Json)>, key: Seq<char>) -> Option<Json>
    decreases members.len(),
{
    if members.len() == 0 {
        None
    } else if members[0].0@ == key {
        Some(members[0].1)
    } else {
        member(members.drop_first(), key)
    }
}

/// The number of a JSON value that is a non-negative integer.
pub open spec fn json_u64(j: Json) -> Option<u64> {
    match j {
        Json::Number(JsonNumber::PosInt(n)) => Some(n),
        _ => None,
    }
}

/// The string of a JSON value that is a string.
pub open spec fn json_string(j: Json) -> Option<String> {
    match j {
        Json::Str(s) => Some(s),
        _ => None,
    }
}

/// The members of a JSON value that is an object.
pub open spec fn json_members(j: Json) -> Option<Seq<(String, Json)>> {
    match j {
        Json::Object(m) => Some(m@),
        _ => None,
    }
}

/// A lookup finds nothing exactly where no member bears the key, and
/// otherwise gives the value of the first member that bears it.
pub proof fn law_member_is_first_with_key(members: Seq<(String, Json)>, key: Seq<char>)
    ensures
        (member(members, key) is None) <==> (forall|i: int| 0 <= i < members.len() ==> members[i].0@ != key),
        member(members, key) matches Some(v) ==> exists|i: int| {
            &&& 0 <= i < members.len()
            &&& members[i].0@ == key
            &&& members[i].1 == v
            &&& forall|j: int| 0 <= j < i ==> members[j].0@ != key
        },
    decreases members.len(),
{
    if members.len() > 0 {
        let rest = members.drop_first();
        law_member_is_first_with_key(rest, key);
        if members[0].0@ == key {
            assert(members[0].0@ == key && members[0].1 == members[0].1);
        } else {
            assert forall|i: int| 0 <= i < rest.len() implies rest[i] == members[i + 1] by {}
            if member(rest, key) is None {
                assert forall|i: int| 0 <= i < members.len() implies members[i].0@ != key by {
                    if i > 0 {
                        assert(members[i] == rest[i - 1]);
                    }
                }
            } else {
                let v = member(rest, key)->0;
                let i = choose|i: int| {
                    &&& 0 <= i < rest.len()
                    &&& rest[i].0@ == key
                    &&& rest[i].1 == v
                    &&& forall|j: int| 0 <= j < i ==> rest[j].0@ != key
                };
                assert(members[i + 1] == rest[i]);
                assert forall|j: int| 0 <= j < i + 1 implies members[j].0@ != key by {
                    if j > 0 {
                        assert(members[j] == rest[j - 1]);
                    }
                }
            }
        }
    }
}

/// A JSON value is read as a non-negative integer, a string or an object
/// exactly where it is one, and the reading is what it holds.
pub proof fn law_json_readers(j: Json)
    ensures
        json_u64(j) matches Some(n) ==> j == Json::Number(JsonNumber::PosInt(n)),
        j matches Json::Number(JsonNumber::PosInt(n)) ==> json_u64(j) == Some(n),
        json_string(j) matches Some(s) ==> j == Json::Str(s),
        j matches Json::Str(s) ==> json_string(j) == Some(s),
        json_members(j) matches Some(m) ==> j matches Json::Object(v) && v@ == m,
        j matches Json::Object(v) ==> json_members(j) == Some(v@),
{
}

/// A character is written as it is exactly where it is plain; otherwise its
/// escape starts with a backslash.
pub proof fn law_escapes_start_with_backslash(c: char)
    ensures
        json_plain_char(c) ==> json_char_escape(c) == seq![c],
        !json_plain_char(c) ==> json_char_escape(c).len() >= 2 && json_char_escape(c)[0] == '\\',
{
}

impl Json {
    /// Reads JSON text with serde_json; `None` where serde_json refuses it.
    pub fn parse(text: &str) -> (r: Option<Json>)
        ensures
            r == parsed_json(text@),
    {
        serde_parse(text)
    }

    /// The number, where the value is a non-negative integer.
    pub fn as_u64(&self) -> (r: Option<u64>)
        ensures
            r == json_u64(*self),
    {
        match self {
            Json::Number(JsonNumber::PosInt(n)) => Some(*n),
            _ => None,
        }
    }

    /// The string, where the value is a string.
    pub fn as_str(&self) -> (r: Option<&String>)
        ensures
            match r {
                Some(s) => json_string(*self) == Some(*s),
                None => json_string(*self) is None,
            },
    {
        match self {
            Json::Str(s) => Some(s),
            _ => None,
        }
    }

    /// The members, where the value is an object.
    pub fn as_object(&self) -> (r: Option<&Vec<(String, Json)>>)
        ensures
            match r {
                Some(m) => json_members(*self) == Some(m@),
                None => json_members(*self) is None,
            },
    {
        match self {
            Json::Object(m) => Some(m),
            _ => None,
        }
    }
}

/// Looks up the member named `key`.
pub fn get_member<'a>(members: &'a Vec<(String, Json)>, key: &str) -> (r: Option<&'a Json>)
    ensures
        match r {
            Some(v) => member(members@, key@) == Some(*v),
            None => member(members@, key@) is None,
        },
{
    let n = members.len();
    let mut i: usize = 0;
    assert(members@.skip(0) =~= members@);
    while i < n
        invariant
            n == members@.len(),
            i <= n,
            member(members@, key@) == member(members@.skip(i as int), key@),
        decreases n - i,
    {
        assert(members@.skip(i as int).drop_first() =~= members@.skip(i + 1));
        if str_equal(members[i].0.as_str(), key) {
            return Some(&members[i].1);
        }
        i = i + 1;
    }
    assert(members@.skip(n as int).len() == 0);
    None
}

} // verus!
