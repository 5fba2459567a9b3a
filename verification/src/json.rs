//! A JSON document as the library reads it. The host parses JSON text with
//! serde_json and hands the library this value; numbers carry the readings
//! the logic uses.
use vstd::prelude::*;
use crate::text::{chars_of, eq_range, parse_unsigned, parse_unsigned_spec};

verus! {

/// A JSON number: its value as an `i64` when it is an integer that fits
/// one, its value as a `u32` when it is read as a float that is finite,
/// whole and in `u32` range, and its canonical text (from which the host
/// reads it as an `f64`).
pub struct JsonNumber {
    pub as_i64: Option<i64>,
    pub float_as_u32: Option<u32>,
    pub text: String,
}

/// A JSON value. Object members keep the order they are given in.
pub enum JsonValue {
    Null,
    Bool(bool),
    Number(JsonNumber),
    String(String),
    Array(Vec<JsonValue>),
    Object(Vec<(String, JsonValue)>),
}

/// Index of the first member of `members` named `key`.
#[verifier::opaque]
pub open spec fn member_index(members: Seq<(String, JsonValue)>, key: Seq<char>) -> Option<int> {
    if exists|i: int| 0 <= i < members.len() && members[i].0@ == key {
        Some(
            choose|i: int|
                0 <= i < members.len() && members[i].0@ == key && forall|j: int|
                    0 <= j < i ==> members[j].0@ != key,
        )
    } else {
        None
    }
}

/// `members[i]` is the first member named `key`.
pub open spec fn first_member_at(members: Seq<(String, JsonValue)>, key: Seq<char>, i: int) -> bool {
    0 <= i < members.len() && members[i].0@ == key && forall|j: int|
        0 <= j < i ==> members[j].0@ != key
}

/// The first member named `key` of an object value.
pub open spec fn json_get_spec(v: JsonValue, key: Seq<char>) -> Option<JsonValue> {
    match v {
        JsonValue::Object(members) => match member_index(members@, key) {
            Some(i) => Some(members@[i].1),
            None => None,
        },
        _ => None,
    }
}

/// The text of a string value.
pub open spec fn json_str_spec(v: JsonValue) -> Option<Seq<char>> {
    match v {
        JsonValue::String(s) => Some(s@),
        _ => None,
    }
}

/// The first member named `key` is the one `member_index` picks.
pub proof fn lemma_member_index_at(members: Seq<(String, JsonValue)>, key: Seq<char>, i: int)
    requires
        first_member_at(members, key, i),
    ensures
        member_index(members, key) == Some(i),
{
    reveal(member_index);
    assert(0 <= i < members.len() && members[i].0@ == key);
    let j = choose|j: int|
        0 <= j < members.len() && members[j].0@ == key && forall|k: int|
            0 <= k < j ==> members[k].0@ != key;
    assert(0 <= j < members.len() && members[j].0@ == key && forall|k: int|
        0 <= k < j ==> members[k].0@ != key);
    if j < i {
        assert(members[j].0@ != key);
    }
    if i < j {
        assert(members[i].0@ != key);
    }
}

impl JsonValue {
    /// The member `key` of an object (`None` for other values or a missing
    /// member).
    pub fn get(&self, key: &str) -> (r: Option<&JsonValue>)
        ensures
            match r {
                Some(x) => json_get_spec(*self, key@) == Some(*x),
                None => json_get_spec(*self, key@) is None,
            },
    {
        match self {
            JsonValue::Object(members) => {
                let k = chars_of(key);
                let mut i: usize = 0;
                while i < members.len()
                    invariant
                        i <= members@.len(),
                        *self == JsonValue::Object(*members),
                        k@ == key@,
                        forall|j: int| 0 <= j < i ==> members@[j].0@ != key@,
                    decreases members.len() - i,
                {
                    let name = chars_of(members[i].0.as_str());
                    proof {
                        assert(name@.subrange(0, name@.len() as int) =~= name@);
                    }
                    if eq_range(name.as_slice(), 0, name.len(), k.as_slice()) {
                        proof {
                            assert(members@[i as int].0@ == key@);
                            lemma_member_index_at(members@, key@, i as int);
                        }
                        return Some(&members[i].1);
                    }
                    i += 1;
                }
                proof {
                    reveal(member_index);
                }
                None
            },
            _ => None,
        }
    }

    /// The text of a string value.
    pub fn as_str(&self) -> (r: Option<&str>)
        ensures
            match r {
                Some(t) => json_str_spec(*self) == Some(t@),
                None => json_str_spec(*self) is None,
            },
    {
        match self {
            JsonValue::String(s) => Some(s.as_str()),
            _ => None,
        }
    }
}

/// The boolean a JSON value holds.
pub open spec fn json_bool_spec(v: JsonValue) -> Option<bool> {
    match v {
        JsonValue::Bool(b) => Some(b),
        _ => None,
    }
}

/// A JSON value read as a `u32`: an integer number in range, a float
/// number that is whole and in range, or a string that parses as a `u32`.
pub open spec fn json_u32_spec(v: JsonValue) -> Option<u32> {
    match v {
        JsonValue::Number(n) => match n.as_i64 {
            Some(i) => if 0 <= i <= u32::MAX {
                Some(i as u32)
            } else {
                None
            },
            None => n.float_as_u32,
        },
        JsonValue::String(s) => match parse_unsigned_spec(s@, u32::MAX as nat) {
            Some(k) => Some(k as u32),
            None => None,
        },
        _ => None,
    }
}

/// The boolean a JSON value holds.
pub fn json_bool(v: &JsonValue) -> (r: Option<bool>)
    ensures
        r == json_bool_spec(*v),
{
    match v {
        JsonValue::Bool(b) => Some(*b),
        _ => None,
    }
}

/// A JSON value read as a `u32`.
pub fn json_u32(v: &JsonValue) -> (r: Option<u32>)
    ensures
        r == json_u32_spec(*v),
{
    match v {
        JsonValue::Number(n) => match n.as_i64 {
            Some(i) => if 0 <= i && i <= 4294967295 {
                Some(i as u32)
            } else {
                None
            },
            None => n.float_as_u32,
        },
        JsonValue::String(s) => {
            let c = chars_of(s.as_str());
            match parse_unsigned(c.as_slice(), 0, c.len(), 4294967295) {
                Ok(k) => {
                    proof {
                        assert(c@.subrange(0, c@.len() as int) =~= s@);
                    }
                    Some(k as u32)
                },
                Err(_) => {
                    proof {
                        assert(c@.subrange(0, c@.len() as int) =~= s@);
                    }
                    None
                },
            }
        },
        _ => None,
    }
}

/// The text of a JSON value that is a string.
pub fn json_string(v: &JsonValue) -> (r: Option<&str>)
    ensures
        match r {
            Some(t) => json_str_spec(*v) == Some(t@),
            None => json_str_spec(*v) is None,
        },
{
    v.as_str()
}

/// The member `key` of `v`, read as a string.
pub open spec fn member_str(v: JsonValue, key: Seq<char>) -> Option<Seq<char>> {
    match json_get_spec(v, key) {
        Some(m) => json_str_spec(m),
        None => None,
    }
}

/// The member `key` of `v`, read as a `u32`.
pub open spec fn member_u32(v: JsonValue, key: Seq<char>) -> Option<u32> {
    match json_get_spec(v, key) {
        Some(m) => json_u32_spec(m),
        None => None,
    }
}

/// The member `key` of `v`, read as a boolean.
pub open spec fn member_bool(v: JsonValue, key: Seq<char>) -> Option<bool> {
    match json_get_spec(v, key) {
        Some(m) => json_bool_spec(m),
        None => None,
    }
}

/// The member `key` of `v`, read as a string.
pub fn get_str<'a>(v: &'a JsonValue, key: &str) -> (r: Option<&'a str>)
    ensures
        match r {
            Some(t) => member_str(*v, key@) == Some(t@),
            None => member_str(*v, key@) is None,
        },
{
    match v.get(key) {
        Some(m) => m.as_str(),
        None => None,
    }
}

/// The member `key` of `v`, read as a `u32`.
pub fn get_u32(v: &JsonValue, key: &str) -> (r: Option<u32>)
    ensures
        r == member_u32(*v, key@),
{
    match v.get(key) {
        Some(m) => json_u32(m),
        None => None,
    }
}

/// The member `key` of `v`, read as a boolean.
pub fn get_bool(v: &JsonValue, key: &str) -> (r: Option<bool>)
    ensures
        r == member_bool(*v, key@),
{
    match v.get(key) {
        Some(m) => json_bool(m),
        None => None,
    }
}

/// The lowercase hex digit of `n` (below 16).
pub open spec fn hex_digit_lower(n: u32) -> char {
    seq!['0', '1', '2', '3', '4', '5', '6', '7', '8', '9', 'a', 'b', 'c', 'd', 'e', 'f'][n as int]
}

/// How one character stands inside a JSON string literal: `"` and `\`
/// behind a backslash, the five short escapes for backspace, tab, line
/// feed, form feed and carriage return, `\u00xx` (lowercase hex) for the
/// other control characters below 0x20, and every other character as it is.
pub open spec fn json_escape_char(c: char) -> Seq<char> {
    if c == '"' {
        seq!['\\', '"']
    } else if c == '\\' {
        seq!['\\', '\\']
    } else if c == '\u{8}' {
        seq!['\\', 'b']
    } else if c == '\t' {
        seq!['\\', 't']
    } else if c == '\n' {
        seq!['\\', 'n']
    } else if c == '\u{c}' {
        seq!['\\', 'f']
    } else if c == '\r' {
        seq!['\\', 'r']
    } else if (c as u32) < 0x20 {
        seq!['\\', 'u', '0', '0', hex_digit_lower((c as u32) / 16), hex_digit_lower((c as u32) % 16)]
    } else {
        seq![c]
    }
}

/// The escaped characters of `s`, one after another.
pub open spec fn json_escape(s: Seq<char>) -> Seq<char>
    decreases s.len(),
{
    if s.len() == 0 {
        Seq::empty()
    } else {
        json_escape(s.drop_last()) + json_escape_char(s.last())
    }
}

/// The JSON string literal serde_json writes for a string: the escaped
/// characters between double quotes.
pub open spec fn json_quote_spec(s: Seq<char>) -> Seq<char> {
    seq!['"'] + json_escape(s) + seq!['"']
}

/// A string as a JSON string literal, quoted and escaped (serde_json's
/// `Value::String(..).to_string()`, which writes the compact form).
#[verifier::external_body]
pub(crate) fn json_quote(value: &str) -> (r: String)
    ensures
        r@ == json_quote_spec(value@),
{
    serde_json::Value::String(value.to_string()).to_string()
}

} // verus!
