//! A JSON document as the replies of the service are read: values, the
//! lookups the reader makes, and the compact text of a value.

use vstd::prelude::*;
use crate::text::{owned, str_equal};

verus! {

/// One `"key": value` entry of a JSON object.
pub struct JsonMember {
    pub key: String,
    pub value: JsonValue,
}

/// A JSON value.  A number is held as the text that serde_json writes for it;
/// the members of an object keep their order and have distinct keys.
pub enum JsonValue {
    Null,
    Bool(bool),
    Number(String),
    Str(String),
    Array(Vec<JsonValue>),
    Object(Vec<JsonMember>),
}

/// The value of the first member whose key is `key`.
pub open spec fn member_value(members: Seq<JsonMember>, key: Seq<char>) -> Option<JsonValue>
    decreases members.len(),
{
    if members.len() == 0 {
        None
    } else if members[0].key@ == key {
        Some(members[0].value)
    } else {
        member_value(members.drop_first(), key)
    }
}

/// `Value::get(key)`: the member `key` of an object, `None` for anything else.
pub open spec fn json_get(v: JsonValue, key: Seq<char>) -> Option<JsonValue> {
    match v {
        JsonValue::Object(members) => member_value(members@, key),
        _ => None,
    }
}

/// `get` applied to an optional value.
pub open spec fn opt_get(v: Option<JsonValue>, key: Seq<char>) -> Option<JsonValue> {
    match v {
        Some(x) => json_get(x, key),
        None => None,
    }
}

/// `as_str` applied to an optional value.
pub open spec fn opt_str(v: Option<JsonValue>) -> Option<Seq<char>> {
    match v {
        Some(JsonValue::Str(s)) => Some(s@),
        _ => None,
    }
}

/// `as_str` applied to an optional value, or `default`.
pub open spec fn str_or(v: Option<JsonValue>, default: Seq<char>) -> Seq<char> {
    match opt_str(v) {
        Some(s) => s,
        None => default,
    }
}

/// The elements when the optional value is an array, else nothing.
pub open spec fn array_or_empty(v: Option<JsonValue>) -> Seq<JsonValue> {
    match v {
        Some(JsonValue::Array(items)) => items@,
        _ => Seq::empty(),
    }
}

impl JsonValue {
    /// The member `key` of an object; `None` when `self` is not an object or
    /// has no such member.
    pub fn get(&self, key: &str) -> (r: Option<&JsonValue>)
        ensures
            r matches Some(x) ==> json_get(*self, key@) == Some(*x),
            r is None ==> json_get(*self, key@) is None,
    {
        match self {
            JsonValue::Object(members) => {
                let n = members.len();
                let mut i: usize = 0;
                assert(members@.skip(0) =~= members@);
                while i < n
                    invariant
                        n == members@.len(),
                        i <= n,
                        json_get(*self, key@) == member_value(members@, key@),
                        member_value(members@, key@) == member_value(members@.skip(i as int), key@),
                    decreases n - i,
                {
                    assert(members@.skip(i as int).drop_first() =~= members@.skip(i + 1));
                    assert(members@.skip(i as int)[0] == members@[i as int]);
                    if str_equal(members[i].key.as_str(), key) {
                        assert(member_value(members@.skip(i as int), key@) == Some(members@[i as int].value));
                        return Some(&members[i].value);
                    }
                    i = i + 1;
                }
                None
            },
            _ => None,
        }
    }

    /// The string when `self` is a JSON string.
    pub fn as_text(&self) -> (r: Option<&String>)
        ensures
            r matches Some(s) ==> opt_str(Some(*self)) == Some(s@),
            r is None ==> opt_str(Some(*self)) is None,
    {
        match self {
            JsonValue::Str(s) => Some(s),
            _ => None,
        }
    }

    /// The elements when `self` is a JSON array.
    pub fn as_items(&self) -> (r: Option<&Vec<JsonValue>>)
        ensures
            r matches Some(items) ==> *self == JsonValue::Array(*items),
            r is None ==> !(*self is Array),
    {
        match self {
            JsonValue::Array(items) => Some(items),
            _ => None,
        }
    }
}

/// A lower-case hexadecimal digit.
pub open spec fn hex_digit(d: u32) -> char {
    if d < 10 { (48 + d) as char } else { (87 + d) as char }
}

/// How serde_json writes one character inside a string: `"` and `\` after a
/// backslash, the short escapes for backspace, tab, newline, form feed and
/// carriage return, `\u00XX` for the other control characters below 0x20,
/// and every other character as it is.
pub open spec fn escaped(c: char) -> Seq<char> {
    let u = c as u32;
    if c == '"' {
        seq!['\\', '"']
    } else if c == '\\' {
        seq!['\\', '\\']
    } else if u == 0x08 {
        seq!['\\', 'b']
    } else if u == 0x09 {
        seq!['\\', 't']
    } else if u == 0x0a {
        seq!['\\', 'n']
    } else if u == 0x0c {
        seq!['\\', 'f']
    } else if u == 0x0d {
        seq!['\\', 'r']
    } else if u < 0x20 {
        seq!['\\', 'u', '0', '0', hex_digit(u / 16), hex_digit(u % 16)]
    } else {
        seq![c]
    }
}

/// The characters of `s`, each written as `escaped` gives.
pub open spec fn escaped_text(s: Seq<char>) -> Seq<char>
    decreases s.len(),
{
    if s.len() == 0 {
        seq![]
    } else {
        escaped_text(s.drop_last()) + escaped(s.last())
    }
}

/// The text serde_json writes for a string: the escaped characters between
/// double quotes.
pub open spec fn json_quoted(s: Seq<char>) -> Seq<char> {
    seq!['"'] + escaped_text(s) + seq!['"']
}

/// `serde_json::to_string` on a string slice: the string between double
/// quotes, escaped as `format_escaped_str` in serde_json's serializer does
/// (its escape table and `CompactFormatter::write_char_escape`).  Writing a
/// string slice into memory cannot fail.
#[verifier::external_body]
fn quote_json(s: &str) -> (r: String)
    ensures
        r@ == json_quoted(s@),
{
    match serde_json::to_string(s) {
        Ok(t) => t,
        Err(_) => String::new(),
    }
}

/// The compact text of a value, as `Value::to_string` writes it: no spaces,
/// members in order, `,` between elements and `:` after keys.
pub open spec fn json_text(v: JsonValue) -> Seq<char>
    decreases v,
{
    match v {
        JsonValue::Null => "null"@,
        JsonValue::Bool(b) => if b { "true"@ } else { "false"@ },
        JsonValue::Number(n) => n@,
        JsonValue::Str(s) => json_quoted(s@),
        JsonValue::Array(items) => "["@ + items_text(items@) + "]"@,
        JsonValue::Object(members) => "{"@ + members_text(members@) + "}"@,
    }
}

/// The texts of the elements with `,` between each two.
pub open spec fn items_text(items: Seq<JsonValue>) -> Seq<char>
    decreases items,
{
    if items.len() == 0 {
        seq![]
    } else if items.len() == 1 {
        json_text(items[0])
    } else {
        items_text(items.subrange(0, items.len() - 1)) + ","@ + json_text(items[items.len() - 1])
    }
}

/// The text of one member: the quoted key, `:` and the value's text.
pub open spec fn member_text(m: JsonMember) -> Seq<char>
    decreases m,
{
    json_quoted(m.key@) + ":"@ + json_text(m.value)
}

/// The texts of the members with `,` between each two.
pub open spec fn members_text(members: Seq<JsonMember>) -> Seq<char>
    decreases members,
{
    if members.len() == 0 {
        seq![]
    } else if members.len() == 1 {
        member_text(members[0])
    } else {
        members_text(members.subrange(0, members.len() - 1)) + ","@ + member_text(members[members.len() - 1])
    }
}

impl JsonValue {
    /// The compact text of the value (`Value::to_string`).
    pub fn to_json_text(&self) -> (r: String)
        ensures
            r@ == json_text(*self),
        decreases self,
    {
        match self {
            JsonValue::Null => owned("null"),
            JsonValue::Bool(b) => if *b { owned("true") } else { owned("false") },
            JsonValue::Number(n) => n.clone(),
            JsonValue::Str(s) => quote_json(s.as_str()),
            JsonValue::Array(items) => {
                let mut r = owned("[");
                let n = items.len();
                let mut i: usize = 0;
                assert(items@.take(0) =~= Seq::<JsonValue>::empty());
                while i < n
                    invariant
                        n == items@.len(),
                        i <= n,
                        *self == JsonValue::Array(*items),
                        r@ == "["@ + items_text(items@.take(i as int)),
                    decreases n - i,
                {
                    assert(items@.take(i + 1).subrange(0, i as int) =~= items@.take(i as int));
                    assert(items@.take(i + 1)[i as int] == items@[i as int]);
                    if i > 0 {
                        r.append(",");
                    }
                    proof {
                        assert(decreases_to!(*self => (*self)->Array_0));
                        assert(decreases_to!(*items => items@));
                        assert(decreases_to!(items@ => items@[i as int]));
                        assert(decreases_to!(*self => items@[i as int]));
                    }
                    let t = items[i].to_json_text();
                    r.append(t.as_str());
                    i = i + 1;
                }
                assert(items@.take(n as int) =~= items@);
                r.append("]");
                r
            },
            JsonValue::Object(members) => {
                let mut r = owned("{");
                let n = members.len();
                let mut i: usize = 0;
                assert(members@.take(0) =~= Seq::<JsonMember>::empty());
                while i < n
                    invariant
                        n == members@.len(),
                        i <= n,
                        *self == JsonValue::Object(*members),
                        r@ == "{"@ + members_text(members@.take(i as int)),
                    decreases n - i,
                {
                    assert(members@.take(i + 1).subrange(0, i as int) =~= members@.take(i as int));
                    assert(members@.take(i + 1)[i as int] == members@[i as int]);
                    if i > 0 {
                        r.append(",");
                    }
                    let ghost before = r@;
                    let k = quote_json(members[i].key.as_str());
                    proof {
                        assert(decreases_to!(*self => (*self)->Object_0));
                        assert(decreases_to!(*members => members@));
                        assert(decreases_to!(members@ => members@[i as int]));
                        assert(decreases_to!(members@[i as int] => members@[i as int].value));
                        assert(decreases_to!(*self => members@[i as int].value));
                    }
                    let t = members[i].value.to_json_text();
                    let mut entry = k;
                    entry.append(":");
                    entry.append(t.as_str());
                    assert(entry@ == member_text(members@[i as int]));
                    r.append(entry.as_str());
                    i = i + 1;
                }
                assert(members@.take(n as int) =~= members@);
                r.append("}");
                r
            },
        }
    }
}

} // verus!
