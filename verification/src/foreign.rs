//! The functions of other libraries that the console calls, each with what is
//! taken to hold of it.

use vstd::prelude::*;
use vstd::utf8;

verus! {

broadcast use vstd::string::group_string_axioms;

/// `String::push` appends one character to the end of the string.
pub assume_specification[ String::push ](s: &mut String, c: char)
    ensures
        final(s)@ == old(s)@.push(c),
;

/// What `str::to_lowercase` makes of a text: the lower-case equivalent that Unicode
/// gives it.
pub uninterp spec fn lowercase(s: Seq<char>) -> Seq<char>;

/// `str::to_lowercase`: the result is a function of the text alone, and is only named.
pub assume_specification[ str::to_lowercase ](s: &str) -> (r: String)
    ensures
        r@ == lowercase(s@),
;

/// What `String::from_utf8_lossy` makes of bytes that are not UTF-8.
pub uninterp spec fn lossy_text(bytes: Seq<u8>) -> Seq<char>;

/// The text that a row of bytes reads as.
pub open spec fn text_of(bytes: Seq<u8>) -> Seq<char> {
    if utf8::valid_utf8(bytes) {
        utf8::decode_utf8(bytes)
    } else {
        lossy_text(bytes)
    }
}

/// `String::from_utf8_lossy`: bytes that are UTF-8 are decoded exactly; of other
/// bytes the result is only named.
#[verifier::external_body]
pub(crate) fn read_utf8(bytes: &[u8]) -> (r: String)
    ensures
        r@ == (if utf8::valid_utf8(bytes@) {
            utf8::decode_utf8(bytes@)
        } else {
            lossy_text(bytes@)
        }),
{
    String::from_utf8_lossy(bytes).into_owned()
}

/// A JSON value.
#[verifier::external_type_specification]
#[verifier::external_body]
pub struct ExValue(serde_json::Value);

/// What a JSON value holds. A record lists its fields in the order that the value
/// keeps them in; no two have the same name.
pub enum Json {
    Null,
    Bool(bool),
    /// A number: its value where that is an `i64`, and how it is written.
    Number(Option<i64>, Seq<char>),
    Text(Seq<char>),
    List(Seq<Json>),
    Record(Seq<(Seq<char>, Json)>),
}

/// What a JSON value holds.
pub uninterp spec fn json_of(v: serde_json::Value) -> Json;

/// What each of some JSON values holds.
pub open spec fn json_list(values: Seq<serde_json::Value>) -> Seq<Json> {
    Seq::new(values.len(), |i: int| json_of(values[i]))
}

impl Json {
    /// The first of some fields that has a given name.
    pub open spec fn field_from(fields: Seq<(Seq<char>, Json)>, name: Seq<char>) -> Option<Json>
        decreases fields.len(),
    {
        if fields.len() == 0 {
            None
        } else if fields[0].0 == name {
            Some(fields[0].1)
        } else {
            Json::field_from(fields.drop_first(), name)
        }
    }

    /// The field of a record with a given name; a value that is no record has none.
    pub open spec fn field(self, name: Seq<char>) -> Option<Json> {
        match self {
            Json::Record(fields) => Json::field_from(fields, name),
            _ => None,
        }
    }

    /// The text that a value is, where it is one.
    pub open spec fn as_text(self) -> Option<Seq<char>> {
        match self {
            Json::Text(t) => Some(t),
            _ => None,
        }
    }

    /// The `i64` that a value is, where it is one.
    pub open spec fn as_whole(self) -> Option<i64> {
        match self {
            Json::Number(n, _) => n,
            _ => None,
        }
    }
}

/// `serde_json::Value::is_null`.
pub assume_specification[ serde_json::Value::is_null ](v: &serde_json::Value) -> (r: bool)
    ensures
        r == (json_of(*v) is Null),
;

/// `serde_json::Value::as_array`: the elements of a list, in order.
pub assume_specification[ serde_json::Value::as_array ](v: &serde_json::Value) -> (r: Option<
    &Vec<serde_json::Value>,
>)
    ensures
        match json_of(*v) {
            Json::List(items) => r is Some && json_list(r->0@) == items,
            _ => r is None,
        },
;

/// `serde_json::Value::as_str`.
pub assume_specification[ serde_json::Value::as_str ](v: &serde_json::Value) -> (r: Option<&str>)
    ensures
        (match r {
            Some(t) => Some(t@),
            None => None,
        }) == json_of(*v).as_text(),
;

/// `serde_json::Value::as_i64`: the number, where it is an integer in range.
pub assume_specification[ serde_json::Value::as_i64 ](v: &serde_json::Value) -> (r: Option<i64>)
    ensures
        r == json_of(*v).as_whole(),
;

/// `serde_json::Value::get` with a field's name: the field of a record, and `None`
/// for a value that is no record.
#[verifier::external_body]
pub(crate) fn field<'a>(v: &'a serde_json::Value, name: &str) -> (r: Option<&'a serde_json::Value>)
    ensures
        (match r {
            Some(found) => Some(json_of(*found)),
            None => None,
        }) == json_of(*v).field(name@),
{
    v.get(name)
}

/// `serde_json::Value::as_object`: the values of a record's fields, in order.
#[verifier::external_body]
pub(crate) fn field_values<'a>(v: &'a serde_json::Value) -> (r: Option<Vec<&'a serde_json::Value>>)
    ensures
        match json_of(*v) {
            Json::Record(fields) => r is Some && r->0@.len() == fields.len() && forall|i: int|
                0 <= i < fields.len() ==> json_of(*#[trigger] r->0@[i]) == fields[i].1,
            _ => r is None,
        },
{
    match v.as_object() {
        Some(map) => Some(map.values().collect()),
        None => None,
    }
}

/// What `serde_json::Value` is written as by its `Display`: compact JSON.
pub uninterp spec fn compact_text(v: Json) -> Seq<char>;

/// `serde_json::Value::to_string`: a function of what the value holds, only named.
#[verifier::external_body]
pub(crate) fn write_compact(v: &serde_json::Value) -> (r: String)
    ensures
        r@ == compact_text(json_of(*v)),
{
    v.to_string()
}

/// What `serde_json::to_string_pretty` writes a value as, where it succeeds.
pub uninterp spec fn pretty_text(v: Json) -> Option<Seq<char>>;

/// `serde_json::to_string_pretty`: a function of what the value holds, only named.
#[verifier::external_body]
pub(crate) fn write_pretty(v: &serde_json::Value) -> (r: Option<String>)
    ensures
        (match r {
            Some(t) => Some(t@),
            None => None,
        }) == pretty_text(json_of(*v)),
{
    match serde_json::to_string_pretty(v) {
        Ok(text) => Some(text),
        Err(_) => None,
    }
}

/// What `serde_json::from_str` reads a text as: a value, or the complaint of its error.
pub uninterp spec fn json_reading(text: Seq<char>) -> Result<Json, Seq<char>>;

/// `serde_json::from_str` into a `serde_json::Value`: a function of the text alone,
/// only named. An error is handed out as what its `Display` says.
#[verifier::external_body]
pub(crate) fn read_json(text: &str) -> (r: Result<serde_json::Value, String>)
    ensures
        (match r {
            Ok(v) => Ok(json_of(v)),
            Err(complaint) => Err(complaint@),
        }) == json_reading(text@),
{
    match serde_json::from_str::<serde_json::Value>(text) {
        Ok(value) => Ok(value),
        Err(e) => Err(e.to_string()),
    }
}

/// The value of a hexadecimal digit of either case.
pub open spec fn hex_value(c: char) -> Option<nat> {
    if '0' <= c <= '9' {
        Some((c as nat - '0' as nat) as nat)
    } else if 'a' <= c <= 'f' {
        Some((c as nat - 'a' as nat + 10) as nat)
    } else if 'A' <= c <= 'F' {
        Some((c as nat - 'A' as nat + 10) as nat)
    } else {
        None
    }
}

/// The number that a row of hexadecimal digits denotes.
pub open spec fn hex_number(s: Seq<char>) -> Option<nat>
    decreases s.len(),
{
    if s.len() == 0 {
        Some(0)
    } else {
        match (hex_number(s.drop_last()), hex_value(s.last())) {
            (Some(high), Some(low)) => Some(16 * high + low),
            _ => None,
        }
    }
}

/// The digits of an id in its hyphenated form.
pub open spec fn undashed(s: Seq<char>) -> Option<nat> {
    if s.len() == 36 && s[8] == '-' && s[13] == '-' && s[18] == '-' && s[23] == '-' {
        hex_number(
            s.subrange(0, 8) + s.subrange(9, 13) + s.subrange(14, 18) + s.subrange(19, 23)
                + s.subrange(24, 36),
        )
    } else {
        None
    }
}

/// Whether a text starts with `urn:uuid:`, in either case.
pub open spec fn starts_with_urn(s: Seq<char>) -> bool {
    let mark = seq!['u', 'r', 'n', ':', 'u', 'u', 'i', 'd', ':'];
    s.len() >= 9 && forall|i: int|
        0 <= i < 9 ==> s[i] == #[trigger] mark[i] || ('a' <= mark[i] <= 'z' && s[i] as nat + 32
            == mark[i] as nat)
}

/// The id that a text names: thirty-two hexadecimal digits, or the hyphenated form,
/// alone, in braces or behind `urn:uuid:`.
pub open spec fn uuid_named(s: Seq<char>) -> Option<nat> {
    if s.len() == 32 {
        hex_number(s)
    } else if s.len() == 36 {
        undashed(s)
    } else if s.len() == 38 && s[0] == '{' && s[37] == '}' {
        undashed(s.subrange(1, 37))
    } else if s.len() == 45 && starts_with_urn(s) {
        undashed(s.skip(9))
    } else {
        None
    }
}

/// `uuid::Uuid::parse_str`, with the id as its 128-bit number.
#[verifier::external_body]
pub(crate) fn read_uuid(text: &str) -> (r: Option<u128>)
    ensures
        r == (match uuid_named(text@) {
            Some(id) => Some(id as u128),
            None => None,
        }),
{
    match uuid::Uuid::parse_str(text) {
        Ok(id) => Some(id.as_u128()),
        Err(_) => None,
    }
}

/// The lower-case hexadecimal digit for a number below sixteen.
pub open spec fn hex_digit(d: nat) -> char {
    if d < 10 {
        ('0' as nat + d) as char
    } else {
        ('a' as nat + d - 10) as char
    }
}

/// The last `width` hexadecimal digits of a number.
pub open spec fn hex_text(n: nat, width: nat) -> Seq<char>
    decreases width,
{
    if width == 0 {
        Seq::empty()
    } else {
        hex_text(n / 16, (width - 1) as nat).push(hex_digit(n % 16))
    }
}

/// An id in its hyphenated form: groups of eight, four, four, four and twelve
/// lower-case hexadecimal digits.
pub open spec fn hyphenated(id: u128) -> Seq<char> {
    let h = hex_text(id as nat, 32);
    h.subrange(0, 8) + seq!['-'] + h.subrange(8, 12) + seq!['-'] + h.subrange(12, 16) + seq!['-']
        + h.subrange(16, 20) + seq!['-'] + h.subrange(20, 32)
}

/// `uuid::Uuid::to_string`, of the id with a given 128-bit number.
#[verifier::external_body]
pub(crate) fn write_uuid(id: u128) -> (r: String)
    ensures
        r@ == hyphenated(id),
{
    uuid::Uuid::from_u128(id).to_string()
}

/// Sixteen to a power.
pub open spec fn sixteen_to(power: nat) -> nat
    decreases power,
{
    if power == 0 {
        1
    } else {
        16 * sixteen_to((power - 1) as nat)
    }
}

proof fn lemma_hex_text(n: nat, width: nat)
    requires
        n < sixteen_to(width),
    ensures
        hex_text(n, width).len() == width,
        hex_number(hex_text(n, width)) == Some(n),
    decreases width,
{
    if width > 0 {
        let w = (width - 1) as nat;
        lemma_hex_text(n / 16, w);
        let s = hex_text(n, width);
        assert(s.drop_last() == hex_text(n / 16, w));
        assert(s.last() == hex_digit(n % 16));
        assert(hex_value(hex_digit(n % 16)) == Some(n % 16));
    }
}

/// Every id is named by its hyphenated form.
pub proof fn hyphenated_names_the_id(id: u128)
    ensures
        hyphenated(id).len() == 36,
        uuid_named(hyphenated(id)) == Some(id as nat),
{
    assert(sixteen_to(32) == 0x1_0000_0000_0000_0000_0000_0000_0000_0000) by {
        reveal_with_fuel(sixteen_to, 33);
    }
    lemma_hex_text(id as nat, 32);
    let h = hex_text(id as nat, 32);
    let s = hyphenated(id);
    assert(s.subrange(0, 8) + s.subrange(9, 13) + s.subrange(14, 18) + s.subrange(19, 23)
        + s.subrange(24, 36) =~= h);
}

/// No two ids have the same hyphenated form.
pub proof fn hyphenated_is_unique(a: u128, b: u128)
    ensures
        (hyphenated(a) == hyphenated(b)) == (a == b),
{
    hyphenated_names_the_id(a);
    hyphenated_names_the_id(b);
}

} // verus!
