//! The JSON documents a sonnen battery answers with, as the reader sees them:
//! every value together with its JSON text, numbers together with their
//! value as a 64-bit signed integer where they have one.
use vstd::prelude::*;

use crate::text::{decimal, decimal_string, float_text, is_float_text, trim_quotes, trim_quotes_str};

verus! {

/// What a JSON value is.
#[derive(Debug)]
pub enum JsonValue {
    Null,
    Bool(bool),
    /// A number; it holds the number as an `i64` where the number is an
    /// integer that fits in one, and `None` otherwise.
    Number(Option<i64>),
    Str(String),
    Array(Vec<Json>),
    /// The members of an object, in the order the decoder lists them
    /// (serde_json, as built here, lists them sorted by name); a lookup
    /// takes the first member with the name it looks for.
    Object(Vec<(String, Json)>),
}

/// A JSON value and its JSON text (what the value renders to). Counts are
/// read from the value and measurements from the text, as a JSON decoder's
/// integer view and rendering give them; [`Json::text_fits_value`] states
/// how the two agree.
#[derive(Debug)]
pub struct Json {
    pub value: JsonValue,
    pub text: String,
}

/// serde_json's decoded JSON value.
#[verifier::external_type_specification]
#[verifier::external_body]
pub struct ExJsonValue(serde_json::Value);

/// The library's model of a value serde_json decoded, one for one: each
/// value with serde_json's rendering of it (`to_string`), each number with
/// serde_json's `as_i64` of it, object members in the order serde_json's
/// map lists them. Nothing is claimed of the result here; `parse_json`
/// states what holds of a decoded document.
#[verifier::external_body]
fn value_to_json(v: &serde_json::Value) -> Json {
    let value = match v {
        serde_json::Value::Null => JsonValue::Null,
        serde_json::Value::Bool(b) => JsonValue::Bool(*b),
        serde_json::Value::Number(n) => JsonValue::Number(n.as_i64()),
        serde_json::Value::String(t) => JsonValue::Str(t.clone()),
        serde_json::Value::Array(a) => JsonValue::Array(a.iter().map(value_to_json).collect()),
        serde_json::Value::Object(m) => JsonValue::Object(
            m.iter().map(|(k, x)| (k.clone(), value_to_json(x))).collect(),
        ),
    };
    Json { value, text: v.to_string() }
}

/// What serde_json decodes `text` into (`None` where it refuses the text).
pub uninterp spec fn decoded_json(text: Seq<char>) -> Option<Json>;

/// serde_json's `from_str` into a `Value`, modelled by `value_to_json`.
/// Claimed: the result is the decoding named `decoded_json` of the text,
/// and a decoded document's text fits its value (serde_json renders null,
/// `true`, `false`, integers in decimal, other numbers as a decimal that
/// reads as an `f64`, strings quoted, arrays and objects bracketed).
/// The error message is serde_json's and nothing is claimed of it.
#[verifier::external_body]
fn parse_json(text: &str) -> (r: Result<Json, String>)
    ensures
        match r {
            Ok(j) => decoded_json(text@) == Some(j) && j.text_fits_value(),
            Err(_) => decoded_json(text@) is None,
        },
{
    match serde_json::from_str::<serde_json::Value>(text) {
        Ok(v) => Ok(value_to_json(&v)),
        Err(e) => Err(e.to_string()),
    }
}

/// A document that could not be decoded, with the decoder's message.
#[derive(Debug)]
pub struct JsonError {
    pub message: String,
}

/// Decodes the JSON document `text`.
pub fn decode(text: &str) -> (r: Result<Json, JsonError>)
    ensures
        match r {
            Ok(j) => decoded_json(text@) == Some(j) && j.text_fits_value(),
            Err(_) => decoded_json(text@) is None,
        },
{
    match parse_json(text) {
        Ok(j) => Ok(j),
        Err(message) => Err(JsonError { message }),
    }
}

/// The value of the first member of `entries` named `key`.
pub open spec fn member(entries: Seq<(String, Json)>, key: Seq<char>) -> Option<Json>
    decreases entries.len(),
{
    if entries.len() == 0 {
        None
    } else if entries[0].0@ == key {
        Some(entries[0].1)
    } else {
        member(entries.drop_first(), key)
    }
}

/// The reading a member stands for: its JSON text with the quotes trimmed.
pub open spec fn member_reading(entries: Seq<(String, Json)>, key: Seq<char>) -> Seq<char> {
    member(entries, key).unwrap().spec_reading()
}

proof fn lemma_member_step(entries: Seq<(String, Json)>, key: Seq<char>, i: int)
    requires
        0 <= i < entries.len(),
        entries[i].0@ != key,
    ensures
        member(entries.subrange(i, entries.len() as int), key) == member(
            entries.subrange(i + 1, entries.len() as int),
            key,
        ),
{
    assert(entries.subrange(i, entries.len() as int).drop_first() =~= entries.subrange(
        i + 1,
        entries.len() as int,
    ));
}

/// The position of the first member of `entries` named `key`.
pub fn member_index(entries: &Vec<(String, Json)>, key: &str) -> (r: Option<usize>)
    ensures
        r is None <==> member(entries@, key@) is None,
        r matches Some(i) ==> {
            &&& i < entries@.len()
            &&& entries@[i as int].0@ == key@
            &&& forall|j: int| 0 <= j < i ==> (#[trigger] entries@[j]).0@ != key@
            &&& member(entries@, key@) == Some(entries@[i as int].1)
        },
{
    let wanted = key.to_owned();
    let n = entries.len();
    let mut i: usize = 0;
    assert(entries@.subrange(0, n as int) =~= entries@);
    while i < n
        invariant
            n == entries@.len(),
            i <= n,
            wanted@ == key@,
            member(entries@, key@) == member(entries@.subrange(i as int, n as int), key@),
            forall|j: int| 0 <= j < i ==> (#[trigger] entries@[j]).0@ != key@,
        decreases n - i,
    {
        if entries[i].0 == wanted {
            assert(entries@.subrange(i as int, n as int)[0] == entries@[i as int]);
            return Some(i);
        }
        proof {
            lemma_member_step(entries@, key@, i as int);
        }
        i = i + 1;
    }
    None
}

/// The reading of the member named `key` (the member must be there).
pub fn entry_reading(entries: &Vec<(String, Json)>, key: &str) -> (r: String)
    requires
        member(entries@, key@) is Some,
    ensures
        r@ == member_reading(entries@, key@),
{
    match member_index(entries, key) {
        Some(i) => entries[i].1.reading(),
        None => String::new(),
    }
}

/// `entries` has a member named `key` whose reading reads as an `f64`.
pub open spec fn numeric_member(entries: Seq<(String, Json)>, key: Seq<char>) -> bool {
    &&& member(entries, key) is Some
    &&& float_text(member_reading(entries, key))
}

/// Whether `entries` has a member named `key` whose reading reads as an `f64`.
pub fn check_numeric_member(entries: &Vec<(String, Json)>, key: &str) -> (r: bool)
    ensures
        r == numeric_member(entries@, key@),
{
    match member_index(entries, key) {
        Some(i) => {
            let reading = entries[i].1.reading();
            is_float_text(reading.as_str())
        },
        None => false,
    }
}

/// The text of an integer: its decimal notation, after a minus sign when it
/// is negative.
pub open spec fn integer_text(i: int) -> Seq<char> {
    if i < 0 {
        seq!['-'] + decimal((-i) as nat)
    } else {
        decimal(i as nat)
    }
}

/// The text of a 64-bit integer.
pub fn integer_string(i: i64) -> (r: String)
    ensures
        r@ == integer_text(i as int),
{
    if i < 0 {
        let mut r = String::from_str("-");
        proof {
            reveal_strlit("-");
        }
        let magnitude = decimal_string((-(i as i128)) as u64);
        r.append(magnitude.as_str());
        r
    } else {
        decimal_string(i as u64)
    }
}

/// `t` has at least two characters, starts with `open` and ends with `close`.
pub open spec fn enclosed(t: Seq<char>, open: char, close: char) -> bool {
    t.len() >= 2 && t[0] == open && t.last() == close
}

fn check_enclosed(t: &str, open: char, close: char) -> (r: bool)
    ensures
        r == enclosed(t@, open, close),
{
    let n = t.unicode_len();
    n >= 2 && t.get_char(0) == open && t.get_char(n - 1) == close
}

impl Json {
    /// The text is what the value renders to, as far as the kind of value
    /// tells: "null", "true" or "false"; the decimal notation of an integer
    /// number; a text that reads as an `f64` for any other number; a
    /// quoted text for a string; a bracketed text for an array or object.
    pub open spec fn text_fits_value(self) -> bool {
        match self.value {
            JsonValue::Null => self.text@ == "null"@,
            JsonValue::Bool(b) => self.text@ == if b {
                "true"@
            } else {
                "false"@
            },
            JsonValue::Number(Some(i)) => self.text@ == integer_text(i as int),
            JsonValue::Number(None) => float_text(self.text@),
            JsonValue::Str(_) => enclosed(self.text@, '"', '"'),
            JsonValue::Array(_) => enclosed(self.text@, '[', ']'),
            JsonValue::Object(_) => enclosed(self.text@, '{', '}'),
        }
    }

    /// Whether the text is what the value renders to (see
    /// [`Json::text_fits_value`]).
    pub fn check_text_fits_value(&self) -> (r: bool)
        ensures
            r == self.text_fits_value(),
    {
        match &self.value {
            JsonValue::Null => self.text == String::from_str("null"),
            JsonValue::Bool(b) => if *b {
                self.text == String::from_str("true")
            } else {
                self.text == String::from_str("false")
            },
            JsonValue::Number(Some(i)) => self.text == integer_string(*i),
            JsonValue::Number(None) => is_float_text(self.text.as_str()),
            JsonValue::Str(_) => check_enclosed(self.text.as_str(), '"', '"'),
            JsonValue::Array(_) => check_enclosed(self.text.as_str(), '[', ']'),
            JsonValue::Object(_) => check_enclosed(self.text.as_str(), '{', '}'),
        }
    }

    /// The member `key` of this value, when it is an object that has one.
    pub open spec fn spec_field(self, key: Seq<char>) -> Option<Json> {
        match self.value {
            JsonValue::Object(entries) => member(entries@, key),
            _ => None,
        }
    }

    /// This value as an `i64`, when it is a number that is such an integer.
    pub open spec fn spec_as_i64(self) -> Option<i64> {
        match self.value {
            JsonValue::Number(n) => n,
            _ => None,
        }
    }

    /// The members of this value, when it is an object.
    pub open spec fn spec_as_object(self) -> Option<Seq<(String, Json)>> {
        match self.value {
            JsonValue::Object(entries) => Some(entries@),
            _ => None,
        }
    }

    /// The member `key` as an `i64`.
    pub open spec fn spec_int_field(self, key: Seq<char>) -> Option<i64> {
        match self.spec_field(key) {
            Some(j) => j.spec_as_i64(),
            None => None,
        }
    }

    /// The members of the member `key`, when that member is an object.
    pub open spec fn spec_object_field(self, key: Seq<char>) -> Option<Seq<(String, Json)>> {
        match self.spec_field(key) {
            Some(j) => j.spec_as_object(),
            None => None,
        }
    }

    /// The text this value stands for as a reading: its JSON text with
    /// the enclosing double quotes trimmed.
    pub open spec fn spec_reading(self) -> Seq<char> {
        trim_quotes(self.text@)
    }

    /// The member `key` of this value, when it is an object that has one.
    pub fn field(&self, key: &str) -> (r: Option<&Json>)
        ensures
            match r {
                Some(j) => self.spec_field(key@) == Some(*j),
                None => self.spec_field(key@) is None,
            },
    {
        match &self.value {
            JsonValue::Object(entries) => match member_index(entries, key) {
                Some(i) => Some(&entries[i].1),
                None => None,
            },
            _ => None,
        }
    }

    /// This value as an `i64`, when it is a number that is such an integer.
    pub fn as_i64(&self) -> (r: Option<i64>)
        ensures
            r == self.spec_as_i64(),
    {
        match &self.value {
            JsonValue::Number(n) => *n,
            _ => None,
        }
    }

    /// The members of this value, when it is an object.
    pub fn as_object(&self) -> (r: Option<&Vec<(String, Json)>>)
        ensures
            match r {
                Some(e) => self.spec_as_object() == Some(e@),
                None => self.spec_as_object() is None,
            },
    {
        match &self.value {
            JsonValue::Object(entries) => Some(entries),
            _ => None,
        }
    }

    /// The member `key` as an `i64`.
    pub fn int_field(&self, key: &str) -> (r: Option<i64>)
        ensures
            r == self.spec_int_field(key@),
    {
        match self.field(key) {
            Some(j) => j.as_i64(),
            None => None,
        }
    }

    /// The members of the member `key`, when that member is an object.
    pub fn object_field(&self, key: &str) -> (r: Option<&Vec<(String, Json)>>)
        ensures
            match r {
                Some(e) => self.spec_object_field(key@) == Some(e@),
                None => self.spec_object_field(key@) is None,
            },
    {
        match self.field(key) {
            Some(j) => j.as_object(),
            None => None,
        }
    }

    /// The text this value stands for as a reading: its JSON text with
    /// the enclosing double quotes trimmed.
    pub fn reading(&self) -> (r: String)
        ensures
            r@ == self.spec_reading(),
    {
        trim_quotes_str(self.text.as_str())
    }
}

} // verus!
