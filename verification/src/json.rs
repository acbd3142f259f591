//! A plain model of JSON documents and the accessors that the decoders use.
//!
//! Parsing is left to `serde_json`; what comes back is copied into [`Json`],
//! a tree of plain values that the rest of the crate reads.

use vstd::prelude::*;
use crate::text::str_eq;

verus! {

/// A JSON document.
#[derive(Debug, PartialEq)]
pub enum Json {
    /// `null`
    Null,
    /// `true` or `false`
    Bool(bool),
    /// A number.
    Number(Number),
    /// A string.
    Text(String),
    /// An array.
    Array(Vec<Json>),
    /// An object, as its members.
    Object(Vec<Member>),
}

/// A JSON number, as the parser hands it on.
#[derive(Debug, PartialEq)]
pub struct Number {
    /// The value, where the number is an integer that fits `i64`.
    pub integer: Option<i64>,
    /// The number in decimal notation.
    pub text: String,
}

/// One member of a JSON object.
#[derive(Debug, PartialEq)]
pub struct Member {
    pub name: String,
    pub value: Json,
}

/// Makes `serde_json::Value` known as a type whose inside is never looked
/// at: a value of it is only ever copied into a [`Json`].
#[verifier::external_type_specification]
#[verifier::external_body]
pub struct ExJsonValue(serde_json::Value);

/// The document that `serde_json` reads from a text, `None` where it rejects
/// the text.
pub uninterp spec fn parsed_json(text: Seq<char>) -> Option<Json>;

/// Copies a `serde_json::Value` into a [`Json`], variant by variant. A number
/// is kept as what `serde_json::Number::as_i64` gives for it, beside the text
/// that its `Display` writes. Nothing is claimed of the result.
#[verifier::external_body]
fn json_from_value(value: serde_json::Value) -> (json: Json) {
    match value {
        serde_json::Value::Null => Json::Null,
        serde_json::Value::Bool(flag) => Json::Bool(flag),
        serde_json::Value::Number(number) => Json::Number(
            Number { integer: number.as_i64(), text: number.to_string() },
        ),
        serde_json::Value::String(text) => Json::Text(text),
        serde_json::Value::Array(items) => Json::Array(
            items.into_iter().map(json_from_value).collect(),
        ),
        serde_json::Value::Object(members) => Json::Object(
            members.into_iter().map(|(name, value)| Member { name, value: json_from_value(value) }).collect(),
        ),
    }
}

/// Parses a text with `serde_json::from_str`. The contract only names the
/// result: the same text always gives the same document, and a text that
/// `serde_json` rejects gives `None`.
#[verifier::external_body]
pub(crate) fn parse_json(text: &str) -> (parsed: Option<Json>)
    ensures
        parsed == parsed_json(text@),
{
    match serde_json::from_str::<serde_json::Value>(text) {
        Ok(value) => Some(json_from_value(value)),
        Err(_) => None,
    }
}

/// The JSON string that `serde_json` writes for a text: the text between
/// double quotes, with the escapes that JSON asks for.
pub uninterp spec fn quoted_json(text: Seq<char>) -> Seq<char>;

/// Whether a text holds nothing that a JSON string has to escape: no
/// character below the space, no double quote and no backslash.
pub open spec fn is_plain_json_text(text: Seq<char>) -> bool {
    forall|i: int|
        0 <= i < text.len() ==> ' ' <= #[trigger] text[i] && text[i] != '"' && text[i] != '\\'
}

/// A text between two double quotes.
pub open spec fn spec_in_quotes(text: Seq<char>) -> Seq<char> {
    seq!['"'] + text + seq!['"']
}

/// Whether the JSON string of a text is known: that of a text with nothing
/// to escape is the text between two double quotes.
pub open spec fn spec_quoting_known(text: Seq<char>) -> bool {
    is_plain_json_text(text) ==> quoted_json(text) == spec_in_quotes(text)
}

/// Writes a text as a JSON string: makes a `serde_json::Value` of it with
/// `Value::from` and writes that with its `Display`, in the compact form. The
/// contract names the result: the same text always gives the same string.
/// It also says what the string is where nothing is escaped: `serde_json`
/// escapes the characters below the space, the double quote and the
/// backslash, and writes every other character as it is, between two double
/// quotes.
#[verifier::external_body]
pub(crate) fn quote_json(text: &str) -> (quoted: String)
    ensures
        quoted@ == quoted_json(text@),
        is_plain_json_text(text@) ==> quoted@ == spec_in_quotes(text@),
{
    serde_json::Value::from(text).to_string()
}

/// The value of the first member called `name`, if there is one.
pub open spec fn spec_lookup(members: Seq<Member>, name: Seq<char>) -> Option<Json>
    decreases members.len(),
{
    if members.len() == 0 {
        None
    } else if members[0].name@ == name {
        Some(members[0].value)
    } else {
        spec_lookup(members.drop_first(), name)
    }
}

impl Json {
    /// The value of the member `name` of an object; `None` for anything that
    /// is not an object or has no such member.
    pub open spec fn spec_member(self, name: Seq<char>) -> Option<Json> {
        match self {
            Json::Object(members) => spec_lookup(members@, name),
            _ => None,
        }
    }

    /// The text of a string; `None` for anything else.
    pub open spec fn spec_text(self) -> Option<Seq<char>> {
        match self {
            Json::Text(text) => Some(text@),
            _ => None,
        }
    }

    /// The string itself; `None` for anything else.
    pub open spec fn spec_string(self) -> Option<String> {
        match self {
            Json::Text(text) => Some(text),
            _ => None,
        }
    }

    /// The value of a boolean; `None` for anything else.
    pub open spec fn spec_bool(self) -> Option<bool> {
        match self {
            Json::Bool(flag) => Some(flag),
            _ => None,
        }
    }

    /// The value of an integer that fits `i64`; `None` for anything else.
    pub open spec fn spec_integer(self) -> Option<i64> {
        match self {
            Json::Number(number) => number.integer,
            _ => None,
        }
    }

    /// The decimal notation of a number, or the text of a string, which is
    /// how the API writes most amounts; `None` for anything else.
    pub open spec fn spec_decimal(self) -> Option<Seq<char>> {
        match self {
            Json::Number(number) => Some(number.text@),
            Json::Text(text) => Some(text@),
            _ => None,
        }
    }

    /// The string that holds the decimal notation of a number, or a string
    /// itself; `None` for anything else.
    pub open spec fn spec_decimal_string(self) -> Option<String> {
        match self {
            Json::Number(number) => Some(number.text),
            Json::Text(text) => Some(text),
            _ => None,
        }
    }

    /// The items of an array; `None` for anything else.
    pub open spec fn spec_items(self) -> Option<Seq<Json>> {
        match self {
            Json::Array(items) => Some(items@),
            _ => None,
        }
    }

    /// Looks a member of an object up by its name.
    pub fn member(&self, name: &str) -> (found: Option<&Json>)
        ensures
            match found {
                Some(value) => self.spec_member(name@) == Some(*value),
                None => self.spec_member(name@) is None,
            },
    {
        match self {
            Json::Object(members) => {
                let mut index: usize = 0;
                assert(members@.subrange(0, members@.len() as int) == members@);
                while index < members.len()
                    invariant
                        index <= members.len(),
                        self.spec_member(name@) == spec_lookup(members@, name@),
                        spec_lookup(members@, name@) == spec_lookup(
                            members@.subrange(index as int, members@.len() as int),
                            name@,
                        ),
                    decreases members.len() - index,
                {
                    let ghost rest = members@.subrange(index as int, members@.len() as int);
                    assert(rest[0] == members@[index as int]);
                    assert(rest.drop_first() == members@.subrange(
                        index as int + 1,
                        members@.len() as int,
                    ));
                    if str_eq(members[index].name.as_str(), name) {
                        assert(spec_lookup(rest, name@) == Some(rest[0].value));
                        return Some(&members[index].value);
                    }
                    index = index + 1;
                }
                None
            },
            _ => None,
        }
    }

    /// The text of a string.
    pub fn as_text(&self) -> (text: Option<&String>)
        ensures
            match text {
                Some(held) => self.spec_text() == Some(held@) && self.spec_string() == Some(*held),
                None => self.spec_text() is None && self.spec_string() is None,
            },
    {
        match self {
            Json::Text(text) => Some(text),
            _ => None,
        }
    }

    /// The value of a boolean.
    pub fn as_bool(&self) -> (flag: Option<bool>)
        ensures
            flag == self.spec_bool(),
    {
        match self {
            Json::Bool(flag) => Some(*flag),
            _ => None,
        }
    }

    /// The value of an integer that fits `i64`.
    pub fn as_integer(&self) -> (value: Option<i64>)
        ensures
            value == self.spec_integer(),
    {
        match self {
            Json::Number(number) => number.integer,
            _ => None,
        }
    }

    /// The decimal notation of a number, or the text of a string.
    pub fn as_decimal(&self) -> (text: Option<&String>)
        ensures
            match text {
                Some(held) => self.spec_decimal() == Some(held@) && self.spec_decimal_string()
                    == Some(*held),
                None => self.spec_decimal() is None && self.spec_decimal_string() is None,
            },
    {
        match self {
            Json::Number(number) => Some(&number.text),
            Json::Text(text) => Some(text),
            _ => None,
        }
    }

    /// The items of an array.
    pub fn as_items(&self) -> (items: Option<&Vec<Json>>)
        ensures
            match items {
                Some(held) => self.spec_items() == Some(held@),
                None => self.spec_items() is None,
            },
    {
        match self {
            Json::Array(items) => Some(items),
            _ => None,
        }
    }
}

} // verus!
