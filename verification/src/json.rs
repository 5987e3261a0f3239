//! JSON text, read and written by `serde_json`.

use vstd::prelude::*;

verus! {

/// `serde_json::Value`, a JSON value. The proofs know nothing of what is
/// inside one but what `string_members` says.
#[verifier::external_type_specification]
#[verifier::external_body]
pub struct ExValue(serde_json::Value);

/// The members of a JSON object whose values are strings, by key. The map is
/// empty for a value that is not an object.
pub uninterp spec fn string_members(doc: serde_json::Value) -> Map<Seq<char>, Seq<char>>;

/// What `string_members` is of the value that a text is the JSON notation
/// of; `None` for a text that is not the notation of one JSON value.
pub uninterp spec fn parsed_members(text: Seq<char>) -> Option<Map<Seq<char>, Seq<char>>>;

/// The JSON string literal that stands for a text: the text between double
/// quotes, with the characters escaped that JSON does not take as they are.
pub uninterp spec fn string_literal(text: Seq<char>) -> Seq<char>;

/// Trusted: `serde_json::from_str` at the type `serde_json::Value`. It reads
/// the whole text as one JSON value and fails on anything else; the outcome
/// depends on the text alone, which `parsed_members` names.
#[verifier::external_body]
pub(crate) fn parse(text: &str) -> (doc: Option<serde_json::Value>)
    ensures
        doc matches Some(d) ==> parsed_members(text@) == Some(string_members(d)),
        doc is None ==> parsed_members(text@) is None,
{
    match serde_json::from_str::<serde_json::Value>(text) {
        Ok(d) => Some(d),
        Err(_) => None,
    }
}

/// Trusted: `serde_json::Value::get` with a string index, which finds the
/// member of that key in an object and nothing in any other value. The
/// member is handed out when it is a string.
#[verifier::external_body]
pub(crate) fn string_member(doc: &serde_json::Value, key: &str) -> (value: Option<String>)
    ensures
        value is Some <==> string_members(*doc).contains_key(key@),
        value matches Some(s) ==> s@ == string_members(*doc)[key@],
{
    match doc.get(key) {
        Some(serde_json::Value::String(s)) => Some(s.clone()),
        _ => None,
    }
}

/// Trusted: `serde_json::to_string` at the type `str`, which writes the JSON
/// string literal for a text. Writing a string goes to a buffer in memory and
/// has no error of its own, so the call returns the literal for every text.
#[verifier::external_body]
pub(crate) fn quote(text: &str) -> (literal: String)
    ensures
        literal@ == string_literal(text@),
{
    serde_json::to_string(text).unwrap_or_default()
}

/// Why a text was not taken for the message that was expected.
#[derive(Clone, Copy, Debug, PartialEq, Eq, Structural)]
pub enum DecodeError {
    /// The text is not the notation of one JSON value.
    NotJson,
    /// The value is not an object that holds both members as strings.
    MissingMember,
}

/// The reason in words.
pub open spec fn reason(e: DecodeError) -> Seq<char> {
    match e {
        DecodeError::NotJson => "the text is not JSON"@,
        DecodeError::MissingMember => "a member is missing or is not a string"@,
    }
}

impl DecodeError {
    /// The reason in words.
    pub fn describe(&self) -> (words: &'static str)
        ensures
            words@ == reason(*self),
    {
        match self {
            DecodeError::NotJson => "the text is not JSON",
            DecodeError::MissingMember => "a member is missing or is not a string",
        }
    }
}

/// The two string members with the keys `first` and `second` of the JSON
/// object that `text` is the notation of.
pub open spec fn two_members(text: Seq<char>, first: Seq<char>, second: Seq<char>) -> Result<
    (Seq<char>, Seq<char>),
    DecodeError,
> {
    match parsed_members(text) {
        None => Err(DecodeError::NotJson),
        Some(members) => if members.contains_key(first) && members.contains_key(second) {
            Ok((members[first], members[second]))
        } else {
            Err(DecodeError::MissingMember)
        },
    }
}

/// Reads `text` as a JSON object and hands out its two string members with
/// the keys `first` and `second`. Other members are passed over.
pub fn read_two_members(text: &str, first: &str, second: &str) -> (found: Result<
    (String, String),
    DecodeError,
>)
    ensures
        match found {
            Ok(pair) => two_members(text@, first@, second@) == Ok::<
                (Seq<char>, Seq<char>),
                DecodeError,
            >((pair.0@, pair.1@)),
            Err(e) => two_members(text@, first@, second@) == Err::<
                (Seq<char>, Seq<char>),
                DecodeError,
            >(e),
        },
{
    match parse(text) {
        None => Err(DecodeError::NotJson),
        Some(doc) => {
            match string_member(&doc, first) {
                None => Err(DecodeError::MissingMember),
                Some(a) => match string_member(&doc, second) {
                    None => Err(DecodeError::MissingMember),
                    Some(b) => Ok((a, b)),
                },
            }
        },
    }
}

} // verus!
