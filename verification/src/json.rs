//! Reading the members of a JSON document.
//!
//! Parsing is left to `serde_json`. Of a parsed document the library reads
//! single members by their key, each as a `JsonField`, and decides from
//! those what the document says.

use vstd::prelude::*;

verus! {

/// `serde_json::Value`, taken as it is: the library reads a document only
/// through `json_members`.
#[verifier::external_type_specification]
#[verifier::external_body]
pub struct ExValue(serde_json::Value);

/// `serde_json::Error`, taken as it is: the library hands it on unread.
#[verifier::external_type_specification]
#[verifier::external_body]
pub struct ExJsonError(serde_json::Error);

/// What a document holds under one key.
pub enum Member {
    /// The document has no member with that key, or is not an object.
    Absent,
    /// `null`.
    Null,
    /// A string.
    Text(Seq<char>),
    /// A number, with its value where `Number::as_u64` has one for it: the
    /// number is then whole and lies between 0 and `u64::MAX`.
    Number(Option<u64>),
    /// A boolean, an array or an object.
    Other,
}

/// What `serde_json::from_str` makes of `text` when asked for a `Value`:
/// the document, or the reason why `text` is not JSON.
pub uninterp spec fn json_parse(text: Seq<char>) -> Result<serde_json::Value, serde_json::Error>;

/// The members of a document that is an object, by their keys. A document
/// that is not an object has none.
pub uninterp spec fn json_members(doc: serde_json::Value) -> Map<Seq<char>, Member>;

/// What `doc` holds under `key`.
pub open spec fn json_member(doc: serde_json::Value, key: Seq<char>) -> Member {
    if json_members(doc).dom().contains(key) {
        json_members(doc)[key]
    } else {
        Member::Absent
    }
}

/// What a document holds under one key, as read from it.
#[derive(Debug)]
pub enum JsonField {
    /// The document has no member with that key, or is not an object.
    Absent,
    /// `null`.
    Null,
    /// A string.
    Text(String),
    /// A number, with its value where `Number::as_u64` has one for it: the
    /// number is then whole and lies between 0 and `u64::MAX`.
    Number(Option<u64>),
    /// A boolean, an array or an object.
    Other,
}

impl View for JsonField {
    type V = Member;

    open spec fn view(&self) -> Member {
        match *self {
            JsonField::Absent => Member::Absent,
            JsonField::Null => Member::Null,
            JsonField::Text(s) => Member::Text(s@),
            JsonField::Number(n) => Member::Number(n),
            JsonField::Other => Member::Other,
        }
    }
}

/// Why a document could not be decoded.
#[derive(Debug)]
pub enum DecodeError {
    /// The text is not JSON.
    Syntax(serde_json::Error),
    /// A member that must be there is absent.
    MissingField(&'static str),
    /// A member holds a value of another type than the one expected.
    InvalidType(&'static str),
    /// A member holds a name that its vocabulary does not have.
    UnknownVariant(&'static str, String),
}

/// The model of a `DecodeError`.
pub enum DecodeFailure {
    /// The text is not JSON.
    Syntax(serde_json::Error),
    /// A member that must be there is absent; its key.
    MissingField(Seq<char>),
    /// A member holds a value of another type than the one expected; its key.
    InvalidType(Seq<char>),
    /// A member holds a name that its vocabulary does not have; its key and
    /// the name.
    UnknownVariant(Seq<char>, Seq<char>),
}

impl View for DecodeError {
    type V = DecodeFailure;

    open spec fn view(&self) -> DecodeFailure {
        match *self {
            DecodeError::Syntax(e) => DecodeFailure::Syntax(e),
            DecodeError::MissingField(key) => DecodeFailure::MissingField(key@),
            DecodeError::InvalidType(key) => DecodeFailure::InvalidType(key@),
            DecodeError::UnknownVariant(key, name) => DecodeFailure::UnknownVariant(key@, name@),
        }
    }
}

/// Calls `serde_json::from_str` for a `Value`. Nothing is proved of it: the
/// result is known only as `json_parse` of the argument.
#[verifier::external_body]
pub(crate) fn parse_json(text: &str) -> (parsed: Result<serde_json::Value, serde_json::Error>)
    ensures
        parsed == json_parse(text@),
{
    serde_json::from_str::<serde_json::Value>(text)
}

/// Looks `key` up in `doc` by `Value::get`, which finds a member only in an
/// object, and tells the variants of the `Value` found apart. A number is
/// read by `Number::as_u64`.
#[verifier::external_body]
pub(crate) fn read_member(doc: &serde_json::Value, key: &str) -> (field: JsonField)
    ensures
        field@ == if json_members(*doc).dom().contains(key@) {
            json_members(*doc)[key@]
        } else {
            Member::Absent
        },
{
    match doc.get(key) {
        None => JsonField::Absent,
        Some(serde_json::Value::Null) => JsonField::Null,
        Some(serde_json::Value::String(s)) => JsonField::Text(s.clone()),
        Some(serde_json::Value::Number(n)) => JsonField::Number(n.as_u64()),
        Some(serde_json::Value::Bool(_)) => JsonField::Other,
        Some(serde_json::Value::Array(_)) => JsonField::Other,
        Some(serde_json::Value::Object(_)) => JsonField::Other,
    }
}

/// The text of a member that must be there and hold a string.
pub open spec fn required_text(member: Member, key: Seq<char>) -> Result<Seq<char>, DecodeFailure> {
    match member {
        Member::Text(s) => Ok(s),
        Member::Absent => Err(DecodeFailure::MissingField(key)),
        _ => Err(DecodeFailure::InvalidType(key)),
    }
}

/// The text of a member that may be absent or `null`, and holds a string
/// otherwise.
pub open spec fn optional_text(member: Member, key: Seq<char>) -> Result<
    Option<Seq<char>>,
    DecodeFailure,
> {
    match member {
        Member::Text(s) => Ok(Some(s)),
        Member::Absent | Member::Null => Ok(None),
        _ => Err(DecodeFailure::InvalidType(key)),
    }
}

/// The value of a member that may be absent or `null`, and holds a whole
/// number from 0 to `u64::MAX` otherwise.
pub open spec fn optional_number(member: Member, key: Seq<char>) -> Result<
    Option<u64>,
    DecodeFailure,
> {
    match member {
        Member::Number(Some(n)) => Ok(Some(n)),
        Member::Absent | Member::Null => Ok(None),
        _ => Err(DecodeFailure::InvalidType(key)),
    }
}

/// Reads a member that must be there and hold a string.
pub fn read_required_text(field: JsonField, key: &'static str) -> (text: Result<String, DecodeError>)
    ensures
        match text {
            Ok(s) => required_text(field@, key@) == Ok::<Seq<char>, DecodeFailure>(s@),
            Err(e) => required_text(field@, key@) == Err::<Seq<char>, DecodeFailure>(e@),
        },
{
    match field {
        JsonField::Text(s) => Ok(s),
        JsonField::Absent => Err(DecodeError::MissingField(key)),
        _ => Err(DecodeError::InvalidType(key)),
    }
}

/// Reads a member that may be absent or `null`, and holds a string
/// otherwise.
pub fn read_optional_text(field: JsonField, key: &'static str) -> (text: Result<
    Option<String>,
    DecodeError,
>)
    ensures
        match text {
            Ok(Some(s)) => optional_text(field@, key@) == Ok::<Option<Seq<char>>, DecodeFailure>(
                Some(s@),
            ),
            Ok(None) => optional_text(field@, key@) == Ok::<Option<Seq<char>>, DecodeFailure>(None),
            Err(e) => optional_text(field@, key@) == Err::<Option<Seq<char>>, DecodeFailure>(e@),
        },
{
    match field {
        JsonField::Text(s) => Ok(Some(s)),
        JsonField::Absent => Ok(None),
        JsonField::Null => Ok(None),
        _ => Err(DecodeError::InvalidType(key)),
    }
}

/// Reads a member that may be absent or `null`, and holds a whole number
/// from 0 to `u64::MAX` otherwise.
pub fn read_optional_number(field: JsonField, key: &'static str) -> (number: Result<
    Option<u64>,
    DecodeError,
>)
    ensures
        match number {
            Ok(n) => optional_number(field@, key@) == Ok::<Option<u64>, DecodeFailure>(n),
            Err(e) => optional_number(field@, key@) == Err::<Option<u64>, DecodeFailure>(e@),
        },
{
    match field {
        JsonField::Number(Some(n)) => Ok(Some(n)),
        JsonField::Absent => Ok(None),
        JsonField::Null => Ok(None),
        _ => Err(DecodeError::InvalidType(key)),
    }
}

} // verus!
