//! Validation of the fields of a submitted transaction: text length, integer
//! range and the size of a JSON payload, with the messages that describe a
//! refusal.

use vstd::prelude::*;
use vstd::string::*;

use crate::text::{
    after_first, chars_of, decimal, decimal_text, find_first_in, lemma_find_first_is, occurs_at,
    signed_decimal, signed_decimal_text,
};

verus! {

/// Why a field was refused.
#[derive(Debug, Clone, Copy, PartialEq, Eq, Structural)]
pub enum ValidationError {
    /// The text has fewer characters than allowed.
    TooShort { min_len: usize, len: usize },
    /// The text has more characters than allowed.
    TooLong { max_len: usize, len: usize },
    /// The number is below the allowed range.
    TooLow { min_value: i32, value: i32 },
    /// The number is above the allowed range.
    TooHigh { max_value: i32, value: i32 },
    /// The JSON value is `null`.
    Null,
    /// The JSON value's compact text has more bytes than allowed.
    TooBig { max_size: usize, size: usize },
}

/// The text that marks a refusal inside a larger error message.
pub open spec fn validation_marker() -> Seq<char> {
    ": validation error: "@
}

/// What a refusal says about the value.
pub open spec fn validation_detail(e: ValidationError) -> Seq<char> {
    match e {
        ValidationError::TooShort { min_len: min, len } => "Value too short, min length is "@
            + decimal(min as nat) + ", got "@ + decimal(len as nat),
        ValidationError::TooLong { max_len: max, len } => "Value too long, max length is "@
            + decimal(max as nat) + ", got "@ + decimal(len as nat),
        ValidationError::TooLow { min_value: min, value } => "Value too low, min value is "@
            + signed_decimal(min as int) + ", got "@ + signed_decimal(value as int),
        ValidationError::TooHigh { max_value: max, value } => "Value too high, max value is "@
            + signed_decimal(max as int) + ", got "@ + signed_decimal(value as int),
        ValidationError::Null => "Value must not be null"@,
        ValidationError::TooBig { max_size: max, size: len } => "Value too big, max size is "@
            + decimal(max as nat) + " bytes, got "@ + decimal(len as nat) + " bytes"@,
    }
}

/// The message of a refusal: `validation error: ` and its detail.
pub open spec fn validation_message(e: ValidationError) -> Seq<char> {
    "validation error: "@ + validation_detail(e)
}

fn joined(a: &str, b: String, c: &str, d: String) -> (s: String)
    ensures
        s@ == a@ + b@ + c@ + d@,
{
    let mut s = String::from_str(a);
    s.append(b.as_str());
    s.append(c);
    s.append(d.as_str());
    s
}

impl ValidationError {
    /// What the refusal says about the value.
    pub fn detail(&self) -> (s: String)
        ensures
            s@ == validation_detail(*self),
    {
        match *self {
            ValidationError::TooShort { min_len: min, len } => joined(
                "Value too short, min length is ",
                decimal_text(min as u64),
                ", got ",
                decimal_text(len as u64),
            ),
            ValidationError::TooLong { max_len: max, len } => joined(
                "Value too long, max length is ",
                decimal_text(max as u64),
                ", got ",
                decimal_text(len as u64),
            ),
            ValidationError::TooLow { min_value: min, value } => joined(
                "Value too low, min value is ",
                signed_decimal_text(min as i64),
                ", got ",
                signed_decimal_text(value as i64),
            ),
            ValidationError::TooHigh { max_value: max, value } => joined(
                "Value too high, max value is ",
                signed_decimal_text(max as i64),
                ", got ",
                signed_decimal_text(value as i64),
            ),
            ValidationError::Null => String::from_str("Value must not be null"),
            ValidationError::TooBig { max_size: max, size: len } => {
                let mut s = joined(
                    "Value too big, max size is ",
                    decimal_text(max as u64),
                    " bytes, got ",
                    decimal_text(len as u64),
                );
                s.append(" bytes");
                s
            },
        }
    }

    /// The message of the refusal, as a deserializer reports it.
    pub fn message(&self) -> (s: String)
        ensures
            s@ == validation_message(*self),
    {
        let mut s = String::from_str("validation error: ");
        let detail = self.detail();
        s.append(detail.as_str());
        s
    }
}

/// A text of `MIN` to `MAX` characters.
pub struct StrLen<const MIN: usize, const MAX: usize>(pub String);

impl<const MIN: usize, const MAX: usize> StrLen<MIN, MAX> {
    /// Accepts `value` when its character count lies in `MIN..=MAX`.
    pub fn new(value: String) -> (r: Result<Self, ValidationError>)
        ensures
            value@.len() < MIN ==> r == Err::<Self, ValidationError>(
                ValidationError::TooShort { min_len: MIN, len: value@.len() as usize },
            ),
            MIN <= value@.len() && value@.len() > MAX ==> r == Err::<Self, ValidationError>(
                ValidationError::TooLong { max_len: MAX, len: value@.len() as usize },
            ),
            MIN <= value@.len() <= MAX ==> r == Ok::<Self, ValidationError>(StrLen(value)),
    {
        let len = value.as_str().unicode_len();
        if len < MIN {
            Err(ValidationError::TooShort { min_len: MIN, len })
        } else if len > MAX {
            Err(ValidationError::TooLong { max_len: MAX, len })
        } else {
            Ok(StrLen(value))
        }
    }
}

/// An integer inside a range.
#[derive(Debug, Clone, Copy, PartialEq, Eq, Structural)]
pub struct MinMaxI32(pub i32);

impl MinMaxI32 {
    /// Accepts `value` when it lies in `min..=max`.
    pub fn new(value: i32, min: i32, max: i32) -> (r: Result<Self, ValidationError>)
        ensures
            value < min ==> r == Err::<Self, ValidationError>(
                ValidationError::TooLow { min_value: min, value },
            ),
            min <= value && value > max ==> r == Err::<Self, ValidationError>(
                ValidationError::TooHigh { max_value: max, value },
            ),
            min <= value <= max ==> r == Ok::<Self, ValidationError>(MinMaxI32(value)),
    {
        if value < min {
            Err(ValidationError::TooLow { min_value: min, value })
        } else if value > max {
            Err(ValidationError::TooHigh { max_value: max, value })
        } else {
            Ok(MinMaxI32(value))
        }
    }
}

/// Decides on a JSON payload from whether it is `null` and from the byte
/// length of its compact text.
pub fn check_json_payload(is_null: bool, size: usize, max: usize) -> (r: Result<
    (),
    ValidationError,
>)
    ensures
        is_null ==> r == Err::<(), ValidationError>(ValidationError::Null),
        !is_null && size > max ==> r == Err::<(), ValidationError>(
            ValidationError::TooBig { max_size: max, size },
        ),
        !is_null && size <= max ==> r == Ok::<(), ValidationError>(()),
{
    if is_null {
        Err(ValidationError::Null)
    } else if size > max {
        Err(ValidationError::TooBig { max_size: max, size })
    } else {
        Ok(())
    }
}

/// The detail of a refusal inside a longer error message: the text after the
/// first `": validation error: "`, if the message holds one.
pub fn validation_error_detail(body_text: &str) -> (r: Option<String>)
    ensures
        match after_first(body_text@, validation_marker()) {
            Some(detail) => r is Some && r->0@ == detail,
            None => r is None,
        },
{
    let marker = ": validation error: ";
    let body = chars_of(body_text);
    let pattern = chars_of(marker);
    match find_first_in(&body, &pattern) {
        Some(i) => {
            assert(i + pattern@.len() <= body@.len());
            assert(body@.len() == body.len() && pattern@.len() == pattern.len());
            let start = i + pattern.len();
            let n = body_text.unicode_len();
            let detail = body_text.substring_char(start, n);
            assert(detail@ =~= body_text@.skip(start as int));
            Some(String::from_str(detail))
        },
        None => None,
    }
}


#[verifier::external_type_specification]
#[verifier::external_body]
pub struct ExJsonValue(serde_json::Value);

/// The bytes of the compact JSON text of a value, as serde_json writes it.
pub uninterp spec fn json_text_bytes(value: serde_json::Value) -> Seq<u8>;

/// The bytes of the text `null`.
pub open spec fn null_text_bytes() -> Seq<u8> {
    seq![110u8, 117u8, 108u8, 108u8]
}

/// `serde_json::Value::is_null`. Claimed: it holds exactly for `Value::Null`,
/// the one value whose compact text is `null` (serde_json writes `null` for
/// `Null` only; strings are quoted and numbers are always finite).
#[verifier::external_body]
fn json_is_null(value: &serde_json::Value) -> (r: bool)
    ensures
        r == (json_text_bytes(*value) == null_text_bytes()),
{
    value.is_null()
}

/// The compact text of a value: serde_json's `Display` for `Value`, taken by
/// `to_string` and turned into its UTF-8 bytes. Claimed: the result is the
/// named compact text of the value.
#[verifier::external_body]
fn json_compact_text(value: &serde_json::Value) -> (b: Vec<u8>)
    ensures
        b@ == json_text_bytes(*value),
{
    value.to_string().into_bytes()
}

/// A JSON value that is not `null` and whose compact text has at most `MAX`
/// bytes.
pub struct NonNullJsonMaxSize<const MAX: usize>(pub serde_json::Value);

impl<const MAX: usize> NonNullJsonMaxSize<MAX> {
    /// Accepts `value` unless it is `null` or its compact text is longer than
    /// `MAX` bytes.
    pub fn new(value: serde_json::Value) -> (r: Result<Self, ValidationError>)
        ensures
            json_text_bytes(value) == null_text_bytes() ==> r == Err::<Self, ValidationError>(
                ValidationError::Null,
            ),
            json_text_bytes(value) != null_text_bytes() && json_text_bytes(value).len() > MAX
                ==> r == Err::<Self, ValidationError>(
                ValidationError::TooBig {
                    max_size: MAX,
                    size: json_text_bytes(value).len() as usize,
                },
            ),
            json_text_bytes(value) != null_text_bytes() && json_text_bytes(value).len() <= MAX
                ==> r == Ok::<Self, ValidationError>(NonNullJsonMaxSize(value)),
    {
        if json_is_null(&value) {
            return Err(ValidationError::Null);
        }
        let text = json_compact_text(&value);
        match check_json_payload(false, text.len(), MAX) {
            Ok(()) => Ok(NonNullJsonMaxSize(value)),
            Err(e) => Err(e),
        }
    }
}


/// A refusal reported inside a longer error message reaches the client as
/// its detail: when the message is some text `prefix`, `: `, the refusal's
/// message and anything after it, and the marker does not already occur
/// before the refusal, the client is shown the detail and what follows it.
pub proof fn lemma_refusal_detail_shown(prefix: Seq<char>, e: ValidationError, rest: Seq<char>)
    requires
        forall|j: int|
            0 <= j < prefix.len() ==> !occurs_at(
                prefix + ": "@ + validation_message(e) + rest,
                validation_marker(),
                j,
            ),
    ensures
        after_first(prefix + ": "@ + validation_message(e) + rest, validation_marker()) == Some(
            validation_detail(e) + rest,
        ),
{
    reveal_strlit(": ");
    reveal_strlit("validation error: ");
    reveal_strlit(": validation error: ");
    let marker = validation_marker();
    assert(": "@ + "validation error: "@ =~= marker);
    let body = prefix + ": "@ + validation_message(e) + rest;
    assert(body =~= prefix + marker + (validation_detail(e) + rest));
    let i = prefix.len() as int;
    assert(body.subrange(i, i + marker.len()) =~= marker);
    lemma_find_first_is(body, marker, i);
    assert(body.skip(i + marker.len()) =~= validation_detail(e) + rest);
}

} // verus!
