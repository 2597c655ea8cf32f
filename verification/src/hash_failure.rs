//! The failures of the password hashing library as plain values, and the
//! messages that the library renders them with.
use crate::crypto::password_hash_error_text;
use crate::text::{decimal, push_char, write_decimal};
use argon2::password_hash::errors::{B64Error, InvalidValue};
use argon2::password_hash::Error;
use vstd::prelude::*;

verus! {

#[verifier::external_type_specification]
#[verifier::external_body]
pub struct ExInvalidValue(InvalidValue);

#[verifier::external_type_specification]
#[verifier::external_body]
pub struct ExB64Error(B64Error);

/// Why a Base64 text was refused.
#[derive(Debug, Clone, Copy, PartialEq, Eq, Structural)]
pub enum B64Failure {
    InvalidEncoding,
    InvalidLength,
}

/// Why a parameter value or a salt was refused.
#[derive(Debug)]
pub enum ValueFailure {
    /// A character outside the allowed set.
    InvalidChar(char),
    InvalidFormat,
    Malformed,
    TooLong,
    TooShort,
    /// A kind that this list does not name, with the library's message.
    Unlisted(String),
}

/// How a size compares with the bound it was held to.
#[derive(Debug, Clone, Copy, PartialEq, Eq, Structural)]
pub enum SizeBound {
    Less,
    Equal,
    Greater,
}

/// Why the password hashing library failed.
#[derive(Debug)]
pub enum HashFailure {
    Algorithm,
    B64Encoding(B64Failure),
    Crypto,
    /// An output of unexpected size, with the size it was expected to have.
    OutputSize { provided: SizeBound, expected: usize },
    ParamNameDuplicated,
    ParamNameInvalid,
    ParamValueInvalid(ValueFailure),
    ParamsMaxExceeded,
    Password,
    PhcStringField,
    PhcStringTrailingData,
    SaltInvalid(ValueFailure),
    Version,
    /// A kind that this list does not name, with the library's message.
    Unlisted(String),
}

/// The message of a refused value.
pub open spec fn value_failure_text(v: ValueFailure) -> Seq<char> {
    match v {
        ValueFailure::InvalidChar(c) => "contains invalid character: '"@ + seq![c] + "'"@,
        ValueFailure::InvalidFormat => "value format is invalid"@,
        ValueFailure::Malformed => "value malformed"@,
        ValueFailure::TooLong => "value to long"@,
        ValueFailure::TooShort => "value to short"@,
        ValueFailure::Unlisted(t) => t@,
    }
}

/// The message of a failure of the password hashing library.
pub open spec fn hash_failure_text(f: HashFailure) -> Seq<char> {
    match f {
        HashFailure::Algorithm => "unsupported algorithm"@,
        HashFailure::B64Encoding(B64Failure::InvalidEncoding) => "invalid Base64 encoding"@,
        HashFailure::B64Encoding(B64Failure::InvalidLength) => "invalid Base64 length"@,
        HashFailure::Crypto => "cryptographic error"@,
        HashFailure::OutputSize { provided, expected } => match provided {
            SizeBound::Less => "output size too short, expected at least "@ + decimal(expected as nat)
                + " bytes"@,
            SizeBound::Equal => "output size unexpected, expected "@ + decimal(expected as nat)
                + " bytes"@,
            SizeBound::Greater => "output size too long, expected at most "@ + decimal(
                expected as nat,
            ) + " bytes"@,
        },
        HashFailure::ParamNameDuplicated => "duplicate parameter"@,
        HashFailure::ParamNameInvalid => "invalid parameter name"@,
        HashFailure::ParamValueInvalid(v) => "invalid parameter value: "@ + value_failure_text(v),
        HashFailure::ParamsMaxExceeded => "maximum number of parameters reached"@,
        HashFailure::Password => "invalid password"@,
        HashFailure::PhcStringField => "password hash string missing field"@,
        HashFailure::PhcStringTrailingData => "password hash string contains trailing characters"@,
        HashFailure::SaltInvalid(v) => "salt invalid: "@ + value_failure_text(v),
        HashFailure::Version => "invalid algorithm version"@,
        HashFailure::Unlisted(t) => t@,
    }
}

/// Appends the message of a refused value to `out`.
fn write_value_failure(out: &mut String, v: &ValueFailure)
    ensures
        final(out)@ == old(out)@ + value_failure_text(*v),
{
    match v {
        ValueFailure::InvalidChar(c) => {
            out.append("contains invalid character: '");
            push_char(out, *c);
            out.append("'");
        },
        ValueFailure::InvalidFormat => out.append("value format is invalid"),
        ValueFailure::Malformed => out.append("value malformed"),
        ValueFailure::TooLong => out.append("value to long"),
        ValueFailure::TooShort => out.append("value to short"),
        ValueFailure::Unlisted(t) => out.append(t.as_str()),
    }
}

impl HashFailure {
    /// The message that the library renders the failure with.
    pub fn message(&self) -> (r: String)
        ensures
            r@ == hash_failure_text(*self),
    {
        let mut out = String::new();
        match self {
            HashFailure::Algorithm => out.append("unsupported algorithm"),
            HashFailure::B64Encoding(B64Failure::InvalidEncoding) => out.append("invalid Base64 encoding"),
            HashFailure::B64Encoding(B64Failure::InvalidLength) => out.append("invalid Base64 length"),
            HashFailure::Crypto => out.append("cryptographic error"),
            HashFailure::OutputSize { provided, expected } => {
                match provided {
                    SizeBound::Less => out.append("output size too short, expected at least "),
                    SizeBound::Equal => out.append("output size unexpected, expected "),
                    SizeBound::Greater => out.append("output size too long, expected at most "),
                }
                write_decimal(&mut out, *expected as u64);
                out.append(" bytes");
            },
            HashFailure::ParamNameDuplicated => out.append("duplicate parameter"),
            HashFailure::ParamNameInvalid => out.append("invalid parameter name"),
            HashFailure::ParamValueInvalid(v) => {
                out.append("invalid parameter value: ");
                write_value_failure(&mut out, v);
            },
            HashFailure::ParamsMaxExceeded => out.append("maximum number of parameters reached"),
            HashFailure::Password => out.append("invalid password"),
            HashFailure::PhcStringField => out.append("password hash string missing field"),
            HashFailure::PhcStringTrailingData => out.append(
                "password hash string contains trailing characters",
            ),
            HashFailure::SaltInvalid(v) => {
                out.append("salt invalid: ");
                write_value_failure(&mut out, v);
            },
            HashFailure::Version => out.append("invalid algorithm version"),
            HashFailure::Unlisted(t) => out.append(t.as_str()),
        }
        out
    }
}

/// Tells apart the kinds of `InvalidValue`, moving the character of
/// `InvalidChar`; a kind that the library adds later keeps its `Display`
/// message. The value is opaque here, so nothing is stated of the result.
#[verifier::external_body]
fn value_failure(v: InvalidValue) -> ValueFailure {
    match v {
        InvalidValue::InvalidChar(c) => ValueFailure::InvalidChar(c),
        InvalidValue::InvalidFormat => ValueFailure::InvalidFormat,
        InvalidValue::Malformed => ValueFailure::Malformed,
        InvalidValue::TooLong => ValueFailure::TooLong,
        InvalidValue::TooShort => ValueFailure::TooShort,
        _ => ValueFailure::Unlisted(v.to_string()),
    }
}

/// Tells apart the two kinds of `base64ct::Error`. The value is opaque
/// here, so nothing is stated of the result.
#[verifier::external_body]
fn b64_failure(e: B64Error) -> B64Failure {
    match e {
        B64Error::InvalidEncoding => B64Failure::InvalidEncoding,
        B64Error::InvalidLength => B64Failure::InvalidLength,
    }
}

/// Tells apart the three orderings.
fn size_bound(o: std::cmp::Ordering) -> (r: SizeBound)
    ensures
        o == std::cmp::Ordering::Less ==> r == SizeBound::Less,
        o == std::cmp::Ordering::Equal ==> r == SizeBound::Equal,
        o == std::cmp::Ordering::Greater ==> r == SizeBound::Greater,
{
    match o {
        std::cmp::Ordering::Less => SizeBound::Less,
        std::cmp::Ordering::Equal => SizeBound::Equal,
        std::cmp::Ordering::Greater => SizeBound::Greater,
    }
}

/// Tells apart the kinds of `password_hash::Error` that carry nothing;
/// `None` for the others. The error is opaque here, so nothing is stated of
/// the result.
#[verifier::external_body]
fn plain_failure(e: &Error) -> Option<HashFailure> {
    match e {
        Error::Algorithm => Some(HashFailure::Algorithm),
        Error::Crypto => Some(HashFailure::Crypto),
        Error::ParamNameDuplicated => Some(HashFailure::ParamNameDuplicated),
        Error::ParamNameInvalid => Some(HashFailure::ParamNameInvalid),
        Error::ParamsMaxExceeded => Some(HashFailure::ParamsMaxExceeded),
        Error::Password => Some(HashFailure::Password),
        Error::PhcStringField => Some(HashFailure::PhcStringField),
        Error::PhcStringTrailingData => Some(HashFailure::PhcStringTrailingData),
        Error::Version => Some(HashFailure::Version),
        _ => None,
    }
}

/// Tells apart the kinds of `password_hash::Error` that carry a value,
/// moving the value; `None` for the others. The error is opaque here, so
/// nothing is stated of the result.
#[verifier::external_body]
fn carried_failure(e: &Error) -> Option<HashFailure> {
    match e {
        Error::B64Encoding(b) => Some(HashFailure::B64Encoding(b64_failure(*b))),
        Error::OutputSize { provided, expected } => Some(
            HashFailure::OutputSize { provided: size_bound(*provided), expected: *expected },
        ),
        Error::ParamValueInvalid(v) => Some(HashFailure::ParamValueInvalid(value_failure(*v))),
        Error::SaltInvalid(v) => Some(HashFailure::SaltInvalid(value_failure(*v))),
        _ => None,
    }
}

/// The failure of the password hashing library as plain values; a kind that
/// the library adds later keeps its `Display` message.
pub(crate) fn hash_failure_of(e: &Error) -> HashFailure {
    match plain_failure(e) {
        Some(f) => f,
        None => match carried_failure(e) {
            Some(f) => f,
            None => HashFailure::Unlisted(password_hash_error_text(e)),
        },
    }
}

} // verus!
