//! The error type describing why a candidate string is not a valid IBAN.

use vstd::prelude::*;

verus! {

/// Why a candidate string failed validation.
///
/// Exactly one reason is reported: the first check of the validation
/// pipeline that the candidate violates, in the order the variants are
/// listed here (whitespace stripping happens before every check).
#[derive(Debug, Clone, Copy, PartialEq, Eq, Structural)]
pub enum ValidationError {
    /// The stripped input is longer than 34 characters.
    TooLong,
    /// The stripped input contains a non-alphanumeric character.
    InvalidChar,
    /// The first two characters are not a supported country code.
    InvalidCountryCode,
    /// The length differs from the detected country's required length.
    InvalidLength,
    /// The character-class layout of the detected country is not matched.
    InvalidFormat,
    /// A country-specific supplementary checksum failed.
    CountryCheckFailed,
    /// The universal mod-97 checksum remainder was not 1.
    InvalidIban,
}

/// The description `message` returns for each failure.
pub open spec fn spec_message(e: ValidationError) -> Seq<char> {
    match e {
        ValidationError::TooLong => "Input is longer than 34 characters."@,
        ValidationError::InvalidChar => "Input contains at least one invalid character."@,
        ValidationError::InvalidCountryCode => "Input doesn't contain a supported country."@,
        ValidationError::InvalidLength => "Input is invalid length for the detected country."@,
        ValidationError::InvalidFormat => "IBAN has the wrong format for the detected country."@,
        ValidationError::CountryCheckFailed => "Failed custom country-specific check."@,
        ValidationError::InvalidIban => "IBAN mod 97 checksum is invalid."@,
    }
}

impl ValidationError {
    /// A human-readable description of the failure.
    pub fn message(&self) -> (r: &'static str)
        ensures
            r@ == spec_message(*self),
    {
        match self {
            ValidationError::TooLong => "Input is longer than 34 characters.",
            ValidationError::InvalidChar => "Input contains at least one invalid character.",
            ValidationError::InvalidCountryCode => "Input doesn't contain a supported country.",
            ValidationError::InvalidLength => "Input is invalid length for the detected country.",
            ValidationError::InvalidFormat => "IBAN has the wrong format for the detected country.",
            ValidationError::CountryCheckFailed => "Failed custom country-specific check.",
            ValidationError::InvalidIban => "IBAN mod 97 checksum is invalid.",
        }
    }
}

} // verus!
