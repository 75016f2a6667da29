//! A verified IBAN validation library.
//!
//! Given an arbitrary string, [`validate`] decides whether it is a
//! syntactically and checksum-correct International Bank Account Number
//! (ISO 13616) for one of the supported countries, and on success returns
//! an [`IBan`] exposing the country, bank code and account number.
//!
//! ```text
//! assert!(schwifty::validate("GB82 WEST 1234 5698 7654 32").is_ok());
//! ```

pub mod chars;
pub mod country;
pub mod country_specific;
pub mod error;
pub mod iban;
pub mod matcher;
pub mod mod97;

pub use crate::country::Country;
pub use crate::error::ValidationError;
pub use crate::iban::IBan;

use vstd::prelude::*;

use crate::chars::{all_alnum, all_alnum_str, lemma_strip_spaces_of_alnum, strip_spaces,
    strip_whitespace};
use crate::country::{spec_layout, spec_length, spec_lookup};
use crate::matcher::{layout_matches, matches_layout};
use crate::mod97::{mod97_ok, mod97_remainder};

verus! {

/// The outcome of validating `s`: either the country and the normalized
/// (whitespace-stripped) string of a valid IBAN, or the first error of the
/// pipeline, which checks in this order: length bound, character set,
/// country code, country length, country layout, country-specific
/// checksum, universal mod-97 checksum.
pub open spec fn spec_validate(s: Seq<char>) -> Result<(Country, Seq<char>), ValidationError> {
    let t = strip_spaces(s);
    if t.len() > 34 {
        Err(ValidationError::TooLong)
    } else if !all_alnum(t) {
        Err(ValidationError::InvalidChar)
    } else if t.len() < 2 {
        Err(ValidationError::InvalidCountryCode)
    } else {
        match spec_lookup(t[0], t[1]) {
            Option::None => Err(ValidationError::InvalidCountryCode),
            Option::Some(co) => {
                if t.len() != spec_length(co) {
                    Err(ValidationError::InvalidLength)
                } else if !matches_layout(t, spec_layout(co)) {
                    Err(ValidationError::InvalidFormat)
                } else if !self::country_specific::supplementary_ok(co, t) {
                    Err(ValidationError::CountryCheckFailed)
                } else if !mod97_ok(t) {
                    Err(ValidationError::InvalidIban)
                } else {
                    Ok((co, t))
                }
            },
        }
    }
}

/// Checks if the provided string is a valid IBAN, or tells you why it
/// isn't: the result is exactly what `spec_validate` says for the input,
/// and a returned `IBan` is well-formed.
pub fn validate(input: &str) -> (r: Result<IBan, ValidationError>)
    ensures
        match r {
            Ok(ib) => ib.wf() && spec_validate(input@) == Ok::<(Country, Seq<char>),
                ValidationError,
            >((ib.country, ib@)),
            Err(e) => spec_validate(input@) == Err::<(Country, Seq<char>), ValidationError>(e),
        },
{
    // Remove the whitespace.
    let t = strip_whitespace(input);

    // An IBAN is at most 34 characters long.
    let t_len = t.as_str().unicode_len();
    if t_len > 34 {
        return Err(ValidationError::TooLong);
    }

    // All of the characters must be alphanumeric.
    if !all_alnum_str(t.as_str()) {
        return Err(ValidationError::InvalidChar);
    }

    // The first two characters must name a supported country.
    if t_len < 2 {
        return Err(ValidationError::InvalidCountryCode);
    }
    let c0 = t.as_str().get_char(0);
    let c1 = t.as_str().get_char(1);
    let co = match Country::from_code(c0, c1) {
        Option::Some(co) => co,
        Option::None => {
            return Err(ValidationError::InvalidCountryCode);
        },
    };

    // The country decides the exact length.
    if t_len != co.length() {
        return Err(ValidationError::InvalidLength);
    }

    // The country's character-class layout must match positionally.
    let lay = co.layout();
    if !layout_matches(t.as_str(), &lay) {
        return Err(ValidationError::InvalidFormat);
    }

    // Country-specific supplementary checks.
    if !co.custom_validation(t.as_str()) {
        return Err(ValidationError::CountryCheckFailed);
    }

    // The universal mod-97 checksum must leave remainder one.
    if mod97_remainder(t.as_str()) != 1 {
        return Err(ValidationError::InvalidIban);
    }

    Ok(IBan::new(co, t))
}

/// Re-validating the normalized string of an accepted IBAN succeeds and
/// reproduces the same country and the same normalized string.
pub proof fn lemma_revalidate(s: Seq<char>, co: Country, t: Seq<char>)
    requires
        spec_validate(s) == Ok::<(Country, Seq<char>), ValidationError>((co, t)),
    ensures
        spec_validate(t) == Ok::<(Country, Seq<char>), ValidationError>((co, t)),
{
    lemma_strip_spaces_of_alnum(t);
}

} // verus!
