//! The validated IBAN value and its accessors.

use vstd::prelude::*;

use crate::chars::{all_alnum, digits_value};
use crate::country::{account_digits, account_slice, spec_bank_range, spec_code, spec_length,
    spec_layout, spec_lookup, Country};
use crate::country_specific::supplementary_ok;
use crate::matcher::matches_layout;
use crate::mod97::mod97_ok;

verus! {

/// `s` is a valid IBAN of country `co`: whitespace-free, at most 34 ASCII
/// alphanumeric characters, carrying `co`'s code, of `co`'s exact length,
/// matching `co`'s layout, and passing both `co`'s supplementary checksum
/// and the universal mod-97 check.
pub open spec fn valid_iban(co: Country, s: Seq<char>) -> bool {
    &&& s.len() <= 34
    &&& all_alnum(s)
    &&& s.len() >= 2
    &&& spec_lookup(s[0], s[1]) == Some(co)
    &&& s.len() == spec_length(co)
    &&& matches_layout(s, spec_layout(co))
    &&& supplementary_ok(co, s)
    &&& mod97_ok(s)
}

/// A successfully validated IBAN: the country it belongs to and the
/// normalized (whitespace-stripped, case-preserved) string.
#[derive(Debug)]
#[non_exhaustive]
pub struct IBan {
    /// The country of this IBAN.
    pub country: Country,
    /// The normalized string the IBAN was made from. The struct is
    /// non-exhaustive, so values can only be constructed by `validate`,
    /// which guarantees `wf`.
    pub raw: String,
}

impl View for IBan {
    type V = Seq<char>;

    open spec fn view(&self) -> Seq<char> {
        self.raw@
    }
}

impl IBan {
    /// The value is well-formed: its string is a valid IBAN of its
    /// country. Every value returned by `validate` satisfies this.
    pub open spec fn wf(self) -> bool {
        valid_iban(self.country, self@)
    }

    pub(crate) fn new(country: Country, raw: String) -> (r: IBan)
        ensures
            r.country == country,
            r@ == raw@,
    {
        IBan { country, raw }
    }

    /// Returns the account number of the IBAN, parsed as an unsigned
    /// integer from the country's declared offsets. Meaningful only for
    /// countries whose account-number field is numeric; the characters in
    /// the range must be digits.
    pub fn account_number(&self) -> (r: u128)
        requires
            self.wf(),
            account_digits(self.country, self@),
        ensures
            r as nat == digits_value(account_slice(self.country, self@)),
    {
        self.country.account_number(self.raw.as_str())
    }

    /// Returns the national bank code of the IBAN: the substring at the
    /// country's declared offsets, verbatim.
    pub fn bank_code(&self) -> (r: String)
        requires
            self.wf(),
        ensures
            r@ == self@.subrange(spec_bank_range(self.country).0, spec_bank_range(self.country).1),
    {
        self.country.bank_code(self.raw.as_str())
    }

    /// Returns the country code as a String, for example "GB".
    pub fn country_code(&self) -> (r: String)
        ensures
            r@ == spec_code(self.country),
    {
        let code = self.country.code();
        code.to_owned()
    }

    /// Access the normalized string this IBAN was made from.
    pub fn raw(&self) -> (r: &str)
        ensures
            r@ == self@,
    {
        self.raw.as_str()
    }
}

} // verus!
