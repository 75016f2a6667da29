//! Country-specific supplementary checksums.
//!
//! ISO 13616 defines only the universal mod-97 check; a few countries
//! additionally define a national checksum over the BBAN. Three such rules
//! are implemented; every other country passes trivially. The rules are
//! evaluated only after the structural match, so the positions they read
//! are known to be digits.

use vstd::prelude::*;

use crate::chars::{all_alnum, char_val, char_value, digits_value, read_value};
use crate::country::{spec_length, Country};

verus! {

/// Albania's weighted digit sum: the eight digits after the check digits,
/// weighted by the cycle `9, 7, 3, 1` repeated twice.
pub open spec fn albania_sum(s: Seq<char>) -> nat {
    char_val(s[4]) * 9 + char_val(s[5]) * 7 + char_val(s[6]) * 3 + char_val(s[7]) + char_val(
        s[8],
    ) * 9 + char_val(s[9]) * 7 + char_val(s[10]) * 3 + char_val(s[11])
}

/// The Czech account-number sum: the last ten digits, weighted by
/// `6, 3, 7, 9, 10, 5, 8, 4, 2, 1` positionally.
pub open spec fn czech_account_sum(s: Seq<char>) -> nat {
    char_val(s[14]) * 6 + char_val(s[15]) * 3 + char_val(s[16]) * 7 + char_val(s[17]) * 9
        + char_val(s[18]) * 10 + char_val(s[19]) * 5 + char_val(s[20]) * 8 + char_val(s[21]) * 4
        + char_val(s[22]) * 2 + char_val(s[23])
}

/// The Czech branch-identifier sum: the six digits before the account
/// number, weighted by `10, 5, 8, 4, 2, 1` positionally.
pub open spec fn czech_branch_sum(s: Seq<char>) -> nat {
    char_val(s[8]) * 10 + char_val(s[9]) * 5 + char_val(s[10]) * 8 + char_val(s[11]) * 4
        + char_val(s[12]) * 2 + char_val(s[13])
}

/// The country-specific supplementary rule for `s`, a string of the
/// country's exact length:
/// - Albania: the weighted sum of the eight account digits, modulo 10,
///   must equal the single check digit that follows them.
/// - Belgium: the ten-digit account number, modulo 97, must equal the two
///   trailing check digits.
/// - Czech Republic: the weighted account sum and the weighted branch sum
///   must both be divisible by 11.
/// - Every other country: no supplementary rule, trivially satisfied.
pub open spec fn supplementary_ok(co: Country, s: Seq<char>) -> bool {
    match co {
        Country::Albania => albania_sum(s) % 10 == char_val(s[12]),
        Country::Belgium => digits_value(s.subrange(4, 14)) % 97 == digits_value(
            s.subrange(14, 16),
        ),
        Country::CzechRepublic => czech_account_sum(s) % 11 == 0 && czech_branch_sum(s) % 11 == 0,
        _ => true,
    }
}

impl Country {
    /// The check digits a national rule compares against: Albania's single
    /// digit at position 12, or the last two characters of the string.
    pub fn check_digits(&self, input: &str) -> (r: u32)
        requires
            *self == Country::Albania || *self == Country::Belgium || *self == Country::Montenegro,
            input@.len() == spec_length(*self),
            all_alnum(input@),
        ensures
            *self == Country::Albania ==> r as nat == char_val(input@[12]),
            *self != Country::Albania ==> r as nat == digits_value(
                input@.subrange(input@.len() - 2, input@.len() as int),
            ),
    {
        match self {
            Country::Albania => char_value(input.get_char(12)),
            _ => {
                let len = input.unicode_len();
                let hi = char_value(input.get_char(len - 2));
                let lo = char_value(input.get_char(len - 1));
                proof {
                    let t = input@.subrange(input@.len() - 2, input@.len() as int);
                    let h = t.drop_last();
                    assert(h.drop_last() =~= Seq::<char>::empty());
                    assert(digits_value(h.drop_last()) == 0);
                    assert(h.last() == input@[input@.len() - 2]);
                    assert(digits_value(h) == char_val(input@[input@.len() - 2]));
                    assert(t.last() == input@[input@.len() - 1]);
                    assert(digits_value(t) == digits_value(h) * 10 + char_val(
                        input@[input@.len() - 1],
                    ));
                }
                hi * 10 + lo
            },
        }
    }

    /// Evaluates this country's supplementary checksum over `input`, a
    /// string of this country's exact length.
    pub fn custom_validation(&self, input: &str) -> (r: bool)
        requires
            input@.len() == spec_length(*self),
            all_alnum(input@),
        ensures
            r == supplementary_ok(*self, input@),
    {
        match self {
            Country::Albania => {
                let total = char_value(input.get_char(4)) * 9 + char_value(input.get_char(5)) * 7
                    + char_value(input.get_char(6)) * 3 + char_value(input.get_char(7))
                    + char_value(input.get_char(8)) * 9 + char_value(input.get_char(9)) * 7
                    + char_value(input.get_char(10)) * 3 + char_value(input.get_char(11));
                total % 10 == self.check_digits(input)
            },
            Country::Belgium => {
                let check_number = read_value(input, 4, 14);
                let check = self.check_digits(input);
                check_number % 97 == check as u128
            },
            Country::CzechRepublic => {
                let account = char_value(input.get_char(14)) * 6 + char_value(input.get_char(15))
                    * 3 + char_value(input.get_char(16)) * 7 + char_value(input.get_char(17)) * 9
                    + char_value(input.get_char(18)) * 10 + char_value(input.get_char(19)) * 5
                    + char_value(input.get_char(20)) * 8 + char_value(input.get_char(21)) * 4
                    + char_value(input.get_char(22)) * 2 + char_value(input.get_char(23));
                if account % 11 != 0 {
                    return false;
                }
                let branch = char_value(input.get_char(8)) * 10 + char_value(input.get_char(9)) * 5
                    + char_value(input.get_char(10)) * 8 + char_value(input.get_char(11)) * 4
                    + char_value(input.get_char(12)) * 2 + char_value(input.get_char(13));
                branch % 11 == 0
            },
            _ => true,
        }
    }
}

} // verus!
