//! The structural matcher: checks a candidate string against a country's
//! character-class layout.
//!
//! A layout is an ordered sequence of `(CharClass, run_length)` segments
//! covering the whole IBAN positionally, from the country code to the last
//! character of the BBAN. A string matches when its length is exactly the
//! sum of the run lengths and every character belongs to the class of the
//! segment it falls in.

use vstd::prelude::*;

use crate::chars::{is_alnum, is_digit, is_upper};

verus! {

/// The allowed character set for one fixed-width segment of an IBAN layout.
#[derive(Debug, Clone, Copy, PartialEq, Eq, Structural)]
pub enum CharClass {
    /// ASCII `0`-`9`.
    Digit,
    /// ASCII `A`-`Z` only.
    UpperLetter,
    /// ASCII `0`-`9`, `A`-`Z` or `a`-`z`.
    Alnum,
}

/// Whether character `c` belongs to class `cl`.
pub open spec fn class_allows(cl: CharClass, c: char) -> bool {
    match cl {
        CharClass::Digit => is_digit(c),
        CharClass::UpperLetter => is_upper(c),
        CharClass::Alnum => is_alnum(c),
    }
}

/// `s` matches the segments of `lay` from segment `k` onward, starting at
/// character position `pos` and consuming exactly the rest of `s`.
pub open spec fn matches_from(s: Seq<char>, lay: Seq<(CharClass, usize)>, k: int, pos: int) -> bool
    decreases lay.len() - k,
{
    if k < 0 || k >= lay.len() {
        pos == s.len()
    } else {
        &&& pos + lay[k].1 <= s.len()
        &&& (forall|i: int| pos <= i < pos + lay[k].1 ==> class_allows(lay[k].0, #[trigger] s[i]))
        &&& matches_from(s, lay, k + 1, pos + lay[k].1)
    }
}

/// `s` matches the whole layout `lay`: exactly the declared length, and
/// every character in the class of its segment.
pub open spec fn matches_layout(s: Seq<char>, lay: Seq<(CharClass, usize)>) -> bool {
    matches_from(s, lay, 0, 0)
}

/// Whether character `c` belongs to class `cl`.
pub fn class_allows_char(cl: CharClass, c: char) -> (r: bool)
    ensures
        r == class_allows(cl, c),
{
    let u = c as u32;
    match cl {
        CharClass::Digit => 48 <= u && u <= 57,
        CharClass::UpperLetter => 65 <= u && u <= 90,
        CharClass::Alnum => (48 <= u && u <= 57) || (65 <= u && u <= 90) || (97 <= u && u <= 122),
    }
}

/// Checks `input` against the layout `lay`, walking the segments left to
/// right; returns false on a length mismatch or on any character outside
/// its segment's class.
pub fn layout_matches(input: &str, lay: &Vec<(CharClass, usize)>) -> (r: bool)
    ensures
        r == matches_layout(input@, lay@),
{
    let s_len = input.unicode_len();
    let mut k: usize = 0;
    let mut pos: usize = 0;
    while k < lay.len()
        invariant
            k <= lay@.len(),
            pos <= s_len,
            s_len == input@.len(),
            matches_layout(input@, lay@) == matches_from(input@, lay@, k as int, pos as int),
        decreases lay@.len() - k,
    {
        let (cl, run) = lay[k];
        if run > s_len - pos {
            assert(!matches_from(input@, lay@, k as int, pos as int));
            return false;
        }
        let mut j: usize = 0;
        while j < run
            invariant
                j <= run,
                pos + run <= s_len,
                s_len == input@.len(),
                k < lay@.len(),
                (cl, run) == lay@[k as int],
                matches_layout(input@, lay@) == matches_from(input@, lay@, k as int, pos as int),
                forall|i: int| pos <= i < pos + j ==> class_allows(cl, #[trigger] input@[i]),
            decreases run - j,
        {
            let ch = input.get_char(pos + j);
            if !class_allows_char(cl, ch) {
                assert(!matches_from(input@, lay@, k as int, pos as int));
                return false;
            }
            j = j + 1;
        }
        assert(matches_from(input@, lay@, k as int, pos as int) == matches_from(
            input@,
            lay@,
            k + 1int,
            pos + run as int,
        ));
        pos = pos + run;
        k = k + 1;
    }
    pos == s_len
}

} // verus!
