//! Character classification and whitespace stripping.
//!
//! IBANs are printed in groups separated by whitespace; the validator
//! first strips that whitespace and then works on the remaining
//! characters, which must all be ASCII alphanumeric.

use vstd::prelude::*;

verus! {

/// The whitespace characters stripped before validation: the code points
/// with the Unicode `White_Space` property, as printed IBANs may be
/// grouped by any of them.
pub open spec fn is_space(c: char) -> bool {
    let u = c as u32;
    (9 <= u <= 13) || u == 32 || u == 0x85 || u == 0xA0 || u == 0x1680 || (0x2000 <= u <= 0x200A)
        || u == 0x2028 || u == 0x2029 || u == 0x202F || u == 0x205F || u == 0x3000
}

/// An ASCII decimal digit, `'0'` to `'9'`.
pub open spec fn is_digit(c: char) -> bool {
    48 <= c as u32 <= 57
}

/// An ASCII uppercase letter, `'A'` to `'Z'`.
pub open spec fn is_upper(c: char) -> bool {
    65 <= c as u32 <= 90
}

/// An ASCII lowercase letter, `'a'` to `'z'`.
pub open spec fn is_lower(c: char) -> bool {
    97 <= c as u32 <= 122
}

/// An ASCII alphanumeric character.
pub open spec fn is_alnum(c: char) -> bool {
    is_digit(c) || is_upper(c) || is_lower(c)
}

/// Every character of `s` is ASCII alphanumeric.
pub open spec fn all_alnum(s: Seq<char>) -> bool {
    forall|i: int| 0 <= i < s.len() ==> is_alnum(#[trigger] s[i])
}

/// The base-36 value of an alphanumeric character: digits keep their
/// value, letters count from `A = 10` to `Z = 35`, case-insensitively.
pub open spec fn char_val(c: char) -> nat {
    if is_digit(c) {
        (c as u32 - 48) as nat
    } else if is_upper(c) {
        (c as u32 - 55) as nat
    } else if is_lower(c) {
        (c as u32 - 87) as nat
    } else {
        0
    }
}

/// The base-10 value of a sequence of decimal digit characters.
pub open spec fn digits_value(s: Seq<char>) -> nat
    decreases s.len(),
{
    if s.len() == 0 {
        0
    } else {
        digits_value(s.drop_last()) * 10 + char_val(s.last())
    }
}

/// Ten to the power `k`.
pub open spec fn pow10(k: nat) -> nat
    decreases k,
{
    if k == 0 {
        1
    } else {
        10 * pow10((k - 1) as nat)
    }
}

/// `pow10` is monotonic in its exponent.
pub proof fn lemma_pow10_mono(j: nat, k: nat)
    requires
        j <= k,
    ensures
        pow10(j) <= pow10(k),
    decreases k,
{
    if j < k {
        lemma_pow10_mono(j, (k - 1) as nat);
        assert(pow10((k - 1) as nat) >= 1) by {
            lemma_pow10_mono(0, (k - 1) as nat);
        }
    }
}

/// A coarse bound on the value read from `k` alphanumeric characters,
/// where a letter contributes its base-36 value as a single position.
pub proof fn lemma_digits_value_alnum_bound(s: Seq<char>)
    requires
        all_alnum(s),
    ensures
        digits_value(s) <= 4 * pow10(s.len()) - 4,
    decreases s.len(),
{
    if s.len() > 0 {
        assert(all_alnum(s.drop_last()));
        lemma_digits_value_alnum_bound(s.drop_last());
        assert(char_val(s.last()) <= 35);
    }
}

/// `s` with every whitespace character removed.
pub open spec fn strip_spaces(s: Seq<char>) -> Seq<char>
    decreases s.len(),
{
    if s.len() == 0 {
        Seq::empty()
    } else if is_space(s.last()) {
        strip_spaces(s.drop_last())
    } else {
        strip_spaces(s.drop_last()).push(s.last())
    }
}

/// No character of a stripped string is whitespace.
pub proof fn lemma_strip_spaces_no_space(s: Seq<char>)
    ensures
        forall|i: int| 0 <= i < strip_spaces(s).len() ==> !is_space(#[trigger] strip_spaces(s)[i]),
    decreases s.len(),
{
    if s.len() > 0 {
        lemma_strip_spaces_no_space(s.drop_last());
        if !is_space(s.last()) {
            let t = strip_spaces(s.drop_last());
            assert(strip_spaces(s) == t.push(s.last()));
            assert forall|i: int| 0 <= i < strip_spaces(s).len() implies !is_space(
                #[trigger] strip_spaces(s)[i],
            ) by {
                if i < t.len() {
                    assert(strip_spaces(s)[i] == t[i]);
                } else {
                    assert(strip_spaces(s)[i] == s.last());
                }
            }
        }
    }
}

/// Stripping a string that contains no whitespace returns it unchanged.
pub proof fn lemma_strip_spaces_identity(s: Seq<char>)
    requires
        forall|i: int| 0 <= i < s.len() ==> !is_space(#[trigger] s[i]),
    ensures
        strip_spaces(s) == s,
    decreases s.len(),
{
    if s.len() == 0 {
        assert(strip_spaces(s) =~= s);
    } else {
        assert(forall|i: int| 0 <= i < s.drop_last().len() ==> !is_space(#[trigger] s.drop_last()[i]));
        lemma_strip_spaces_identity(s.drop_last());
        assert(strip_spaces(s) =~= s);
    }
}

/// Stripping whitespace twice yields the same string as stripping once.
pub proof fn lemma_strip_spaces_idempotent(s: Seq<char>)
    ensures
        strip_spaces(strip_spaces(s)) == strip_spaces(s),
{
    lemma_strip_spaces_no_space(s);
    lemma_strip_spaces_identity(strip_spaces(s));
}

/// An alphanumeric character is never whitespace, so a fully
/// alphanumeric string is unchanged by stripping.
pub proof fn lemma_strip_spaces_of_alnum(s: Seq<char>)
    requires
        all_alnum(s),
    ensures
        strip_spaces(s) == s,
{
    assert(forall|i: int| 0 <= i < s.len() ==> !is_space(#[trigger] s[i]));
    lemma_strip_spaces_identity(s);
}

/// Whether `c` is one of the whitespace characters stripped before
/// validation.
pub fn is_space_char(c: char) -> (r: bool)
    ensures
        r == is_space(c),
{
    let u = c as u32;
    (9 <= u && u <= 13) || u == 32 || u == 0x85 || u == 0xA0 || u == 0x1680 || (0x2000 <= u && u
        <= 0x200A) || u == 0x2028 || u == 0x2029 || u == 0x202F || u == 0x205F || u == 0x3000
}

/// Whether `c` is ASCII alphanumeric.
pub fn is_alnum_char(c: char) -> (r: bool)
    ensures
        r == is_alnum(c),
{
    let u = c as u32;
    (48 <= u && u <= 57) || (65 <= u && u <= 90) || (97 <= u && u <= 122)
}

/// Whether every character of `input` is ASCII alphanumeric.
pub fn all_alnum_str(input: &str) -> (r: bool)
    ensures
        r == all_alnum(input@),
{
    let n = input.unicode_len();
    let mut i: usize = 0;
    while i < n
        invariant
            i <= n,
            n == input@.len(),
            forall|k: int| 0 <= k < i ==> is_alnum(#[trigger] input@[k]),
        decreases n - i,
    {
        if !is_alnum_char(input.get_char(i)) {
            return false;
        }
        i = i + 1;
    }
    true
}

/// The base-36 value of an alphanumeric character.
pub fn char_value(c: char) -> (r: u32)
    requires
        is_alnum(c),
    ensures
        r == char_val(c),
        r <= 35,
{
    let u = c as u32;
    if u <= 57 {
        u - 48
    } else if u <= 90 {
        u - 55
    } else {
        u - 87
    }
}

/// Reads the characters of `input` from position `start` up to `stop` as a
/// decimal number, a letter counting as its base-36 value in a single
/// position.
pub fn read_value(input: &str, start: usize, stop: usize) -> (r: u128)
    requires
        start <= stop <= input@.len(),
        stop - start <= 24,
        forall|i: int| start <= i < stop ==> is_alnum(#[trigger] input@[i]),
    ensures
        r as nat == digits_value(input@.subrange(start as int, stop as int)),
{
    let mut r: u128 = 0;
    let mut j: usize = start;
    assert(input@.subrange(start as int, start as int) =~= Seq::<char>::empty());
    while j < stop
        invariant
            start <= j <= stop <= input@.len(),
            stop - start <= 24,
            forall|i: int| start <= i < stop ==> is_alnum(#[trigger] input@[i]),
            r as nat == digits_value(input@.subrange(start as int, j as int)),
        decreases stop - j,
    {
        let ch = input.get_char(j);
        proof {
            let pre = input@.subrange(start as int, j as int);
            assert(all_alnum(pre));
            lemma_digits_value_alnum_bound(pre);
            lemma_pow10_mono(pre.len(), 24);
            assert(pow10(24) == 1000000000000000000000000) by {
                reveal_with_fuel(pow10, 25);
            }
            assert(input@.subrange(start as int, j + 1int).drop_last() =~= pre);
            assert(input@.subrange(start as int, j + 1int).last() == input@[j as int]);
        }
        r = r * 10 + char_value(ch) as u128;
        j = j + 1;
    }
    r
}

/// Removes every whitespace character from `input`.
pub fn strip_whitespace(input: &str) -> (r: String)
    ensures
        r@ == strip_spaces(input@),
{
    let n = input.unicode_len();
    let mut t = String::new();
    let mut i: usize = 0;
    while i < n
        invariant
            i <= n,
            n == input@.len(),
            t@ == strip_spaces(input@.take(i as int)),
        decreases n - i,
    {
        let c = input.get_char(i);
        if !is_space_char(c) {
            let piece = input.substring_char(i, i + 1);
            let ghost old_t = t@;
            t.append(piece);
            proof {
                assert(t@ =~= old_t.push(input@[i as int]));
            }
        }
        proof {
            assert(input@.take(i + 1int).drop_last() =~= input@.take(i as int));
            assert(input@.take(i + 1int).last() == input@[i as int]);
        }
        i = i + 1;
    }
    proof {
        assert(input@.take(n as int) =~= input@);
    }
    t
}

} // verus!
