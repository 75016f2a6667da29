//! The universal mod-97 checksum engine (ISO 7064 MOD 97-10 as specialized
//! by the IBAN standard).
//!
//! The string is rotated so that the country code and the check digits come
//! last, every letter is expanded to its base-36 value written in decimal
//! (`A = 10` to `Z = 35`, case-insensitively), and the resulting decimal
//! number, which can be far too long for any machine integer, must leave
//! remainder 1 when divided by 97. The executable scan reduces incrementally
//! instead of building the big number; the specification states the
//! remainder of the number itself.

use vstd::prelude::*;

use vstd::arithmetic::div_mod::{lemma_add_mod_noop, lemma_mul_mod_noop_left};

use crate::chars::{all_alnum, char_val, char_value, is_alnum, is_digit};

verus! {

/// The decimal digits a single character contributes to the expanded
/// string: a digit stands for itself, a letter for the two digits of its
/// base-36 value.
pub open spec fn char_digits(ch: char) -> Seq<nat> {
    if is_digit(ch) {
        seq![char_val(ch)]
    } else {
        seq![char_val(ch) / 10, char_val(ch) % 10]
    }
}

/// The decimal digits of the letter-expanded form of `s`, in order.
pub open spec fn expand_digits(s: Seq<char>) -> Seq<nat>
    decreases s.len(),
{
    if s.len() == 0 {
        Seq::empty()
    } else {
        expand_digits(s.drop_last()) + char_digits(s.last())
    }
}

/// The value of a string of decimal digits, most significant first.
pub open spec fn digits_seq_value(ds: Seq<nat>) -> nat
    decreases ds.len(),
{
    if ds.len() == 0 {
        0
    } else {
        digits_seq_value(ds.drop_last()) * 10 + ds.last()
    }
}

/// `s` with its first four characters (country code and check digits)
/// moved to the end.
pub open spec fn rotate_iban(s: Seq<char>) -> Seq<char> {
    if s.len() < 4 {
        s
    } else {
        s.subrange(4, s.len() as int) + s.subrange(0, 4)
    }
}

/// The remainder, modulo 97, of the decimal number obtained by rotating
/// `s` and expanding its letters.
pub open spec fn mod97_checksum(s: Seq<char>) -> nat {
    digits_seq_value(expand_digits(rotate_iban(s))) % 97
}

/// The IBAN checksum convention: the remainder must be exactly 1.
pub open spec fn mod97_ok(s: Seq<char>) -> bool {
    mod97_checksum(s) == 1
}

/// Appending one decimal digit multiplies the value by ten and adds the
/// digit, and that commutes with reduction modulo 97.
proof fn lemma_mod97_push_digit(ds: Seq<nat>, d: nat)
    ensures
        digits_seq_value(ds.push(d)) % 97 == ((digits_seq_value(ds) % 97) * 10 + d) % 97,
{
    assert(ds.push(d).drop_last() =~= ds);
    assert(digits_seq_value(ds.push(d)) == digits_seq_value(ds) * 10 + d);
    let v = digits_seq_value(ds) as int;
    lemma_add_mod_noop((v % 97) * 10, d as int, 97);
    lemma_mul_mod_noop_left(v, 10, 97);
    lemma_add_mod_noop(v * 10, d as int, 97);
    assert(((v % 97) * 10 + d) % 97 == (((v % 97) * 10) % 97 + d % 97) % 97);
    assert((((v % 97) * 10) % 97) == (v * 10) % 97);
    assert(((v * 10) % 97 + d % 97) % 97 == (v * 10 + d) % 97);
}

/// Feeds one character into the running remainder: one step for a digit,
/// two steps for the two decimal digits of a letter's value.
fn mod97_step(r: u32, ch: char) -> (r2: u32)
    requires
        r < 97,
        is_alnum(ch),
    ensures
        r2 < 97,
        forall|ds: Seq<nat>|
            digits_seq_value(ds) % 97 == r ==> digits_seq_value(ds + char_digits(ch)) % 97 == r2,
{
    let v = char_value(ch);
    let u = ch as u32;
    if 48 <= u && u <= 57 {
        let r2 = (r * 10 + v) % 97;
        assert forall|ds: Seq<nat>|
            digits_seq_value(ds) % 97 == r implies digits_seq_value(ds + char_digits(ch)) % 97
            == r2 by {
            assert(ds + char_digits(ch) =~= ds.push(char_val(ch)));
            lemma_mod97_push_digit(ds, char_val(ch));
        }
        r2
    } else {
        let d1 = v / 10;
        let d2 = v % 10;
        let r1 = (r * 10 + d1) % 97;
        let r2 = (r1 * 10 + d2) % 97;
        assert forall|ds: Seq<nat>|
            digits_seq_value(ds) % 97 == r implies digits_seq_value(ds + char_digits(ch)) % 97
            == r2 by {
            let mid = ds.push(char_val(ch) / 10);
            assert(ds + char_digits(ch) =~= mid.push(char_val(ch) % 10));
            lemma_mod97_push_digit(ds, char_val(ch) / 10);
            lemma_mod97_push_digit(mid, char_val(ch) % 10);
        }
        r2
    }
}

/// Computes the mod-97 remainder of the rotated, letter-expanded form of
/// `input` by an incremental left-to-right scan.
pub fn mod97_remainder(input: &str) -> (r: u32)
    requires
        input@.len() >= 4,
        all_alnum(input@),
    ensures
        r as nat == mod97_checksum(input@),
{
    let len = input.unicode_len();
    let rot = len - 4;
    let ghost rotated = rotate_iban(input@);
    assert(rotated.len() == len);
    let mut r: u32 = 0;
    let mut j: usize = 0;
    assert(expand_digits(rotated.take(0)) =~= Seq::<nat>::empty());
    while j < len
        invariant
            j <= len,
            r < 97,
            len == input@.len(),
            len >= 4,
            rot == len - 4,
            all_alnum(input@),
            rotated == rotate_iban(input@),
            r as nat == digits_seq_value(expand_digits(rotated.take(j as int))) % 97,
        decreases len - j,
    {
        let ch = if j < rot {
            input.get_char(j + 4)
        } else {
            input.get_char(j - rot)
        };
        proof {
            assert(rotated[j as int] == ch);
            assert(rotated.take(j + 1int).drop_last() =~= rotated.take(j as int));
            assert(expand_digits(rotated.take(j + 1int)) == expand_digits(rotated.take(j as int))
                + char_digits(ch));
        }
        r = mod97_step(r, ch);
        j = j + 1;
    }
    proof {
        assert(rotated.take(len as int) =~= rotated);
    }
    r
}

} // verus!
