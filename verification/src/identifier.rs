//! Random identifiers: 128 bits of which six are fixed, and their text form.
//!
//! The text form is the usual one: thirty-two lower-case hexadecimal digits,
//! most significant first, in groups of 8, 4, 4, 4 and 12 separated by
//! hyphens.

use vstd::prelude::*;

verus! {

/// The bits that a version 4 identifier fixes: the version digit and the two
/// variant bits.
pub const V4_FIXED_MASK: u128 = 0x0000_0000_0000_f000_c000_0000_0000_0000;

/// What those bits hold: version 4, variant `10`.
pub const V4_FIXED_BITS: u128 = 0x0000_0000_0000_4000_8000_0000_0000_0000;

/// `bits` is a version 4 identifier: all of it is free but the version digit,
/// which is 4, and the two variant bits, which are `10`.
pub open spec fn is_v4(bits: u128) -> bool {
    bits & V4_FIXED_MASK == V4_FIXED_BITS
}

/// The `k`-th hexadecimal digit of `bits`, counted from the most significant
/// (`0 <= k < 32`), as a number below 16.
pub open spec fn digit_value(bits: u128, k: int) -> u128
    recommends
        0 <= k < 32,
{
    (bits >> ((124 - 4 * k) as u128)) & 0xf
}

/// The lower-case hexadecimal digit for a number below 16.
pub open spec fn hex_digit(n: u128) -> char
    recommends
        n < 16,
{
    seq!['0', '1', '2', '3', '4', '5', '6', '7', '8', '9', 'a', 'b', 'c', 'd', 'e', 'f'][n as int]
}

/// The places of the text form that hold a hyphen.
pub open spec fn is_hyphen_place(i: int) -> bool {
    i == 8 || i == 13 || i == 18 || i == 23
}

/// Which digit stands at place `i` of the text form, for a place that holds
/// no hyphen: the place less the hyphens before it.
pub open spec fn digit_at_place(i: int) -> int
    recommends
        0 <= i < 36,
        !is_hyphen_place(i),
{
    if i < 8 {
        i
    } else if i < 13 {
        i - 1
    } else if i < 18 {
        i - 2
    } else if i < 23 {
        i - 3
    } else {
        i - 4
    }
}

/// The character at place `i` of the text form of `bits`.
pub open spec fn text_char(bits: u128, i: int) -> char
    recommends
        0 <= i < 36,
{
    if is_hyphen_place(i) {
        '-'
    } else {
        hex_digit(digit_value(bits, digit_at_place(i)))
    }
}

/// The text form of `bits`: 36 characters, hyphens at places 8, 13, 18 and
/// 23, the 32 digits of `bits` in order in the others.
pub open spec fn hyphenated_text(bits: u128) -> Seq<char> {
    Seq::new(36, |i: int| text_char(bits, i))
}

/// A lower-case hexadecimal digit.
pub open spec fn is_lower_hex(c: char) -> bool {
    ('0' <= c && c <= '9') || ('a' <= c && c <= 'f')
}

/// `s` reads as a version 4 identifier: 36 characters, hyphens at their four
/// places and lower-case hexadecimal digits elsewhere, the version digit `4`,
/// and a variant digit that begins with the bits `10`.
pub open spec fn is_v4_text(s: Seq<char>) -> bool {
    &&& s.len() == 36
    &&& forall|i: int|
        0 <= i < 36 ==> if is_hyphen_place(i) {
            #[trigger] s[i] == '-'
        } else {
            is_lower_hex(s[i])
        }
    &&& s[14] == '4'
    &&& (s[19] == '8' || s[19] == '9' || s[19] == 'a' || s[19] == 'b')
}

/// Every number below 16 has a lower-case hexadecimal digit.
proof fn lemma_hex_digit_is_lower_hex(n: u128)
    requires
        n < 16,
    ensures
        is_lower_hex(hex_digit(n)),
{
}

/// The text form of a version 4 identifier reads as one.
pub proof fn lemma_v4_text(bits: u128)
    requires
        is_v4(bits),
    ensures
        is_v4_text(hyphenated_text(bits)),
{
    let s = hyphenated_text(bits);
    assert forall|i: int| 0 <= i < 36 && !is_hyphen_place(i) implies is_lower_hex(
        #[trigger] s[i],
    ) by {
        let k = digit_at_place(i);
        let shift = (124 - 4 * k) as u128;
        assert((bits >> shift) & 0xf < 16) by (bit_vector);
        lemma_hex_digit_is_lower_hex(digit_value(bits, k));
    }
    assert(digit_value(bits, 12) == 4) by {
        assert(bits & 0x0000_0000_0000_f000_c000_0000_0000_0000
            == 0x0000_0000_0000_4000_8000_0000_0000_0000 ==> (bits >> 76) & 0xf == 4)
            by (bit_vector);
    }
    let variant = digit_value(bits, 16);
    assert(8 <= variant < 12) by {
        assert(bits & 0x0000_0000_0000_f000_c000_0000_0000_0000
            == 0x0000_0000_0000_4000_8000_0000_0000_0000 ==> 8 <= (bits >> 60) & 0xf < 12)
            by (bit_vector);
    }
}

/// Two numbers below 16 with the same digit are the same number.
proof fn lemma_hex_digit_is_injective(n: u128, m: u128)
    requires
        n < 16,
        m < 16,
        hex_digit(n) == hex_digit(m),
    ensures
        n == m,
{
}

/// At which place of the text form the `k`-th digit stands: `k` plus the
/// hyphens before it.
spec fn place_of_digit(k: int) -> int
    recommends
        0 <= k < 32,
{
    if k < 8 {
        k
    } else if k < 12 {
        k + 1
    } else if k < 16 {
        k + 2
    } else if k < 20 {
        k + 3
    } else {
        k + 4
    }
}

/// Identifiers with the same text form are the same identifier: the text
/// loses nothing, so two tokens are equal only if the identifiers drawn for
/// them were.
pub proof fn lemma_text_determines_identifier(a: u128, b: u128)
    requires
        hyphenated_text(a) == hyphenated_text(b),
    ensures
        a == b,
{
    assert forall|k: int| 0 <= k < 32 implies digit_value(a, k) == digit_value(b, k) by {
        let i = place_of_digit(k);
        assert(!is_hyphen_place(i) && digit_at_place(i) == k);
        assert(hyphenated_text(a)[i] == text_char(a, i));
        assert(hyphenated_text(b)[i] == text_char(b, i));
        let shift = (124 - 4 * k) as u128;
        assert((a >> shift) & 0xf < 16) by (bit_vector);
        assert((b >> shift) & 0xf < 16) by (bit_vector);
        lemma_hex_digit_is_injective(digit_value(a, k), digit_value(b, k));
    }
    // The thirty-two digits one by one, then the whole from its digits.
    assert(digit_value(a, 0) == digit_value(b, 0));
    assert(digit_value(a, 1) == digit_value(b, 1));
    assert(digit_value(a, 2) == digit_value(b, 2));
    assert(digit_value(a, 3) == digit_value(b, 3));
    assert(digit_value(a, 4) == digit_value(b, 4));
    assert(digit_value(a, 5) == digit_value(b, 5));
    assert(digit_value(a, 6) == digit_value(b, 6));
    assert(digit_value(a, 7) == digit_value(b, 7));
    assert(digit_value(a, 8) == digit_value(b, 8));
    assert(digit_value(a, 9) == digit_value(b, 9));
    assert(digit_value(a, 10) == digit_value(b, 10));
    assert(digit_value(a, 11) == digit_value(b, 11));
    assert(digit_value(a, 12) == digit_value(b, 12));
    assert(digit_value(a, 13) == digit_value(b, 13));
    assert(digit_value(a, 14) == digit_value(b, 14));
    assert(digit_value(a, 15) == digit_value(b, 15));
    assert(digit_value(a, 16) == digit_value(b, 16));
    assert(digit_value(a, 17) == digit_value(b, 17));
    assert(digit_value(a, 18) == digit_value(b, 18));
    assert(digit_value(a, 19) == digit_value(b, 19));
    assert(digit_value(a, 20) == digit_value(b, 20));
    assert(digit_value(a, 21) == digit_value(b, 21));
    assert(digit_value(a, 22) == digit_value(b, 22));
    assert(digit_value(a, 23) == digit_value(b, 23));
    assert(digit_value(a, 24) == digit_value(b, 24));
    assert(digit_value(a, 25) == digit_value(b, 25));
    assert(digit_value(a, 26) == digit_value(b, 26));
    assert(digit_value(a, 27) == digit_value(b, 27));
    assert(digit_value(a, 28) == digit_value(b, 28));
    assert(digit_value(a, 29) == digit_value(b, 29));
    assert(digit_value(a, 30) == digit_value(b, 30));
    assert(digit_value(a, 31) == digit_value(b, 31));
    assert(((a >> 124) & 0xf == (b >> 124) & 0xf &&
            (a >> 120) & 0xf == (b >> 120) & 0xf &&
            (a >> 116) & 0xf == (b >> 116) & 0xf &&
            (a >> 112) & 0xf == (b >> 112) & 0xf &&
            (a >> 108) & 0xf == (b >> 108) & 0xf &&
            (a >> 104) & 0xf == (b >> 104) & 0xf &&
            (a >> 100) & 0xf == (b >> 100) & 0xf &&
            (a >> 96) & 0xf == (b >> 96) & 0xf &&
            (a >> 92) & 0xf == (b >> 92) & 0xf &&
            (a >> 88) & 0xf == (b >> 88) & 0xf &&
            (a >> 84) & 0xf == (b >> 84) & 0xf &&
            (a >> 80) & 0xf == (b >> 80) & 0xf &&
            (a >> 76) & 0xf == (b >> 76) & 0xf &&
            (a >> 72) & 0xf == (b >> 72) & 0xf &&
            (a >> 68) & 0xf == (b >> 68) & 0xf &&
            (a >> 64) & 0xf == (b >> 64) & 0xf &&
            (a >> 60) & 0xf == (b >> 60) & 0xf &&
            (a >> 56) & 0xf == (b >> 56) & 0xf &&
            (a >> 52) & 0xf == (b >> 52) & 0xf &&
            (a >> 48) & 0xf == (b >> 48) & 0xf &&
            (a >> 44) & 0xf == (b >> 44) & 0xf &&
            (a >> 40) & 0xf == (b >> 40) & 0xf &&
            (a >> 36) & 0xf == (b >> 36) & 0xf &&
            (a >> 32) & 0xf == (b >> 32) & 0xf &&
            (a >> 28) & 0xf == (b >> 28) & 0xf &&
            (a >> 24) & 0xf == (b >> 24) & 0xf &&
            (a >> 20) & 0xf == (b >> 20) & 0xf &&
            (a >> 16) & 0xf == (b >> 16) & 0xf &&
            (a >> 12) & 0xf == (b >> 12) & 0xf &&
            (a >> 8) & 0xf == (b >> 8) & 0xf &&
            (a >> 4) & 0xf == (b >> 4) & 0xf &&
            (a >> 0) & 0xf == (b >> 0) & 0xf) ==> a == b) by (bit_vector);
}

/// A fresh random identifier.
///
/// Trusted: the body is `uuid::Uuid::new_v4`, read back as a number with
/// `as_u128`. The contract says what `new_v4` does to the random bits it
/// draws: it sets the version digit to 4 and the variant bits to `10`, and
/// leaves the rest as drawn. Nothing is said of the random part. (It
/// panics when the operating system has no random bytes to give, which no
/// argument brings about.)
#[verifier::external_body]
pub(crate) fn random_v4() -> (bits: u128)
    ensures
        is_v4(bits),
{
    uuid::Uuid::new_v4().as_u128()
}

/// The text form of an identifier.
///
/// Trusted: the body is the `Display` of `uuid::Uuid`, on the identifier
/// made from `bits` with `from_u128`. The contract says that it writes the
/// hyphenated lower-case form, [`hyphenated_text`].
#[verifier::external_body]
pub(crate) fn hyphenated(bits: u128) -> (text: String)
    ensures
        text@ == hyphenated_text(bits),
{
    uuid::Uuid::from_u128(bits).to_string()
}

} // verus!
