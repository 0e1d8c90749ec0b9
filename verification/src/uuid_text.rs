//! 128-bit random identifiers and their canonical text form: the hyphenated
//! lowercase 36-character encoding, its decoder, and the round-trip law.

use vstd::prelude::*;
use vstd::arithmetic::power::{pow, lemma_pow_increases, lemma_pow_adds};
use vstd::arithmetic::div_mod::lemma_fundamental_div_mod;

verus! {

/// Numeric value of a hex digit character (upper or lower case), or 16 for
/// any other character.
pub open spec fn hex_digit_value(c: char) -> int {
    let u = c as u32;
    if 48 <= u && u <= 57 {
        u - 48
    } else if 97 <= u && u <= 102 {
        u - 97 + 10
    } else if 65 <= u && u <= 70 {
        u - 65 + 10
    } else {
        16
    }
}

pub open spec fn is_hex_digit(c: char) -> bool {
    hex_digit_value(c) < 16
}

/// Lowercase hex digit character for a value below 16.
pub open spec fn hex_digit_char(d: int) -> char {
    if d == 0 { '0' }
    else if d == 1 { '1' }
    else if d == 2 { '2' }
    else if d == 3 { '3' }
    else if d == 4 { '4' }
    else if d == 5 { '5' }
    else if d == 6 { '6' }
    else if d == 7 { '7' }
    else if d == 8 { '8' }
    else if d == 9 { '9' }
    else if d == 10 { 'a' }
    else if d == 11 { 'b' }
    else if d == 12 { 'c' }
    else if d == 13 { 'd' }
    else if d == 14 { 'e' }
    else { 'f' }
}

/// The `n` lowercase hex digits of `x`, most significant first.
pub open spec fn hex_digits(x: int, n: nat) -> Seq<char>
    decreases n,
{
    if n == 0 {
        Seq::empty()
    } else {
        hex_digits(x / 16, (n - 1) as nat).push(hex_digit_char(x % 16))
    }
}

/// Value denoted by a sequence of hex digit characters, most significant
/// first.
pub open spec fn hex_value(s: Seq<char>) -> int
    decreases s.len(),
{
    if s.len() == 0 {
        0
    } else {
        hex_value(s.drop_last()) * 16 + hex_digit_value(s.last())
    }
}

/// Canonical text of a 128-bit identifier: 32 lowercase hex digits, most
/// significant first, with hyphens after the 8th, 12th, 16th and 20th.
pub open spec fn canonical_uuid_text(x: u128) -> Seq<char> {
    let d = hex_digits(x as int, 32);
    d.subrange(0, 8) + seq!['-'] + d.subrange(8, 12) + seq!['-'] + d.subrange(12, 16) + seq!['-']
        + d.subrange(16, 20) + seq!['-'] + d.subrange(20, 32)
}

/// The 32 digit positions of a 36-character hyphenated text, in order.
pub open spec fn uuid_digit_positions(s: Seq<char>) -> Seq<char> {
    s.subrange(0, 8) + s.subrange(9, 13) + s.subrange(14, 18) + s.subrange(19, 23) + s.subrange(
        24,
        36,
    )
}

/// Shape of a hyphenated identifier text: hyphens in the four canonical
/// places, hex digits (either case) everywhere else.
pub open spec fn is_uuid_text(s: Seq<char>) -> bool {
    &&& s.len() == 36
    &&& s[8] == '-'
    &&& s[13] == '-'
    &&& s[18] == '-'
    &&& s[23] == '-'
    &&& forall|j: int| 0 <= j < 32 ==> is_hex_digit(#[trigger] uuid_digit_positions(s)[j])
}

/// Value denoted by a hyphenated identifier text, or nothing when the text
/// is not of that shape.
pub open spec fn parse_uuid_text(s: Seq<char>) -> Option<u128> {
    if is_uuid_text(s) {
        Some(hex_value(uuid_digit_positions(s)) as u128)
    } else {
        None
    }
}

/// Version field of a 128-bit identifier: the high nibble of its seventh
/// byte.
pub open spec fn uuid_version_num(x: u128) -> u128 {
    (x >> 76) & 0xf
}

/// The 32-digit bound is exactly the 128-bit bound.
proof fn lemma_pow16_32()
    ensures
        pow(16, 32) == 0x100000000000000000000000000000000,
{
    reveal(pow);
    assert(pow(16, 0) == 1);
    assert(pow(16, 1) == 16);
    lemma_pow_adds(16, 1, 1);
    assert(pow(16, 2) == 0x100);
    lemma_pow_adds(16, 2, 2);
    assert(pow(16, 4) == 0x10000);
    lemma_pow_adds(16, 4, 4);
    assert(pow(16, 8) == 0x100000000);
    lemma_pow_adds(16, 8, 8);
    assert(pow(16, 16) == 0x10000000000000000);
    lemma_pow_adds(16, 16, 16);
}

proof fn lemma_hex_digit_char_value(d: int)
    requires
        0 <= d < 16,
    ensures
        hex_digit_value(hex_digit_char(d)) == d,
        is_hex_digit(hex_digit_char(d)),
        hex_digit_char(d) != '-',
{
}

/// Writing a value as `n` hex digits and reading them back is the identity,
/// for values below the n-digit bound.
proof fn lemma_hex_digits_value(x: int, n: nat)
    requires
        0 <= x < pow(16, n),
    ensures
        hex_digits(x, n).len() == n,
        hex_value(hex_digits(x, n)) == x,
        forall|j: int| 0 <= j < n ==> is_hex_digit(#[trigger] hex_digits(x, n)[j]),
        forall|j: int| 0 <= j < n ==> #[trigger] hex_digits(x, n)[j] != '-',
    decreases n,
{
    reveal(pow);
    if n == 0 {
        assert(pow(16, 0) == 1);
    } else {
        let q = x / 16;
        let m = n - 1;
        assert(pow(16, n) == 16 * pow(16, m as nat));
        assert(q < pow(16, m as nat) && q >= 0) by (nonlinear_arith)
            requires
                0 <= x < 16 * pow(16, m as nat),
                q == x / 16,
        ;
        lemma_hex_digits_value(q, m as nat);
        let d = hex_digits(x, n);
        let prefix = hex_digits(q, m as nat);
        lemma_hex_digit_char_value(x % 16);
        assert(d.drop_last() =~= prefix);
        lemma_fundamental_div_mod(x, 16);
        assert(forall|j: int| 0 <= j < n ==> is_hex_digit(#[trigger] d[j]) && d[j] != '-') by {
            assert(forall|j: int| 0 <= j < m ==> d[j] == prefix[j]);
        }
    }
}

/// The canonical text of `x` is 36 characters with the hyphens in the four
/// canonical places, and its digit positions read back as the 32 hex digits
/// of `x`.
proof fn lemma_canonical_shape(x: u128)
    ensures
        canonical_uuid_text(x).len() == 36,
        is_uuid_text(canonical_uuid_text(x)),
        uuid_digit_positions(canonical_uuid_text(x)) =~= hex_digits(x as int, 32),
{
    lemma_pow16_32();
    lemma_hex_digits_value(x as int, 32);
    let d = hex_digits(x as int, 32);
    let c = canonical_uuid_text(x);
    assert(c.len() == 36);
    assert(uuid_digit_positions(c) =~= d);
    assert(forall|j: int| 0 <= j < 32 ==> is_hex_digit(#[trigger] uuid_digit_positions(c)[j]));
}

/// Round trip of the canonical encoding: every 128-bit value, written in its
/// canonical hyphenated lowercase form, parses back to itself.
pub proof fn lemma_canonical_text_round_trip(x: u128)
    ensures
        parse_uuid_text(canonical_uuid_text(x)) == Some(x),
{
    lemma_canonical_shape(x);
    lemma_pow16_32();
    lemma_hex_digits_value(x as int, 32);
}

/// Numeric value of a hex digit character, or 16 for any other character.
fn hex_char_value(c: char) -> (d: u8)
    ensures
        d as int == hex_digit_value(c),
{
    let u = c as u32;
    if 48 <= u && u <= 57 {
        (u - 48) as u8
    } else if 97 <= u && u <= 102 {
        (u - 97 + 10) as u8
    } else if 65 <= u && u <= 70 {
        (u - 65 + 10) as u8
    } else {
        16
    }
}

/// Index in a 36-character hyphenated text of its `j`-th digit.
spec fn digit_position(j: int) -> int {
    if j < 8 { j } else if j < 12 { j + 1 } else if j < 16 { j + 2 } else if j < 20 { j + 3 } else { j + 4 }
}

proof fn lemma_digit_position(s: Seq<char>, j: int)
    requires
        s.len() == 36,
        0 <= j < 32,
    ensures
        uuid_digit_positions(s)[j] == s[digit_position(j)],
        uuid_digit_positions(s).len() == 32,
{
}

/// Decodes a hyphenated identifier text; any other shape yields nothing.
pub fn parse_uuid_str(s: &str) -> (r: Option<u128>)
    ensures
        r == parse_uuid_text(s@),
{
    let n = s.unicode_len();
    if n != 36 {
        return None;
    }
    if s.get_char(8) != '-' || s.get_char(13) != '-' || s.get_char(18) != '-' || s.get_char(23)
        != '-' {
        return None;
    }
    let ghost dp = uuid_digit_positions(s@);
    proof {
        assert(dp.len() == 32);
        reveal(pow);
        assert(pow(16, 0) == 1);
    }
    let mut value: u128 = 0;
    let mut j: usize = 0;
    while j < 32
        invariant
            s@.len() == 36,
            0 <= j <= 32,
            s@[8] == '-' && s@[13] == '-' && s@[18] == '-' && s@[23] == '-',
            dp == uuid_digit_positions(s@),
            dp.len() == 32,
            value as int == hex_value(dp.take(j as int)),
            (value as int) < pow(16, j as nat),
            forall|k: int| 0 <= k < j ==> is_hex_digit(#[trigger] dp[k]),
        decreases 32 - j,
    {
        let pos = if j < 8 {
            j
        } else if j < 12 {
            j + 1
        } else if j < 16 {
            j + 2
        } else if j < 20 {
            j + 3
        } else {
            j + 4
        };
        proof {
            lemma_digit_position(s@, j as int);
        }
        let c = s.get_char(pos);
        let d = hex_char_value(c);
        if d >= 16 {
            proof {
                assert(!is_uuid_text(s@));
            }
            return None;
        }
        proof {
            reveal(pow);
            lemma_pow_increases(16, (j + 1) as nat, 32);
            lemma_pow16_32();
            assert(pow(16, (j + 1) as nat) == 16 * pow(16, j as nat));
            assert((value as int) * 16 + (d as int) < pow(16, (j + 1) as nat)) by (nonlinear_arith)
                requires
                    (value as int) < pow(16, j as nat),
                    d < 16,
                    pow(16, (j + 1) as nat) == 16 * pow(16, j as nat),
            ;
            assert(dp.take(j + 1).drop_last() =~= dp.take(j as int));
            assert(dp.take(j + 1).last() == c);
        }
        value = value * 16 + (d as u128);
        j = j + 1;
    }
    proof {
        assert(dp.take(32) =~= dp);
        assert(is_uuid_text(s@));
        assert(hex_value(dp) == value as int);
    }
    Some(value)
}

/// Relies on uuid's Uuid::new_v4 and Uuid::as_u128: a fresh random
/// identifier, with the version field set to 4 and the variant bits to
/// binary 10; nothing else is assumed of its value.
#[verifier::external_body]
pub(crate) fn new_random_uuid() -> (r: u128)
    ensures
        uuid_version_num(r) == 4,
        (r >> 62) & 0x3 == 2,
{
    uuid::Uuid::new_v4().as_u128()
}

/// Relies on uuid's Hyphenated formatting: 32 lowercase hex digits of the
/// value, most significant first, with hyphens after the 8th, 12th, 16th
/// and 20th digits.
#[verifier::external_body]
fn hyphenated_lowercase(x: u128) -> (r: String)
    ensures
        r@ == canonical_uuid_text(x),
{
    uuid::Uuid::from_u128(x).hyphenated().to_string()
}

/// Canonical text of a 128-bit identifier.
pub fn encode_uuid_text(x: u128) -> (r: String)
    ensures
        r@ == canonical_uuid_text(x),
{
    hyphenated_lowercase(x)
}

} // verus!
