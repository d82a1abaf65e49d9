//! Reading integers from text and writing them back as hex or decimal.

use crate::error::KeyGenError;
use crate::natural::Natural;
use num_bigint::BigUint;
use vstd::prelude::*;
use vstd::string::StrSliceExecFns;
use vstd::string::StringExecFns;

verus! {

/// The characters that carry Unicode's White_Space property.
pub open spec fn is_white_space(c: char) -> bool {
    let u = c as u32;
    (0x09 <= u <= 0x0D) || u == 0x20 || u == 0x85 || u == 0xA0 || u == 0x1680 || (0x2000 <= u
        <= 0x200A) || u == 0x2028 || u == 0x2029 || u == 0x202F || u == 0x205F || u == 0x3000
}

/// Whether `c` is a separator: white space, and `_` where `underscores` holds.
pub open spec fn is_separator(c: char, underscores: bool) -> bool {
    is_white_space(c) || (underscores && c == '_')
}

/// `s` with every separator removed, the rest in order.
pub open spec fn stripped(s: Seq<char>, underscores: bool) -> Seq<char>
    decreases s.len(),
{
    if s.len() == 0 {
        s
    } else {
        let rest = stripped(s.drop_last(), underscores);
        if is_separator(s.last(), underscores) {
            rest
        } else {
            rest.push(s.last())
        }
    }
}

/// The value of a digit character in any base up to 36 (either case of
/// letter); 36 for a character that is no digit.
pub open spec fn digit_value(c: char) -> nat {
    let u = c as u32;
    if 0x30 <= u <= 0x39 {
        (u - 0x30) as nat
    } else if 0x41 <= u <= 0x5A {
        (u - 0x41 + 10) as nat
    } else if 0x61 <= u <= 0x7A {
        (u - 0x61 + 10) as nat
    } else {
        36
    }
}

/// Every character of `s` is a digit of base `radix`.
pub open spec fn all_digits(s: Seq<char>, radix: nat) -> bool {
    forall|i: int| 0 <= i < s.len() ==> #[trigger] digit_value(s[i]) < radix
}

/// The number that the digits `s` write in base `radix`, most significant first.
pub open spec fn digits_value(s: Seq<char>, radix: nat) -> nat
    decreases s.len(),
{
    if s.len() == 0 {
        0
    } else {
        digits_value(s.drop_last(), radix) * radix + digit_value(s.last())
    }
}

/// `t` starts with `0x` or `0X`.
pub open spec fn has_hex_prefix(t: Seq<char>) -> bool {
    t.len() >= 2 && t[0] == '0' && (t[1] == 'x' || t[1] == 'X')
}

/// What reading `s` as a number gives: separators (white space and `_`) are
/// dropped, a `0x`/`0X` prefix selects base 16, and base 10 is used otherwise.
pub open spec fn parsed(s: Seq<char>) -> Result<nat, KeyGenError> {
    let t = stripped(s, true);
    if t.len() == 0 {
        Err(KeyGenError::EmptyValue)
    } else {
        let radix: nat = if has_hex_prefix(t) { 16 } else { 10 };
        let d = if has_hex_prefix(t) { t.subrange(2, t.len() as int) } else { t };
        if d.len() > 0 && all_digits(d, radix) {
            Ok(digits_value(d, radix))
        } else {
            Err(KeyGenError::MalformedNumber)
        }
    }
}

/// What reading `s` as bare hex digits gives, white space dropped.
pub open spec fn parsed_hex(s: Seq<char>) -> Option<nat> {
    let t = stripped(s, false);
    if t.len() > 0 && all_digits(t, 16) {
        Some(digits_value(t, 16))
    } else {
        None
    }
}

/// Relies on `char::is_whitespace`: true exactly for the characters with
/// Unicode's White_Space property, the code points that `is_white_space`
/// lists from the Unicode Character Database (PropList.txt).
#[verifier::external_body]
fn char_is_whitespace(c: char) -> (r: bool)
    ensures
        r == is_white_space(c),
{
    c.is_whitespace()
}

/// Relies on `BigUint::parse_bytes`: a non-empty run of digits of the base
/// (so no sign and no `_`) reads as the number it writes, most significant
/// digit first.
#[verifier::external_body]
fn parse_digits(digits: &Vec<char>, radix: u32) -> (r: Option<Natural>)
    requires
        2 <= radix <= 36,
    ensures
        digits@.len() > 0 && all_digits(digits@, radix as nat) ==> r is Some,
        digits@.len() > 0 && all_digits(digits@, radix as nat) ==> r->Some_0@ == digits_value(digits@, radix as nat),
{
    let text: String = digits.iter().collect();
    match BigUint::parse_bytes(text.as_bytes(), radix) {
        Some(b) => Some(Natural { limbs: b.to_u32_digits() }),
        None => None,
    }
}

/// The characters of `input` that are not separators.
fn strip(input: &str, underscores: bool) -> (r: Vec<char>)
    ensures
        r@ == stripped(input@, underscores),
{
    let mut out: Vec<char> = Vec::new();
    let n = input.unicode_len();
    let mut i: usize = 0;
    while i < n
        invariant
            n == input@.len(),
            i <= n,
            out@ == stripped(input@.take(i as int), underscores),
        decreases n - i,
    {
        let c = input.get_char(i);
        proof {
            assert(input@.take(i as int + 1).drop_last() =~= input@.take(i as int));
        }
        if !char_is_whitespace(c) && !(underscores && c == '_') {
            out.push(c);
        }
        i = i + 1;
    }
    proof {
        assert(input@.take(n as int) =~= input@);
    }
    out
}

/// The value of `c` as a digit, as `digit_value` gives it.
fn digit_of(c: char) -> (r: u32)
    ensures
        r as nat == digit_value(c),
{
    let u = c as u32;
    if 0x30 <= u && u <= 0x39 {
        u - 0x30
    } else if 0x41 <= u && u <= 0x5A {
        u - 0x41 + 10
    } else if 0x61 <= u && u <= 0x7A {
        u - 0x61 + 10
    } else {
        36
    }
}

/// Reads `chars[start..]` as digits of base `radix`: `None` unless that
/// part is non-empty and every character in it is such a digit.
fn read_digits(chars: &Vec<char>, start: usize, radix: u32) -> (r: Option<Natural>)
    requires
        start <= chars@.len(),
        2 <= radix <= 36,
    ensures
        ({
            let d = chars@.subrange(start as int, chars@.len() as int);
            &&& r is Some <==> (d.len() > 0 && all_digits(d, radix as nat))
            &&& r is Some ==> r->Some_0@ == digits_value(d, radix as nat)
        }),
{
    let mut digits: Vec<char> = Vec::new();
    let mut valid = true;
    let mut i: usize = start;
    while i < chars.len()
        invariant
            start <= i <= chars@.len(),
            digits@ == chars@.subrange(start as int, i as int),
            valid == all_digits(digits@, radix as nat),
        decreases chars@.len() - i,
    {
        let c = chars[i];
        if digit_of(c) >= radix {
            valid = false;
        }
        let ghost before = digits@;
        digits.push(c);
        i = i + 1;
        proof {
            assert(digits@ =~= chars@.subrange(start as int, i as int));
            assert(digits@[before.len() as int] == c);
            assert forall|j: int| 0 <= j < before.len() implies digits@[j] == before[j] by {}
            if valid {
                assert(all_digits(digits@, radix as nat));
            } else if digit_value(c) < radix {
                let k = choose|k: int| 0 <= k < before.len() && !(digit_value(before[k]) < radix);
                assert(digit_value(digits@[k]) >= radix);
            }
        }
    }
    if digits.len() == 0 || !valid {
        return None;
    }
    parse_digits(&digits, radix)
}

/// Reads a number written in decimal, or in hex after a `0x` or `0X`
/// prefix; white space and `_` anywhere in the text are ignored.
pub fn parse_biguint(input: &str) -> (r: Result<Natural, KeyGenError>)
    ensures
        match r {
            Ok(n) => parsed(input@) == Ok::<nat, KeyGenError>(n@),
            Err(e) => parsed(input@) == Err::<nat, KeyGenError>(e),
        },
{
    let cleaned = strip(input, true);
    if cleaned.len() == 0 {
        return Err(KeyGenError::EmptyValue);
    }
    let hex = cleaned.len() >= 2 && cleaned[0] == '0' && (cleaned[1] == 'x' || cleaned[1] == 'X');
    let (radix, start): (u32, usize) = if hex { (16, 2) } else { (10, 0) };
    proof {
        assert(hex == has_hex_prefix(cleaned@));
        assert(cleaned@.subrange(0, cleaned@.len() as int) =~= cleaned@);
    }
    match read_digits(&cleaned, start, radix) {
        Some(n) => Ok(n),
        None => Err(KeyGenError::MalformedNumber),
    }
}

/// Reads bare hex digits (no prefix, no `_`), white space ignored: the form
/// in which a named group's modulus is written.
pub fn parse_hex_biguint(hex: &str) -> (r: Option<Natural>)
    ensures
        match r {
            Some(n) => parsed_hex(hex@) == Some(n@),
            None => parsed_hex(hex@) is None,
        },
{
    let cleaned = strip(hex, false);
    proof {
        assert(cleaned@.subrange(0, cleaned@.len() as int) =~= cleaned@);
    }
    read_digits(&cleaned, 0, 16)
}

/// The digit character for `d`, uppercase for ten and more.
pub open spec fn digit_char(d: nat) -> char {
    seq!['0', '1', '2', '3', '4', '5', '6', '7', '8', '9', 'A', 'B', 'C', 'D', 'E', 'F'][d as int]
}

/// `c` is one of `0`-`9` or `A`-`F`.
pub open spec fn is_upper_hex_digit(c: char) -> bool {
    let u = c as u32;
    (0x30 <= u <= 0x39) || (0x41 <= u <= 0x46)
}

/// The digits of `n` in base `radix` (2 to 16), most significant first,
/// with no leading zero; zero is written `0`.
pub open spec fn digits_of(n: nat, radix: nat) -> Seq<char>
    decreases n
    via digits_of_decreases

{
    if radix < 2 || n < radix {
        seq![digit_char(n)]
    } else {
        digits_of(n / radix, radix).push(digit_char(n % radix))
    }
}

#[via_fn]
proof fn digits_of_decreases(n: nat, radix: nat) {
    if !(radix < 2 || n < radix) {
        assert(n / radix < n) by (nonlinear_arith)
            requires
                radix >= 2,
                n >= radix,
        ;
    }
}

/// Each digit character reads back as its digit and is uppercase.
proof fn lemma_digit_char(d: nat)
    requires
        d < 16,
    ensures
        digit_value(digit_char(d)) == d,
        is_upper_hex_digit(digit_char(d)),
{
    assert(('0' as u32) == 0x30);
    assert(('A' as u32) == 0x41);
    assert(('F' as u32) == 0x46);
}

/// The uppercase hex digits of `n`, led by one `0` where their count is odd.
pub open spec fn even_hex(n: nat) -> Seq<char> {
    let h = digits_of(n, 16);
    if h.len() % 2 == 1 {
        seq!['0'] + h
    } else {
        h
    }
}

/// Relies on `UpperHex for BigUint`: the uppercase hex digits of the value,
/// with no prefix and no leading zero.
#[verifier::external_body]
fn upper_hex(value: &Natural) -> (r: String)
    ensures
        r@ == digits_of(value@, 16),
{
    format!("{:X}", BigUint::new(value.limbs.clone()))
}

/// Relies on `BigUint::to_str_radix` in base 10: the decimal digits of the
/// value, with no leading zero.
#[verifier::external_body]
fn decimal_digits(value: &Natural) -> (r: String)
    ensures
        r@ == digits_of(value@, 10),
{
    BigUint::new(value.limbs.clone()).to_str_radix(10)
}

/// The digits that `digits_of` writes are digits of the base, uppercase,
/// and read back as the number.
pub proof fn lemma_digits_of(n: nat, radix: nat)
    requires
        2 <= radix <= 16,
    ensures
        digits_of(n, radix).len() > 0,
        all_digits(digits_of(n, radix), radix),
        forall|i: int| 0 <= i < digits_of(n, radix).len() ==> #[trigger] is_upper_hex_digit(digits_of(n, radix)[i]),
        digits_value(digits_of(n, radix), radix) == n,
    decreases n,
{
    if n < radix {
        lemma_digit_char(n);
        let s = digits_of(n, radix);
        assert(s == seq![digit_char(n)]);
        assert(s.drop_last() =~= Seq::<char>::empty());
        assert(digits_value(s.drop_last(), radix) == 0);
        assert(s.last() == digit_char(n));
        assert(digits_value(s, radix) == 0 * radix + n);
    } else {
        let q = n / radix;
        let m = n % radix;
        assert(q < n) by (nonlinear_arith)
            requires
                radix >= 2,
                n >= radix,
                q == n / radix,
        ;
        lemma_digits_of(q, radix);
        lemma_digit_char(m);
        let p = digits_of(q, radix);
        let s = p.push(digit_char(m));
        assert(s.drop_last() =~= p);
        assert(digits_of(n, radix) == s);
        assert(digits_value(s, radix) == q * radix + m);
        assert forall|i: int| 0 <= i < s.len() implies digit_value(#[trigger] s[i]) < radix && is_upper_hex_digit(s[i]) by {
            if i < p.len() {
                assert(s[i] == p[i]);
            }
        }
        assert(n == q * radix + m) by (nonlinear_arith)
            requires
                radix >= 2,
                q == n / radix,
                m == n % radix,
        ;
    }
}

/// A leading `0` does not change what digits read as.
pub proof fn lemma_leading_zero(s: Seq<char>, radix: nat)
    ensures
        digits_value(seq!['0'] + s, radix) == digits_value(s, radix),
    decreases s.len(),
{
    let t = seq!['0'] + s;
    lemma_digit_char(0);
    if s.len() == 0 {
        assert(t.drop_last() =~= Seq::<char>::empty());
        assert(digits_value(t.drop_last(), radix) == 0);
        assert(digits_value(t, radix) == 0 * radix + digit_value('0'));
        assert(digits_value(s, radix) == 0);
    } else {
        assert(t.drop_last() =~= seq!['0'] + s.drop_last());
        assert(t.last() == s.last());
        lemma_leading_zero(s.drop_last(), radix);
        assert(digits_value(t, radix) == digits_value(t.drop_last(), radix) * radix + digit_value(
            t.last(),
        ));
    }
}

/// Renders `value` as uppercase hex with an even number of digits, led by a
/// single `0` where the natural digit count is odd; no `0x` prefix.
pub fn to_even_length_hex(value: &Natural) -> (r: String)
    ensures
        r@ == even_hex(value@),
        r@.len() % 2 == 0,
        forall|i: int| 0 <= i < r@.len() ==> #[trigger] is_upper_hex_digit(r@[i]),
{
    proof {
        lemma_digits_of(value@, 16);
    }
    let hex = upper_hex(value);
    if hex.as_str().unicode_len() % 2 == 0 {
        hex
    } else {
        let mut padded = String::from_str("0");
        proof {
            reveal_strlit("0");
        }
        padded.append(hex.as_str());
        proof {
            let h = digits_of(value@, 16);
            assert forall|i: int| 0 <= i < padded@.len() implies #[trigger] is_upper_hex_digit(padded@[i]) by {
                if i > 0 {
                    assert(padded@[i] == h[i - 1]);
                }
            }
        }
        padded
    }
}

/// Renders `value` as plain decimal digits.
pub fn to_decimal(value: &Natural) -> (r: String)
    ensures
        r@ == digits_of(value@, 10),
{
    decimal_digits(value)
}

/// Text with no separator in it is left as it is by stripping.
proof fn lemma_stripped_unchanged(s: Seq<char>, underscores: bool)
    requires
        forall|i: int| 0 <= i < s.len() ==> !is_separator(#[trigger] s[i], underscores),
    ensures
        stripped(s, underscores) == s,
    decreases s.len(),
{
    if s.len() > 0 {
        lemma_stripped_unchanged(s.drop_last(), underscores);
        assert(s.drop_last().push(s.last()) =~= s);
    }
}

/// Uppercase hex digits are neither white space nor `_`.
proof fn lemma_hex_digit_not_separator(c: char, underscores: bool)
    requires
        is_upper_hex_digit(c),
    ensures
        !is_separator(c, underscores),
{
    assert(('_' as u32) == 0x5F);
}

/// The even-length hex of `n` is made of uppercase hex digits and reads back as `n`.
proof fn lemma_even_hex(n: nat)
    ensures
        even_hex(n).len() > 0,
        all_digits(even_hex(n), 16),
        forall|i: int| 0 <= i < even_hex(n).len() ==> #[trigger] is_upper_hex_digit(even_hex(n)[i]),
        digits_value(even_hex(n), 16) == n,
{
    lemma_digits_of(n, 16);
    let h = digits_of(n, 16);
    let e = even_hex(n);
    if h.len() % 2 == 1 {
        lemma_leading_zero(h, 16);
        lemma_digit_char(0);
        assert forall|i: int| 0 <= i < e.len() implies digit_value(#[trigger] e[i]) < 16
            && is_upper_hex_digit(e[i]) by {
            if i > 0 {
                assert(e[i] == h[i - 1]);
            } else {
                assert(e[i] == digit_char(0));
            }
        }
    }
}

/// Hex round trip: the even-length hex text of any number, read back with a
/// `0x` prefix put before it, gives that number.
pub proof fn lemma_hex_round_trip(n: nat)
    ensures
        parsed(seq!['0', 'x'] + even_hex(n)) == Ok::<nat, KeyGenError>(n),
{
    lemma_even_hex(n);
    lemma_digit_char(0);
    let e = even_hex(n);
    let s = seq!['0', 'x'] + e;
    assert forall|i: int| 0 <= i < s.len() implies !is_separator(#[trigger] s[i], true) by {
        if i >= 2 {
            assert(s[i] == e[i - 2]);
            lemma_hex_digit_not_separator(e[i - 2], true);
        } else if i == 1 {
            assert(('x' as u32) == 0x78);
        } else {
            lemma_hex_digit_not_separator(digit_char(0), true);
        }
    }
    lemma_stripped_unchanged(s, true);
    assert(has_hex_prefix(s));
    assert(s.subrange(2, s.len() as int) =~= e);
}

/// Decimal round trip: the decimal text of any number reads back as that number.
pub proof fn lemma_decimal_round_trip(n: nat)
    ensures
        parsed(digits_of(n, 10)) == Ok::<nat, KeyGenError>(n),
{
    lemma_digits_of(n, 10);
    let d = digits_of(n, 10);
    assert forall|i: int| 0 <= i < d.len() implies !is_separator(#[trigger] d[i], true) by {
        lemma_hex_digit_not_separator(d[i], true);
    }
    lemma_stripped_unchanged(d, true);
    if d.len() >= 2 {
        assert(is_upper_hex_digit(d[1]));
        assert(('x' as u32) == 0x78 && ('X' as u32) == 0x58);
    }
    assert(!has_hex_prefix(d));
}

/// Nothing that stripping leaves is a separator.
proof fn lemma_stripped_has_no_separator(s: Seq<char>, underscores: bool)
    ensures
        forall|i: int|
            0 <= i < stripped(s, underscores).len() ==> !is_separator(
                #[trigger] stripped(s, underscores)[i],
                underscores,
            ),
    decreases s.len(),
{
    if s.len() > 0 {
        lemma_stripped_has_no_separator(s.drop_last(), underscores);
        let rest = stripped(s.drop_last(), underscores);
        let all = stripped(s, underscores);
        if !is_separator(s.last(), underscores) {
            assert(all == rest.push(s.last()));
            assert forall|i: int| 0 <= i < all.len() implies !is_separator(
                #[trigger] all[i],
                underscores,
            ) by {
                if i < rest.len() {
                    assert(all[i] == rest[i]);
                }
            }
        }
    }
}

/// Separators do not matter: text reads as the same number, or fails in the
/// same way, as the text with its white space and `_` taken out.
pub proof fn lemma_separators_ignored(s: Seq<char>)
    ensures
        parsed(s) == parsed(stripped(s, true)),
{
    lemma_stripped_has_no_separator(s, true);
    lemma_stripped_unchanged(stripped(s, true), true);
}

/// Text made of separators only (the empty text among it) fails as empty.
pub proof fn lemma_blank_is_empty(s: Seq<char>)
    requires
        forall|i: int| 0 <= i < s.len() ==> is_separator(#[trigger] s[i], true),
    ensures
        parsed(s) == Err::<nat, KeyGenError>(KeyGenError::EmptyValue),
    decreases s.len(),
{
    if s.len() > 0 {
        assert forall|i: int| 0 <= i < s.drop_last().len() implies is_separator(
            #[trigger] s.drop_last()[i],
            true,
        ) by {
            assert(s.drop_last()[i] == s[i]);
        }
        lemma_blank_is_empty(s.drop_last());
    }
}

} // verus!
