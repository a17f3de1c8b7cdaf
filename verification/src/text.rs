use vstd::prelude::*;
use vstd::string::StringExecFns;
use crate::primitives::Root;

verus! {

/// The lower-case form of a string, as `str::to_lowercase` gives it.
pub uninterp spec fn lowercase_of(s: Seq<char>) -> Seq<char>;

/// Calls `str::to_lowercase`. The result depends on the characters alone;
/// nothing more is claimed of it.
#[verifier::external_body]
pub(crate) fn to_lowercase(s: &str) -> (lowered: String)
    ensures
        lowered@ == lowercase_of(s@),
{
    s.to_lowercase()
}

/// The character of a decimal digit.
pub open spec fn digit_char(digit: nat) -> char
    recommends
        digit < 10,
{
    (('0' as u8) + digit as u8) as char
}

/// The decimal numeral of a number, without leading zeros.
pub open spec fn decimal_of(n: nat) -> Seq<char>
    decreases n,
{
    if n < 10 {
        seq![digit_char(n)]
    } else {
        decimal_of(n / 10).push(digit_char(n % 10))
    }
}

/// The numeral of one decimal digit.
fn digit_str(digit: u64) -> (numeral: &'static str)
    requires
        digit < 10,
    ensures
        numeral@ == seq![digit_char(digit as nat)],
{
    proof {
        reveal_strlit("0");
        reveal_strlit("1");
        reveal_strlit("2");
        reveal_strlit("3");
        reveal_strlit("4");
        reveal_strlit("5");
        reveal_strlit("6");
        reveal_strlit("7");
        reveal_strlit("8");
        reveal_strlit("9");
    }
    let numeral = match digit {
        0 => "0",
        1 => "1",
        2 => "2",
        3 => "3",
        4 => "4",
        5 => "5",
        6 => "6",
        7 => "7",
        8 => "8",
        _ => "9",
    };
    assert(numeral@ =~= seq![digit_char(digit as nat)]);
    numeral
}

/// Writes a number as a decimal numeral without sign or leading zeros.
pub fn decimal_string(n: u64) -> (numeral: String)
    ensures
        numeral@ == decimal_of(n as nat),
    decreases n,
{
    if n < 10 {
        String::from_str(digit_str(n))
    } else {
        let mut numeral = decimal_string(n / 10);
        numeral.append(digit_str(n % 10));
        assert(numeral@ =~= decimal_of(n as nat));
        numeral
    }
}

/// Whether a character is one of `0` to `9`.
pub open spec fn is_digit(c: char) -> bool {
    '0' <= c && c <= '9'
}

pub open spec fn all_digits(s: Seq<char>) -> bool {
    forall|i: int| 0 <= i < s.len() ==> is_digit(#[trigger] s[i])
}

/// The number that a string of decimal digits stands for.
pub open spec fn decimal_value(s: Seq<char>) -> nat
    decreases s.len(),
{
    if s.len() == 0 {
        0
    } else {
        decimal_value(s.drop_last()) * 10 + (s.last() as u8 - '0' as u8) as nat
    }
}

/// Whether every character of `s` is a decimal digit.
pub fn is_all_digits(s: &str) -> (all: bool)
    ensures
        all == all_digits(s@),
{
    let n = s.unicode_len();
    let mut i: usize = 0;
    while i < n
        invariant
            i <= n,
            n == s@.len(),
            forall|j: int| 0 <= j < i ==> is_digit(#[trigger] s@[j]),
        decreases n - i,
    {
        let c = s.get_char(i);
        if !('0' <= c && c <= '9') {
            return false;
        }
        i += 1;
    }
    true
}

/// Reads a string of decimal digits as a number: `None` where the string
/// is empty, holds anything but digits, or the number does not fit.
pub fn parse_decimal(s: &str) -> (value: Option<u64>)
    ensures
        match value {
            Some(v) => all_digits(s@) && s@.len() > 0 && v == decimal_value(s@),
            None => !all_digits(s@) || s@.len() == 0 || decimal_value(s@) > u64::MAX,
        },
{
    let n = s.unicode_len();
    if n == 0 {
        return None;
    }
    let mut value: u64 = 0;
    let mut i: usize = 0;
    while i < n
        invariant
            i <= n,
            n == s@.len(),
            forall|j: int| 0 <= j < i ==> is_digit(#[trigger] s@[j]),
            value == decimal_value(s@.subrange(0, i as int)),
        decreases n - i,
    {
        let c = s.get_char(i);
        if !('0' <= c && c <= '9') {
            return None;
        }
        let digit: u64 = (c as u8 - '0' as u8) as u64;
        proof {
            let upto = s@.subrange(0, i + 1);
            assert(upto.drop_last() =~= s@.subrange(0, i as int));
            assert(upto.last() == c);
            lemma_decimal_value_grows(s@, i + 1);
        }
        if value > (u64::MAX - digit) / 10 {
            return None;
        }
        value = value * 10 + digit;
        i += 1;
    }
    assert(s@.subrange(0, n as int) =~= s@);
    Some(value)
}

/// A prefix of a string of digits stands for no more than the whole.
pub proof fn lemma_decimal_value_grows(s: Seq<char>, upto: int)
    requires
        0 <= upto <= s.len(),
    ensures
        decimal_value(s.subrange(0, upto)) <= decimal_value(s),
    decreases s.len() - upto,
{
    if upto < s.len() {
        let next = s.subrange(0, upto + 1);
        assert(next.drop_last() =~= s.subrange(0, upto));
        lemma_decimal_value_grows(s, upto + 1);
    } else {
        assert(s.subrange(0, upto) =~= s);
    }
}

/// Whether a string begins with `0x`.
pub open spec fn has_hex_prefix(s: Seq<char>) -> bool {
    s.len() >= 2 && s[0] == '0' && s[1] == 'x'
}

pub fn starts_with_hex_prefix(s: &str) -> (prefixed: bool)
    ensures
        prefixed == has_hex_prefix(s@),
{
    s.unicode_len() >= 2 && s.get_char(0) == '0' && s.get_char(1) == 'x'
}

/// The lower-case hexadecimal digit of a number below sixteen.
pub open spec fn hex_digit(nibble: u8) -> char
    recommends
        nibble < 16,
{
    if nibble < 10 {
        (('0' as u8) + nibble) as u8 as char
    } else {
        (('a' as u8) + (nibble - 10)) as u8 as char
    }
}

/// Bytes written in lower-case hexadecimal, two digits for each byte, the
/// high half first.
pub open spec fn lower_hex(bytes: Seq<u8>) -> Seq<char> {
    Seq::new(
        2 * bytes.len(),
        |i: int|
            if i % 2 == 0 {
                hex_digit(bytes[i / 2] / 16)
            } else {
                hex_digit(bytes[i / 2] % 16)
            },
    )
}

/// Calls `alloy_primitives::hex::encode`, which writes each byte as two
/// lower-case hexadecimal digits, without a prefix.
#[verifier::external_body]
pub(crate) fn hex_encode(bytes: &[u8]) -> (digits: String)
    ensures
        digits@ == lower_hex(bytes@),
{
    alloy_primitives::hex::encode(bytes)
}

/// The value of a hexadecimal digit of either case.
pub open spec fn hex_value(c: char) -> Option<u8> {
    if '0' <= c && c <= '9' {
        Some((c as u8 - '0' as u8) as u8)
    } else if 'a' <= c && c <= 'f' {
        Some((c as u8 - 'a' as u8 + 10) as u8)
    } else if 'A' <= c && c <= 'F' {
        Some((c as u8 - 'A' as u8 + 10) as u8)
    } else {
        None
    }
}

/// A string without its `0x` or `0X`, if it begins with one.
pub open spec fn without_hex_prefix(s: Seq<char>) -> Seq<char> {
    if s.len() >= 2 && s[0] == '0' && (s[1] == 'x' || s[1] == 'X') {
        s.skip(2)
    } else {
        s
    }
}

/// Whether a string spells a root: 64 hexadecimal digits of either case,
/// with or without a prefix.
pub open spec fn spells_root(s: Seq<char>) -> bool {
    let digits = without_hex_prefix(s);
    &&& digits.len() == 64
    &&& forall|i: int| 0 <= i < 64 ==> hex_value(#[trigger] digits[i]) is Some
}

/// The bytes that such a string spells, two digits for each byte, the
/// high half first.
pub open spec fn spelled_bytes(s: Seq<char>) -> Seq<u8> {
    let digits = without_hex_prefix(s);
    Seq::new(
        32,
        |i: int| (hex_value(digits[2 * i]).unwrap() * 16 + hex_value(digits[2 * i + 1]).unwrap()) as u8,
    )
}

/// Calls `B256::from_str`, which decodes 64 hexadecimal digits of either
/// case, after an optional `0x` or `0X`, into 32 bytes, and fails on any
/// other string.
#[verifier::external_body]
pub(crate) fn parse_root(s: &str) -> (root: Option<Root>)
    ensures
        match root {
            Some(r) => spells_root(s@) && r@ == spelled_bytes(s@),
            None => !spells_root(s@),
        },
{
    match <alloy_primitives::B256 as std::str::FromStr>::from_str(s) {
        Ok(decoded) => Some(Root { bytes: decoded.0 }),
        Err(_) => None,
    }
}

/// `head` followed by `tail`.
pub fn joined(head: &str, tail: &str) -> (whole: String)
    ensures
        whole@ == head@ + tail@,
{
    String::from_str(head).concat(tail)
}

} // verus!
