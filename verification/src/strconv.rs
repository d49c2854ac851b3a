//! Verified text conversions used by configuration parsing and endpoint
//! descriptions: decimal rendering of identities, decimal port parsing, and
//! hex-string decoding.

use vstd::prelude::*;
use vstd::string::StrSliceExecFns;
use vstd::string::StringExecFns;

use crate::sock::SockError;

verus! {

/// The character for one decimal digit value.
pub open spec fn dec_digit(d: nat) -> char {
    if d == 0 {
        '0'
    } else if d == 1 {
        '1'
    } else if d == 2 {
        '2'
    } else if d == 3 {
        '3'
    } else if d == 4 {
        '4'
    } else if d == 5 {
        '5'
    } else if d == 6 {
        '6'
    } else if d == 7 {
        '7'
    } else if d == 8 {
        '8'
    } else {
        '9'
    }
}

/// The decimal representation of a number, most significant digit first,
/// without leading zeros (a single zero for 0).
pub open spec fn dec_rep(n: nat) -> Seq<char>
    decreases n,
{
    if n < 10 {
        seq![dec_digit(n)]
    } else {
        dec_rep(n / 10).push(dec_digit(n % 10))
    }
}

/// A one-character string for a decimal digit value.
fn digit_str(d: u32) -> (r: &'static str)
    requires
        d < 10,
    ensures
        r@ == seq![dec_digit(d as nat)],
{
    proof {
        reveal_strlit("0");
        reveal_strlit("1");
        reveal_strlit("2");
        reveal_strlit("3");
        reveal_strlit("4");
        reveal_strlit("5");
        reveal_strlit("6");
        reveal_strlit("7");
        reveal_strlit("8");
        reveal_strlit("9");
    }
    let r = if d == 0 {
        "0"
    } else if d == 1 {
        "1"
    } else if d == 2 {
        "2"
    } else if d == 3 {
        "3"
    } else if d == 4 {
        "4"
    } else if d == 5 {
        "5"
    } else if d == 6 {
        "6"
    } else if d == 7 {
        "7"
    } else if d == 8 {
        "8"
    } else {
        "9"
    };
    proof {
        assert(r@ =~= seq![dec_digit(d as nat)]);
    }
    r
}

/// Renders a number in decimal.
pub fn u32_to_string(n: u32) -> (r: String)
    ensures
        r@ == dec_rep(n as nat),
    decreases n,
{
    if n < 10 {
        String::from_str(digit_str(n))
    } else {
        let mut s = u32_to_string(n / 10);
        s.append(digit_str(n % 10));
        proof {
            assert(dec_rep((n / 10) as nat).push(dec_digit((n % 10) as nat)) =~= dec_rep(
                (n / 10) as nat,
            ) + seq![dec_digit((n % 10) as nat)]);
        }
        s
    }
}

/// The default human-readable description of an endpoint: its transport-kind
/// tag followed by its decimal identity.
pub fn default_description(tag: &str, id: u32) -> (r: String)
    ensures
        r@ == tag@ + dec_rep(id as nat),
{
    let num = u32_to_string(id);
    String::from_str(tag).concat(num.as_str())
}

pub open spec fn is_dec_digit(c: char) -> bool {
    '0' <= c && c <= '9'
}

pub open spec fn dec_digit_val(c: char) -> nat {
    ((c as int) - ('0' as int)) as nat
}

/// The numeric value of a sequence of decimal digits, most significant first.
pub open spec fn dec_val(s: Seq<char>) -> nat
    decreases s.len(),
{
    if s.len() == 0 {
        0
    } else {
        dec_val(s.drop_last()) * 10 + dec_digit_val(s.last())
    }
}

/// The digit part of a decimal string: everything after an optional leading
/// plus sign.
pub open spec fn dec_digits_part(s: Seq<char>) -> Seq<char> {
    if s.len() > 0 && s[0] == '+' {
        s.skip(1)
    } else {
        s
    }
}

/// Whether a string is a decimal number, with an optional leading plus sign,
/// whose value fits in sixteen bits.
pub open spec fn u16_str_valid(s: Seq<char>) -> bool {
    let digits = dec_digits_part(s);
    &&& digits.len() > 0
    &&& forall|i: int| 0 <= i < digits.len() ==> is_dec_digit(#[trigger] digits[i])
    &&& dec_val(digits) <= u16::MAX
}

/// Appending digits never decreases the value of a digit string.
proof fn lemma_dec_val_prefix(s: Seq<char>, i: int)
    requires
        0 <= i <= s.len(),
    ensures
        dec_val(s.take(i)) <= dec_val(s),
    decreases s.len() - i,
{
    if i < s.len() {
        lemma_dec_val_prefix(s, i + 1);
        assert(s.take(i + 1).drop_last() =~= s.take(i));
        assert(dec_val(s.take(i + 1)) == dec_val(s.take(i)) * 10 + dec_digit_val(
            s.take(i + 1).last(),
        ));
    } else {
        assert(s.take(i) =~= s);
    }
}

/// Parses a decimal string into a sixteen-bit number, accepting an optional
/// leading plus sign, exactly when the string is well-formed and the value
/// fits.
pub fn string_to_u16(s: &str) -> (r: Result<u16, SockError>)
    ensures
        match r {
            Ok(n) => u16_str_valid(s@) && n as nat == dec_val(dec_digits_part(s@)),
            Err(e) => !u16_str_valid(s@) && e == SockError::InvalidConfig,
        },
{
    let len = s.unicode_len();
    let start: usize = if len > 0 && s.get_char(0) == '+' {
        1
    } else {
        0
    };
    proof {
        assert(dec_digits_part(s@) =~= s@.skip(start as int));
    }
    if len == start {
        return Err(SockError::InvalidConfig);
    }
    let ghost digits = s@.skip(start as int);
    let mut val: u32 = 0;
    let mut i: usize = start;
    while i < len
        invariant
            start <= i <= len,
            len == s@.len(),
            digits == s@.skip(start as int),
            dec_digits_part(s@) == digits,
            forall|j: int| 0 <= j < i - start ==> is_dec_digit(#[trigger] digits[j]),
            val as nat == dec_val(digits.take(i - start)),
            val <= u16::MAX,
        decreases len - i,
    {
        let c = s.get_char(i);
        if !(c >= '0' && c <= '9') {
            proof {
                assert(dec_digits_part(s@) == digits);
                assert(!is_dec_digit(dec_digits_part(s@)[i - start]));
                assert(!u16_str_valid(s@));
            }
            return Err(SockError::InvalidConfig);
        }
        let d: u32 = (c as u32) - ('0' as u32);
        let next: u32 = val * 10 + d;
        proof {
            assert(digits.take(i + 1 - start).drop_last() =~= digits.take(i - start));
            assert(dec_val(digits.take(i + 1 - start)) == dec_val(digits.take(i - start)) * 10
                + dec_digit_val(digits[i - start]));
        }
        if next > u16::MAX as u32 {
            proof {
                assert(dec_digits_part(s@) == digits);
                lemma_dec_val_prefix(digits, i + 1 - start);
                if forall|j: int|
                    0 <= j < dec_digits_part(s@).len() ==> is_dec_digit(
                        #[trigger] dec_digits_part(s@)[j],
                    ) {
                    assert(dec_val(digits) > u16::MAX);
                }
                assert(!u16_str_valid(s@));
            }
            return Err(SockError::InvalidConfig);
        }
        val = next;
        i = i + 1;
    }
    proof {
        assert(digits.take(len - start) =~= digits);
    }
    Ok(val as u16)
}

pub open spec fn is_hex_digit(c: char) -> bool {
    ('0' <= c && c <= '9') || ('a' <= c && c <= 'f') || ('A' <= c && c <= 'F')
}

pub open spec fn hex_digit_val(c: char) -> nat {
    if '0' <= c && c <= '9' {
        ((c as int) - ('0' as int)) as nat
    } else if 'a' <= c && c <= 'f' {
        ((c as int) - ('a' as int) + 10) as nat
    } else {
        ((c as int) - ('A' as int) + 10) as nat
    }
}

/// The byte encoded by two hex digits, high digit first.
pub open spec fn hex_byte(hi: char, lo: char) -> u8 {
    (hex_digit_val(hi) * 16 + hex_digit_val(lo)) as u8
}

/// Whether a string is a well-formed hex encoding: an even number of hex
/// digits, either case.
pub open spec fn hex_str_valid(s: Seq<char>) -> bool {
    &&& s.len() % 2 == 0
    &&& forall|i: int| 0 <= i < s.len() ==> is_hex_digit(#[trigger] s[i])
}

/// The bytes a well-formed hex string encodes.
pub open spec fn hex_decoded(s: Seq<char>) -> Seq<u8> {
    Seq::new(s.len() / 2, |i: int| hex_byte(s[2 * i], s[2 * i + 1]))
}

/// The value of one hex digit character.
fn hex_val(c: char) -> (r: Option<u8>)
    ensures
        match r {
            Some(v) => is_hex_digit(c) && v as nat == hex_digit_val(c) && v < 16,
            None => !is_hex_digit(c),
        },
{
    if c >= '0' && c <= '9' {
        Some(((c as u32) - ('0' as u32)) as u8)
    } else if c >= 'a' && c <= 'f' {
        Some((((c as u32) - ('a' as u32)) + 10) as u8)
    } else if c >= 'A' && c <= 'F' {
        Some((((c as u32) - ('A' as u32)) + 10) as u8)
    } else {
        None
    }
}

/// Decodes a hex string ("55ff67aaaa") into bytes, exactly when it is an even
/// number of hex digits.
pub fn hex_decode(s: &str) -> (r: Result<Vec<u8>, SockError>)
    ensures
        match r {
            Ok(v) => hex_str_valid(s@) && v@ == hex_decoded(s@),
            Err(e) => !hex_str_valid(s@) && e == SockError::InvalidConfig,
        },
{
    let len = s.unicode_len();
    if len % 2 != 0 {
        return Err(SockError::InvalidConfig);
    }
    let mut out: Vec<u8> = Vec::new();
    let mut i: usize = 0;
    while i < len
        invariant
            i % 2 == 0,
            i <= len,
            len % 2 == 0,
            len == s@.len(),
            out@.len() == i / 2,
            forall|j: int| 0 <= j < i ==> is_hex_digit(#[trigger] s@[j]),
            forall|j: int| 0 <= j < i / 2 ==> out@[j] == hex_byte(s@[2 * j], s@[2 * j + 1]),
        decreases len - i,
    {
        let hi = match hex_val(s.get_char(i)) {
            Some(v) => v,
            None => {
                return Err(SockError::InvalidConfig);
            },
        };
        let lo = match hex_val(s.get_char(i + 1)) {
            Some(v) => v,
            None => {
                return Err(SockError::InvalidConfig);
            },
        };
        out.push(hi * 16 + lo);
        i = i + 2;
    }
    proof {
        assert(out@ =~= hex_decoded(s@));
    }
    Ok(out)
}

/// Whether a string is a prefixed hex byte: exactly "0x" followed by two hex
/// digits.
pub open spec fn hex_byte_str_valid(s: Seq<char>) -> bool {
    &&& s.len() == 4
    &&& s[0] == '0'
    &&& s[1] == 'x'
    &&& is_hex_digit(s[2])
    &&& is_hex_digit(s[3])
}

/// Parses a prefixed hex byte ("0xf0") exactly when the string is "0x"
/// followed by two hex digits.
pub fn parse_hex_byte_prefixed(s: &str) -> (r: Result<u8, SockError>)
    ensures
        match r {
            Ok(v) => hex_byte_str_valid(s@) && v == hex_byte(s@[2], s@[3]),
            Err(e) => !hex_byte_str_valid(s@) && e == SockError::InvalidConfig,
        },
{
    let len = s.unicode_len();
    if len != 4 {
        return Err(SockError::InvalidConfig);
    }
    if !(s.get_char(0) == '0' && s.get_char(1) == 'x') {
        return Err(SockError::InvalidConfig);
    }
    let hi = match hex_val(s.get_char(2)) {
        Some(v) => v,
        None => {
            return Err(SockError::InvalidConfig);
        },
    };
    let lo = match hex_val(s.get_char(3)) {
        Some(v) => v,
        None => {
            return Err(SockError::InvalidConfig);
        },
    };
    Ok(hi * 16 + lo)
}

} // verus!
