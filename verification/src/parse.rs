//! Parsing of numeric command-line tokens.
//!
//! Addresses, sizes and byte values arrive as decimal numerals or as
//! hexadecimal numerals introduced by a `0x` prefix.  A device selector is a
//! `bus:addr` pair of decimal bytes.  The grammar accepted here is: an
//! optional leading `+`, then one or more digits of the radix; every leading
//! `0x` of a hexadecimal token is stripped before the digits are read.

use vstd::prelude::*;
use vstd::string::StrSliceExecFns;

use crate::errors::CliError;

verus! {

/// True when `c` is a digit of the accepted radix: `0`-`9` always, and
/// `a`-`f` or `A`-`F` when `hex` is set.
pub open spec fn digit_ok(c: char, hex: bool) -> bool {
    ('0' <= c && c <= '9') || (hex && (('a' <= c && c <= 'f') || ('A' <= c && c <= 'F')))
}

/// Numeric value of one digit character (unspecified elsewhere: 0).
pub open spec fn digit_val(c: char) -> nat {
    if '0' <= c && c <= '9' {
        (c as int - '0' as int) as nat
    } else if 'a' <= c && c <= 'f' {
        (c as int - 'a' as int + 10) as nat
    } else if 'A' <= c && c <= 'F' {
        (c as int - 'A' as int + 10) as nat
    } else {
        0
    }
}

/// The radix encoded by the `hex` flag.
pub open spec fn radix_of(hex: bool) -> nat {
    if hex {
        16
    } else {
        10
    }
}

/// A non-empty run of digits of the radix.
pub open spec fn is_digit_run(s: Seq<char>, hex: bool) -> bool {
    s.len() > 0 && (forall|i: int| 0 <= i < s.len() ==> digit_ok(s[i], hex))
}

/// Value of a digit run, most significant digit first.
pub open spec fn digits_value(s: Seq<char>, radix: nat) -> nat
    decreases s.len(),
{
    if s.len() == 0 {
        0
    } else {
        digits_value(s.drop_last(), radix) * radix + digit_val(s.last())
    }
}

/// The digits of a numeral: everything after an optional leading `+`.
pub open spec fn numeral_digits(s: Seq<char>) -> Seq<char> {
    if s.len() > 0 && s[0] == '+' {
        s.skip(1)
    } else {
        s
    }
}

/// A numeral: an optional `+`, then a non-empty digit run.
pub open spec fn is_numeral(s: Seq<char>, hex: bool) -> bool {
    is_digit_run(numeral_digits(s), hex)
}

/// Value of a numeral.
pub open spec fn numeral_value(s: Seq<char>, hex: bool) -> nat {
    digits_value(numeral_digits(s), radix_of(hex))
}

/// Strips every complete leading `0x` from a token.
pub open spec fn strip_hex_prefix(s: Seq<char>) -> Seq<char>
    decreases s.len(),
{
    if s.len() >= 2 && s[0] == '0' && s[1] == 'x' {
        strip_hex_prefix(s.skip(2))
    } else {
        s
    }
}

/// True when the token selects the hexadecimal radix.
pub open spec fn has_hex_prefix(s: Seq<char>) -> bool {
    s.len() >= 2 && s[0] == '0' && s[1] == 'x'
}

/// The numeral a token denotes, after radix selection and prefix stripping,
/// or `None` when the token is not a numeral at all.
pub open spec fn token_value(s: Seq<char>) -> Option<nat> {
    if has_hex_prefix(s) {
        if is_numeral(strip_hex_prefix(s), true) {
            Some(numeral_value(strip_hex_prefix(s), true))
        } else {
            None
        }
    } else {
        if is_numeral(s, false) {
            Some(numeral_value(s, false))
        } else {
            None
        }
    }
}

/// The 32-bit word a token denotes: its numeral value, provided it fits.
pub open spec fn word_of_token(s: Seq<char>) -> Option<u32> {
    match token_value(s) {
        Some(v) => if v <= u32::MAX { Some(v as u32) } else { None },
        None => None,
    }
}

/// The byte a token denotes: its numeral value, provided it fits.
pub open spec fn byte_of_token(s: Seq<char>) -> Option<u8> {
    match token_value(s) {
        Some(v) => if v <= u8::MAX { Some(v as u8) } else { None },
        None => None,
    }
}

/// The byte a plain decimal token denotes (no `0x` prefix is recognised).
pub open spec fn byte_of_dec_token(s: Seq<char>) -> Option<u8> {
    if is_numeral(s, false) && numeral_value(s, false) <= u8::MAX {
        Some(numeral_value(s, false) as u8)
    } else {
        None
    }
}

/// Index of the first `:` at or after `from`, or `s.len()` when none exists.
pub open spec fn find_colon(s: Seq<char>, from: int) -> int
    decreases s.len() - from,
{
    if from < 0 || from >= s.len() {
        s.len() as int
    } else if s[from] == ':' {
        from
    } else {
        find_colon(s, from + 1)
    }
}

/// The `bus:addr` pair a device selector denotes: exactly one colon, with a
/// decimal byte on each side.
pub open spec fn device_of(s: Seq<char>) -> Option<(u8, u8)> {
    let i = find_colon(s, 0);
    if i == s.len() || find_colon(s, i + 1) != s.len() {
        None
    } else {
        match (byte_of_dec_token(s.take(i)), byte_of_dec_token(s.skip(i + 1))) {
            (Some(bus), Some(addr)) => Some((bus, addr)),
            _ => None,
        }
    }
}

/// A digit run's value only grows when further digits follow it.
proof fn lemma_digits_value_take_le(s: Seq<char>, i: int, radix: nat)
    requires
        0 <= i <= s.len(),
        radix >= 1,
    ensures
        digits_value(s.take(i), radix) <= digits_value(s, radix),
    decreases s.len(),
{
    if i < s.len() {
        assert(s.drop_last().take(i) =~= s.take(i));
        lemma_digits_value_take_le(s.drop_last(), i, radix);
        let v = digits_value(s.drop_last(), radix);
        assert(v * radix >= v) by (nonlinear_arith)
            requires radix >= 1, v >= 0,
        ;
    } else {
        assert(s.take(i) =~= s);
    }
}

/// Classifies one character as a digit of the radix and yields its value.
fn parse_digit(c: char, hex: bool) -> (r: Option<u8>)
    ensures
        match r {
            Some(d) => digit_ok(c, hex) && d == digit_val(c) && d < radix_of(hex),
            None => !digit_ok(c, hex),
        },
{
    let u = c as u32;
    if 0x30 <= u && u <= 0x39 {
        Some((u - 0x30) as u8)
    } else if hex && 0x61 <= u && u <= 0x66 {
        Some((u - 0x61 + 10) as u8)
    } else if hex && 0x41 <= u && u <= 0x46 {
        Some((u - 0x41 + 10) as u8)
    } else {
        None
    }
}

/// Reads the digits of `s` from position `start` on as one digit run of the
/// radix; `None` when the run is empty, broken by a non-digit, or too large
/// for a 32-bit word.
fn parse_digit_run(s: &str, start: usize, hex: bool) -> (r: Option<u32>)
    requires
        start <= s@.len(),
    ensures
        ({
            let body = s@.skip(start as int);
            match r {
                Some(v) => is_digit_run(body, hex) && v == digits_value(body, radix_of(hex)),
                None => !is_digit_run(body, hex) || digits_value(body, radix_of(hex)) > u32::MAX,
            }
        }),
{
    let ghost body = s@.skip(start as int);
    let len = s.unicode_len();
    if start == len {
        return None;
    }
    let mut acc: u64 = 0;
    let mut i = start;
    while i < len
        invariant
            start <= i <= len,
            len == s@.len(),
            body == s@.skip(start as int),
            forall|k: int| start <= k < i ==> digit_ok(s@[k], hex),
            acc == digits_value(body.take(i - start), radix_of(hex)),
            acc <= u32::MAX,
        decreases len - i,
    {
        let c = s.get_char(i);
        match parse_digit(c, hex) {
            None => {
                assert(body[i - start] == s@[i as int]);
                return None;
            },
            Some(d) => {
                let next: u64 = if hex {
                    acc * 16 + d as u64
                } else {
                    acc * 10 + d as u64
                };
                proof {
                    let j = i - start;
                    assert(body.take(j + 1).drop_last() =~= body.take(j));
                    assert(body.take(j + 1).last() == s@[i as int]);
                }
                if next > 0xFFFF_FFFF {
                    proof {
                        if is_digit_run(body, hex) {
                            lemma_digits_value_take_le(body, i + 1 - start, radix_of(hex) as nat);
                        }
                    }
                    return None;
                }
                acc = next;
                i = i + 1;
            },
        }
    }
    proof {
        assert(body.take(len - start) =~= body);
    }
    Some(acc as u32)
}

/// Reads `s` from `start` on as a numeral (optional `+`, then digits),
/// yielding its value when it fits a 32-bit word.
fn parse_numeral(s: &str, start: usize, hex: bool) -> (r: Option<u32>)
    requires
        start <= s@.len(),
    ensures
        ({
            let body = s@.skip(start as int);
            match r {
                Some(v) => is_numeral(body, hex) && v == numeral_value(body, hex),
                None => !is_numeral(body, hex) || numeral_value(body, hex) > u32::MAX,
            }
        }),
{
    let ghost body = s@.skip(start as int);
    let len = s.unicode_len();
    if start < len && s.get_char(start) == '+' {
        proof {
            assert(body[0] == s@[start as int]);
            assert(body.skip(1) =~= s@.skip(start as int + 1));
        }
        parse_digit_run(s, start + 1, hex)
    } else {
        proof {
            if body.len() > 0 {
                assert(body[0] == s@[start as int]);
            }
        }
        parse_digit_run(s, start, hex)
    }
}

/// Parses a token as a 32-bit word: decimal, or hexadecimal when it carries a
/// `0x` prefix.  `None` when the token is no numeral or its value does not
/// fit, in which case a write token is reinterpreted as a file path.
pub fn parse_u32(s: &str) -> (r: Option<u32>)
    ensures
        r == word_of_token(s@),
{
    let len = s.unicode_len();
    if len >= 2 && s.get_char(0) == '0' && s.get_char(1) == 'x' {
        let mut start: usize = 0;
        proof {
            assert(s@.skip(0) =~= s@);
        }
        while len - start >= 2 && s.get_char(start) == '0' && s.get_char(start + 1) == 'x'
            invariant
                start <= len,
                len == s@.len(),
                strip_hex_prefix(s@) == strip_hex_prefix(s@.skip(start as int)),
            decreases len - start,
        {
            proof {
                let rest = s@.skip(start as int);
                assert(rest[0] == s@[start as int]);
                assert(rest[1] == s@[start as int + 1]);
                assert(rest.skip(2) =~= s@.skip(start as int + 2));
            }
            start = start + 2;
        }
        proof {
            let rest = s@.skip(start as int);
            if rest.len() >= 2 {
                assert(rest[0] == s@[start as int]);
                assert(rest[1] == s@[start as int + 1]);
            }
            assert(strip_hex_prefix(s@) == rest);
        }
        parse_numeral(s, start, true)
    } else {
        proof {
            assert(s@.skip(0) =~= s@);
        }
        parse_numeral(s, 0, false)
    }
}

/// Parses a token as a byte: decimal, or hexadecimal with a `0x` prefix.
pub fn parse_u8(s: &str) -> (r: Option<u8>)
    ensures
        r == byte_of_token(s@),
{
    match parse_u32(s) {
        Some(v) => if v <= 0xFF {
            Some(v as u8)
        } else {
            None
        },
        None => None,
    }
}

/// Parses a plain decimal token as a byte (used for bus and device numbers).
pub fn parse_u8_dec(s: &str) -> (r: Option<u8>)
    ensures
        r == byte_of_dec_token(s@),
{
    proof {
        assert(s@.skip(0) =~= s@);
    }
    match parse_numeral(s, 0, false) {
        Some(v) => if v <= 0xFF {
            Some(v as u8)
        } else {
            None
        },
        None => None,
    }
}

/// Parses a `bus:addr` device selector; each failure is reported with a
/// description of the part that was wrong.
pub fn parse_device(s: &str) -> (r: Result<(u8, u8), CliError>)
    ensures
        r matches Ok(p) ==> device_of(s@) == Some(p),
        device_of(s@) matches Some(p) ==> r == Ok::<(u8, u8), CliError>(p),
        r is Err ==> device_of(s@) is None,
        r matches Err(e) ==> ({
            let i = find_colon(s@, 0);
            if i == s@.len() || find_colon(s@, i + 1) != s@.len() {
                e.description@ == "the device must be in `bus:addr` format"@
            } else if byte_of_dec_token(s@.take(i)) is None {
                e.description@ == "the bus number must be an integer between 0 and 255"@
            } else {
                e.description@ == "the device address must be an integer between 0 and 255"@
            }
        }),
{
    let len = s.unicode_len();
    let colon = find_colon_from(s, 0);
    if colon == len {
        return Err(CliError { description: String::from_str("the device must be in `bus:addr` format") });
    }
    let second = find_colon_from(s, colon + 1);
    if second < len {
        return Err(CliError { description: String::from_str("the device must be in `bus:addr` format") });
    }
    let bus_str = s.substring_char(0, colon);
    let addr_str = s.substring_char(colon + 1, len);
    proof {
        assert(bus_str@ =~= s@.take(colon as int));
        assert(addr_str@ =~= s@.skip(colon as int + 1));
    }
    let bus = match parse_u8_dec(bus_str) {
        Some(b) => b,
        None => {
            return Err(CliError {
                description: String::from_str("the bus number must be an integer between 0 and 255"),
            });
        },
    };
    let addr = match parse_u8_dec(addr_str) {
        Some(a) => a,
        None => {
            return Err(CliError {
                description: String::from_str("the device address must be an integer between 0 and 255"),
            });
        },
    };
    Ok((bus, addr))
}

/// Finds the first `:` of `s` at or after position `from`.
fn find_colon_from(s: &str, from: usize) -> (r: usize)
    requires
        from <= s@.len(),
    ensures
        r == find_colon(s@, from as int),
        from <= r <= s@.len(),
    decreases s@.len() - from,
{
    let len = s.unicode_len();
    if from == len {
        len
    } else if s.get_char(from) == ':' {
        from
    } else {
        find_colon_from(s, from + 1)
    }
}

} // verus!
