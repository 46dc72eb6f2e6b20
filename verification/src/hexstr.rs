//! Base-16 string conversions, fully verified.
//!
//! Parsing accepts an optional leading `+` followed by one or more hex
//! digits, rejecting everything else and every value that overflows the
//! target width.  Formatting produces upper-case digits, zero-padded to a
//! minimum width and widened when the value needs more digits.

use vstd::prelude::*;
use vstd::arithmetic::power2::*;
use vstd::arithmetic::div_mod::*;
use vstd::bits::*;
use vstd::slice::slice_index_get;
use vstd::string::StringExecFns;
use vstd::string::StringSliceAdditionalSpecFns;

verus! {

/// Whether `b` is the ASCII code of a hexadecimal digit.
pub open spec fn is_hex_digit(b: u8) -> bool {
    (0x30 <= b <= 0x39) || (0x41 <= b <= 0x46) || (0x61 <= b <= 0x66)
}

/// The numeric value of a hexadecimal digit byte.
pub open spec fn hex_digit_val(b: u8) -> int {
    if 0x30 <= b <= 0x39 {
        b - 0x30
    } else if 0x41 <= b <= 0x46 {
        b - 0x41 + 10
    } else {
        b - 0x61 + 10
    }
}

/// Whether every byte of `s` is a hexadecimal digit.
pub open spec fn all_hex_digits(s: Seq<u8>) -> bool {
    forall|i: int| 0 <= i < s.len() ==> is_hex_digit(#[trigger] s[i])
}

/// The value of a big-endian sequence of hexadecimal digit bytes.
pub open spec fn hex_value(s: Seq<u8>) -> int
    decreases s.len(),
{
    if s.len() == 0 {
        0
    } else {
        hex_value(s.drop_last()) * 16 + hex_digit_val(s.last())
    }
}

/// `s` without a single leading `+`, if it has one.
pub open spec fn strip_plus(s: Seq<u8>) -> Seq<u8> {
    if s.len() > 0 && s[0] == 0x2B {
        s.skip(1)
    } else {
        s
    }
}

/// Whether `s` is an optional `+` followed by one or more hex digits.
pub open spec fn is_hex_string(s: Seq<u8>) -> bool {
    strip_plus(s).len() > 0 && all_hex_digits(strip_plus(s))
}

/// A hex digit string's value is never negative.
proof fn lemma_hex_value_nonneg(s: Seq<u8>)
    requires
        all_hex_digits(s),
    ensures
        hex_value(s) >= 0,
    decreases s.len(),
{
    if s.len() > 0 {
        assert(all_hex_digits(s.drop_last())) by {
            assert(forall|i: int|
                0 <= i < s.len() - 1 ==> s.drop_last()[i] == #[trigger] s[i]);
        }
        lemma_hex_value_nonneg(s.drop_last());
    }
}

/// The value of `s` is at least the value of any of its prefixes.
proof fn lemma_hex_value_extend(s: Seq<u8>, n: int)
    requires
        0 <= n <= s.len(),
        all_hex_digits(s),
    ensures
        hex_value(s) >= hex_value(s.take(n)),
    decreases s.len() - n,
{
    if n == s.len() {
        assert(s.take(n) =~= s);
    } else {
        lemma_hex_value_extend(s, n + 1);
        assert(s.take(n + 1).drop_last() =~= s.take(n));
        assert(all_hex_digits(s.take(n))) by {
            assert(forall|i: int| 0 <= i < n ==> s.take(n)[i] == #[trigger] s[i]);
        }
        lemma_hex_value_nonneg(s.take(n));
        assert(hex_value(s.take(n + 1)) == hex_value(s.take(n)) * 16 + hex_digit_val(
            s.take(n + 1).last(),
        ));
    }
}

/// The value of a single hexadecimal digit byte, or `None`.
fn hex_digit(b: u8) -> (r: Option<u8>)
    ensures
        match r {
            Some(v) => is_hex_digit(b) && v == hex_digit_val(b) && v < 16,
            None => !is_hex_digit(b),
        },
{
    if 0x30 <= b && b <= 0x39 {
        Some(b - 0x30)
    } else if 0x41 <= b && b <= 0x46 {
        Some(b - 0x41 + 10)
    } else if 0x61 <= b && b <= 0x66 {
        Some(b - 0x61 + 10)
    } else {
        None
    }
}

/// Parses `s` as a base-16 `u64`.  Returns `Some` exactly when `s` is an
/// optional `+` followed by one or more hex digits whose value fits.
pub fn parse_hex_u64(s: &str) -> (r: Option<u64>)
    ensures
        match r {
            Some(v) => is_hex_string(s.spec_bytes()) && v == hex_value(strip_plus(s.spec_bytes())),
            None => !(is_hex_string(s.spec_bytes()) && hex_value(strip_plus(s.spec_bytes()))
                <= u64::MAX),
        },
{
    let bytes = s.as_bytes();
    let start: usize = if bytes.len() > 0 && *slice_index_get(bytes, 0) == 0x2B {
        1
    } else {
        0
    };
    let ghost digits = strip_plus(s.spec_bytes());
    proof {
        assert(digits =~= bytes@.skip(start as int));
    }
    if bytes.len() == start {
        return None;
    }
    let mut acc: u64 = 0;
    let mut i: usize = start;
    while i < bytes.len()
        invariant
            start <= i <= bytes@.len(),
            bytes@ == s.spec_bytes(),
            digits == strip_plus(s.spec_bytes()),
            digits =~= bytes@.skip(start as int),
            all_hex_digits(digits.take(i - start)),
            acc == hex_value(digits.take(i - start)),
        decreases bytes@.len() - i,
    {
        let b = *slice_index_get(bytes, i);
        proof {
            assert(digits[i - start] == b);
        }
        match hex_digit(b) {
            Some(d) => {
                proof {
                    assert(digits.take(i + 1 - start).drop_last() =~= digits.take(i - start));
                    assert(digits.take(i + 1 - start).last() == b);
                    lemma_fundamental_div_mod((u64::MAX - d) as int, 16);
                    lemma_mod_bound((u64::MAX - d) as int, 16);
                }
                let limit = (u64::MAX - (d as u64)) / 16;
                if acc > limit {
                    proof {
                        assert(hex_value(digits.take(i + 1 - start)) == acc * 16 + d);
                        assert(acc * 16 + d > u64::MAX);
                        // if the whole string were hex, its value would be at
                        // least the value of the prefix that just overflowed
                        if is_hex_string(s.spec_bytes()) {
                            lemma_hex_value_extend(digits, i + 1 - start);
                        }
                    }
                    return None;
                }
                acc = acc * 16 + (d as u64);
            },
            None => {
                return None;
            },
        }
        i += 1;
    }
    proof {
        assert(digits.take(i - start) =~= digits);
    }
    Some(acc)
}

/// Parses `s` as a base-16 `u32`; `Some` exactly when the digits fit 32 bits.
pub fn parse_hex_u32(s: &str) -> (r: Option<u32>)
    ensures
        match r {
            Some(v) => is_hex_string(s.spec_bytes()) && v == hex_value(strip_plus(s.spec_bytes())),
            None => !(is_hex_string(s.spec_bytes()) && hex_value(strip_plus(s.spec_bytes()))
                <= u32::MAX),
        },
{
    match parse_hex_u64(s) {
        Some(v) => if v <= 0xFFFF_FFFF {
            Some(v as u32)
        } else {
            None
        },
        None => None,
    }
}

/// The upper-case hexadecimal digit for a value below 16.
pub open spec fn hex_char_of(v: int) -> char {
    if v == 0 {
        '0'
    } else if v == 1 {
        '1'
    } else if v == 2 {
        '2'
    } else if v == 3 {
        '3'
    } else if v == 4 {
        '4'
    } else if v == 5 {
        '5'
    } else if v == 6 {
        '6'
    } else if v == 7 {
        '7'
    } else if v == 8 {
        '8'
    } else if v == 9 {
        '9'
    } else if v == 10 {
        'A'
    } else if v == 11 {
        'B'
    } else if v == 12 {
        'C'
    } else if v == 13 {
        'D'
    } else if v == 14 {
        'E'
    } else {
        'F'
    }
}

/// `v` written with exactly `d` upper-case hexadecimal digits (most
/// significant digits beyond `d` are dropped).
pub open spec fn hex_str_of(v: int, d: nat) -> Seq<char>
    decreases d,
{
    if d == 0 {
        Seq::empty()
    } else {
        hex_str_of(v / 16, (d - 1) as nat).push(hex_char_of(v % 16))
    }
}

/// How many digits a nonnegative value needs.
pub open spec fn hex_digits_needed(v: int) -> nat
    decreases v,
{
    if v < 16 {
        1
    } else {
        1 + hex_digits_needed(v / 16)
    }
}

/// The width zero-padded formatting gives `v` with minimum width `min`.
pub open spec fn hex_width(v: int, min: nat) -> nat {
    if hex_digits_needed(v) > min {
        hex_digits_needed(v)
    } else {
        min
    }
}

/// The digits of `v` written with minimum width `min`.
pub open spec fn hex_upper(v: int, min: nat) -> Seq<char> {
    hex_str_of(v, hex_width(v, min))
}

/// `hex_str_of(v, d)` has length `d`.
proof fn lemma_hex_str_of_len(v: int, d: nat)
    ensures
        hex_str_of(v, d).len() == d,
    decreases d,
{
    if d > 0 {
        lemma_hex_str_of_len(v / 16, (d - 1) as nat);
    }
}

/// Position `i` of `hex_str_of(v, d)` holds the digit of rank `d - 1 - i`.
proof fn lemma_hex_str_of_index(v: int, d: nat, i: int)
    requires
        0 <= i < d,
        v >= 0,
    ensures
        hex_str_of(v, d).len() == d,
        hex_str_of(v, d)[i] == hex_char_of((v / pow2((4 * (d - 1 - i)) as nat) as int) % 16),
    decreases d,
{
    lemma_hex_str_of_len(v, d);
    lemma_hex_str_of_len(v / 16, (d - 1) as nat);
    assert(hex_str_of(v, d) == hex_str_of(v / 16, (d - 1) as nat).push(hex_char_of(v % 16)));
    if i == d - 1 {
        assert(hex_str_of(v, d)[i] == hex_char_of(v % 16));
        assert(pow2(0) == 1) by {
            lemma2_to64();
        }
        lemma_div_basics_2(v);
        assert(v / pow2(0) as int == v);
    } else {
        assert(v / 16 >= 0) by {
            lemma_div_is_ordered(0, v, 16);
        }
        lemma_hex_str_of_index(v / 16, (d - 1) as nat, i);
        assert(hex_str_of(v, d)[i] == hex_str_of(v / 16, (d - 1) as nat)[i]);
        assert(pow2(4) == 16) by {
            lemma2_to64();
        }
        let e = (4 * (d - 2 - i)) as nat;
        lemma_pow2_adds(e, 4);
        lemma_pow2_pos(e);
        lemma_div_denominator(v, 16, pow2(e) as int);
        assert((v / 16) / (pow2(e) as int) == v / (16 * pow2(e) as int));
        assert(16 * pow2(e) as int == pow2(e + 4) as int);
        assert((4 * (d - 1 - i)) as nat == e + 4);
        assert(hex_str_of(v, d)[i] == hex_char_of(((v / 16) / (pow2(e) as int)) % 16));
    }
}

/// One upper-case digit as a string slice.
fn nibble_str(v: u8) -> (r: &'static str)
    requires
        v < 16,
    ensures
        r@.len() == 1,
        r@[0] == hex_char_of(v as int),
{
    proof {
        reveal_strlit("0");
        reveal_strlit("1");
        reveal_strlit("2");
        reveal_strlit("3");
        reveal_strlit("4");
        reveal_strlit("5");
        reveal_strlit("6");
        reveal_strlit("7");
        reveal_strlit("8");
        reveal_strlit("9");
        reveal_strlit("A");
        reveal_strlit("B");
        reveal_strlit("C");
        reveal_strlit("D");
        reveal_strlit("E");
        reveal_strlit("F");
    }
    match v {
        0 => "0",
        1 => "1",
        2 => "2",
        3 => "3",
        4 => "4",
        5 => "5",
        6 => "6",
        7 => "7",
        8 => "8",
        9 => "9",
        10 => "A",
        11 => "B",
        12 => "C",
        13 => "D",
        14 => "E",
        _ => "F",
    }
}

/// A value below `16^d` needs at most `d` digits.
proof fn lemma_digits_needed_bound_rec(v: int, d: nat)
    requires
        d >= 1,
        0 <= v,
        v < pow2((4 * d) as nat),
    ensures
        hex_digits_needed(v) <= d,
    decreases d,
{
    if v < 16 {
    } else {
        assert(pow2(4) == 16) by {
            lemma2_to64();
        }
        let e = (4 * (d - 1)) as nat;
        lemma_pow2_adds(e, 4);
        lemma_pow2_pos(e);
        assert(v / 16 < pow2(e)) by {
            lemma_fundamental_div_mod(v, 16);
            lemma_mod_bound(v, 16);
        }
        assert(v / 16 >= 0) by {
            lemma_div_is_ordered(0, v, 16);
        }
        lemma_digits_needed_bound_rec(v / 16, (d - 1) as nat);
    }
}

/// A `u64` never needs more than 16 digits.
proof fn lemma_digits_needed_bound(v: int)
    requires
        0 <= v <= u64::MAX,
    ensures
        hex_digits_needed(v) <= 16,
{
    assert(u64::MAX < pow2(64)) by {
        lemma2_to64();
    }
    lemma_digits_needed_bound_rec(v, 16);
}

/// How many digits `v` needs, computed.
fn digits_needed_u64(v: u64) -> (r: usize)
    ensures
        r == hex_digits_needed(v as int),
        1 <= r <= 16,
{
    proof {
        lemma_digits_needed_bound(v as int);
    }
    let mut n: usize = 1;
    let mut x: u64 = v;
    while x >= 16
        invariant
            n >= 1,
            hex_digits_needed(v as int) == hex_digits_needed(x as int) + n - 1,
            hex_digits_needed(v as int) <= 16,
        decreases x,
    {
        proof {
            assert(hex_digits_needed(x as int) == 1 + hex_digits_needed(x as int / 16));
            assert(hex_digits_needed(x as int / 16) >= 1);
        }
        x = x / 16;
        n += 1;
    }
    n
}

/// Writes `v` in upper-case hexadecimal, zero-padded to at least `min`
/// digits, exactly as `hex_upper` describes.
pub fn to_hex_upper_u64(v: u64, min: usize) -> (r: String)
    requires
        1 <= min <= 16,
    ensures
        r@ == hex_upper(v as int, min as nat),
{
    let needed = digits_needed_u64(v);
    let width: usize = if needed > min {
        needed
    } else {
        min
    };
    assert(width as nat == hex_width(v as int, min as nat));
    let mut out = String::new();
    let mut i: usize = 0;
    proof {
        lemma_hex_str_of_len(v as int, width as nat);
    }
    while i < width
        invariant
            width as nat == hex_width(v as int, min as nat),
            1 <= width <= 16,
            i <= width,
            out@.len() == i,
            forall|j: int| 0 <= j < i ==> out@[j] == hex_str_of(v as int, width as nat)[j],
        decreases width - i,
    {
        let shift: u64 = (4 * (width - 1 - i)) as u64;
        let digit: u8 = ((v >> shift) & 0xF) as u8;
        proof {
            let sh = (4 * (width - 1 - i)) as nat;
            lemma_u64_shr_is_div(v, shift);
            lemma_u64_low_bits_mask_is_mod(v >> shift, 4);
            assert(low_bits_mask(4) == 0xF) by {
                lemma_low_bits_mask_values();
            }
            assert(pow2(4) == 16) by {
                lemma2_to64();
            }
            lemma_pow2_pos(sh);
            lemma_mod_bound((v >> shift) as int, 16);
            lemma_hex_str_of_index(v as int, width as nat, i as int);
        }
        out.append(nibble_str(digit));
        i += 1;
    }
    proof {
        lemma_hex_str_of_len(v as int, width as nat);
        assert(out@ =~= hex_str_of(v as int, width as nat));
    }
    out
}

/// Writes a `u32` in upper-case hexadecimal with minimum width `min`.
pub fn to_hex_upper_u32(v: u32, min: usize) -> (r: String)
    requires
        1 <= min <= 16,
    ensures
        r@ == hex_upper(v as int, min as nat),
{
    to_hex_upper_u64(v as u64, min)
}

} // verus!
