//! Reading the text of a bus as a vector of four-state bits.

use crate::hex::{
    all_bits, binary_to_hex, bit_of, hex_digit_upper, nibble_at, padded_bits, ParseError,
};
use crate::text::{chars_of, lemma_scan_while_unique, scan_while};
use crate::value::{Value, WaveValue};
use vstd::prelude::*;

verus! {

/// The images of the characters of `s` under `f`, one after the other.
pub open spec fn expand<T>(s: Seq<char>, f: spec_fn(char) -> Seq<T>) -> Seq<T>
    decreases s.len(),
{
    if s.len() == 0 {
        Seq::empty()
    } else {
        expand(s.drop_last(), f) + f(s.last())
    }
}

/// The number that a hexadecimal digit of either case stands for.
pub open spec fn hex_value(c: char) -> Option<int> {
    if '0' <= c <= '9' {
        Some((c as u32) - 48)
    } else if 'a' <= c <= 'f' {
        Some((c as u32) - 87)
    } else if 'A' <= c <= 'F' {
        Some((c as u32) - 55)
    } else {
        None
    }
}

/// Reads a hexadecimal digit of either case.
pub fn hex_value_of(c: char) -> (r: Option<u8>)
    ensures
        r matches Some(v) ==> hex_value(c) == Some(v as int) && v < 16,
        r is None ==> hex_value(c) is None,
{
    if '0' <= c && c <= '9' {
        Some((c as u32 - 48) as u8)
    } else if 'a' <= c && c <= 'f' {
        Some((c as u32 - 87) as u8)
    } else if 'A' <= c && c <= 'F' {
        Some((c as u32 - 55) as u8)
    } else {
        None
    }
}

/// `x` or `X`.
pub open spec fn is_unknown(c: char) -> bool {
    c == 'x' || c == 'X'
}

/// `z` or `Z`.
pub open spec fn is_high_impedance(c: char) -> bool {
    c == 'z' || c == 'Z'
}

/// The logic value of the lowest bit of `q`.
pub open spec fn low_bit(q: int) -> Value {
    if q % 2 == 1 {
        Value::V1
    } else {
        Value::V0
    }
}

/// The lowest `width` bits of `v`, the most significant first.
pub open spec fn number_bits(v: int, width: int) -> Seq<Value> {
    if width == 3 {
        seq![low_bit(v / 4), low_bit(v / 2), low_bit(v)]
    } else {
        seq![low_bit(v / 8), low_bit(v / 4), low_bit(v / 2), low_bit(v)]
    }
}

/// `width` copies of `v`.
pub open spec fn repeated(v: Value, width: int) -> Seq<Value> {
    if width == 3 {
        seq![v, v, v]
    } else {
        seq![v, v, v, v]
    }
}

/// The two-character prefix that may stand before a number of the given
/// radix, in lower case: `b`, `o`, `d` or `x` after a zero.
pub open spec fn radix_letter(radix: u32) -> Option<char> {
    if radix == 2 {
        Some('b')
    } else if radix == 8 {
        Some('o')
    } else if radix == 10 {
        Some('d')
    } else if radix == 16 {
        Some('x')
    } else {
        None
    }
}

/// The upper-case form of a radix letter.
pub open spec fn upper_letter(c: char) -> char {
    if c == 'b' {
        'B'
    } else if c == 'o' {
        'O'
    } else if c == 'd' {
        'D'
    } else {
        'X'
    }
}

/// The length of the radix prefix at the start of `s`: two when `s` begins
/// with a zero and the letter of the radix in either case, else zero.
pub open spec fn radix_prefix_len(s: Seq<char>, radix: u32) -> int {
    match radix_letter(radix) {
        Some(l) => if s.len() >= 2 && s[0] == '0' && (s[1] == l || s[1] == upper_letter(l)) {
            2
        } else {
            0
        },
        None => 0,
    }
}

/// Whether `c` is a digit of a number of the given radix. A radix other
/// than 8, 10 and 16 is read as binary.
pub open spec fn is_radix_digit(c: char, radix: u32) -> bool {
    if is_unknown(c) || is_high_impedance(c) {
        true
    } else if radix == 8 {
        '0' <= c <= '7'
    } else if radix == 10 {
        '0' <= c <= '9'
    } else if radix == 16 {
        hex_value(c) is Some
    } else {
        c == '0' || c == '1'
    }
}

/// How many bits one digit of the given radix stands for. A decimal digit
/// stands for four, as a hexadecimal one does.
pub open spec fn digit_width(radix: u32) -> int {
    if radix == 8 {
        3
    } else if radix == 10 || radix == 16 {
        4
    } else {
        1
    }
}

/// The bits that one digit of the given radix stands for.
pub open spec fn digit_bits(c: char, radix: u32) -> Seq<Value> {
    let w = digit_width(radix);
    if w == 1 {
        match Value::of_char(c) {
            Some(v) => seq![v],
            None => Seq::empty(),
        }
    } else if is_unknown(c) {
        repeated(Value::VX, w)
    } else if is_high_impedance(c) {
        repeated(Value::VZ, w)
    } else {
        match hex_value(c) {
            Some(v) => number_bits(v, w),
            None => Seq::empty(),
        }
    }
}

/// Where the digits of a number of the given radix end in `s`.
pub open spec fn digits_end(s: Seq<char>, radix: u32) -> int {
    scan_while(s, radix_prefix_len(s, radix), |c: char| is_radix_digit(c, radix))
}

/// The bits that the text of a bus stands for when read in the given
/// radix: an optional radix prefix, then one or more digits, each of which
/// stands for a fixed number of bits. What follows the digits is not read.
/// Without a digit there is no value.
pub open spec fn bus_values(s: Seq<char>, radix: u32) -> Option<Seq<Value>> {
    let from = radix_prefix_len(s, radix);
    let to = digits_end(s, radix);
    if to == from {
        None
    } else {
        Some(expand(s.subrange(from, to), |c: char| digit_bits(c, radix)))
    }
}

/// The logic values of a run of binary digits.
pub open spec fn bit_values(bits: Seq<char>) -> Seq<Value> {
    Seq::new(bits.len(), |i: int| low_bit(bit_of(bits[i])))
}

/// The bits of the first `k` digits of the hexadecimal form of `bits` are
/// the first `4 * k` bits of its padded form.
proof fn lemma_hex_digits_expand(bits: Seq<char>, k: int)
    requires
        all_bits(bits),
        0 <= k <= binary_to_hex(bits).len(),
    ensures
        expand(binary_to_hex(bits).take(k), |c: char| digit_bits(c, 16)) == bit_values(
            padded_bits(bits).take(4 * k),
        ),
    decreases k,
{
    let h = binary_to_hex(bits);
    let p = padded_bits(bits);
    if k == 0 {
        assert(h.take(0).len() == 0);
        assert(bit_values(p.take(0)) =~= Seq::empty());
    } else {
        lemma_hex_digits_expand(bits, k - 1);
        let t = h.take(k);
        assert(t.drop_last() == h.take(k - 1));
        assert(t.last() == h[k - 1]);
        let v = nibble_at(p, k - 1);
        assert(0 <= v < 16);
        assert(h[k - 1] == hex_digit_upper(v));
        assert(hex_value(h[k - 1]) == Some(v));
        assert(digit_bits(h[k - 1], 16) == number_bits(v, 4));
        assert(bit_values(p.take(4 * (k - 1))) + number_bits(v, 4) =~= bit_values(p.take(4 * k)));
    }
}

/// The round trip of the canonical form.
///
/// The hexadecimal form of a run of binary digits that is not empty,
/// read back as bits, gives the digits of the run with zeros in front up
/// to a whole number of nibbles: the run `1` becomes the digit `1`, which
/// reads back as `0001`.
pub proof fn lemma_hex_round_trip(bits: Seq<char>)
    requires
        all_bits(bits),
        bits.len() > 0,
    ensures
        bus_values(binary_to_hex(bits), 16) == Some(bit_values(padded_bits(bits))),
{
    let h = binary_to_hex(bits);
    let pred = |c: char| is_radix_digit(c, 16);
    lemma_scan_while_unique(h, 0, h.len() as int, pred);
    lemma_hex_digits_expand(bits, h.len() as int);
}

/// Tests whether `c` is a digit of a number of the given radix.
fn is_radix_digit_char(c: char, radix: u32) -> (b: bool)
    ensures
        b == is_radix_digit(c, radix),
{
    if c == 'x' || c == 'X' || c == 'z' || c == 'Z' {
        true
    } else if radix == 8 {
        '0' <= c && c <= '7'
    } else if radix == 10 {
        '0' <= c && c <= '9'
    } else if radix == 16 {
        hex_value_of(c).is_some()
    } else {
        c == '0' || c == '1'
    }
}

/// The logic value of the lowest bit of `q`.
fn low_bit_of(q: u8) -> (v: Value)
    ensures
        v == low_bit(q as int),
{
    if q % 2 == 1 {
        Value::V1
    } else {
        Value::V0
    }
}

/// Appends the bits of one digit of the given radix.
fn push_digit_bits(out: &mut Vec<Value>, c: char, radix: u32)
    requires
        is_radix_digit(c, radix),
    ensures
        final(out)@ == old(out)@ + digit_bits(c, radix),
{
    let wide = radix == 8 || radix == 10 || radix == 16;
    if !wide {
        match Value::from_char(c) {
            Some(v) => {
                out.push(v);
            },
            None => {
            },
        }
        return ;
    }
    let three = radix == 8;
    if c == 'x' || c == 'X' || c == 'z' || c == 'Z' {
        let v = if c == 'x' || c == 'X' {
            Value::VX
        } else {
            Value::VZ
        };
        if !three {
            out.push(v);
        }
        out.push(v);
        out.push(v);
        out.push(v);
        return ;
    }
    match hex_value_of(c) {
        Some(n) => {
            if !three {
                out.push(low_bit_of(n / 8));
            }
            out.push(low_bit_of(n / 4));
            out.push(low_bit_of(n / 2));
            out.push(low_bit_of(n));
        },
        None => {
        },
    }
}

/// Reads the digits at the start of `input` as bits.
///
/// An optional radix prefix (`0b`, `0o`, `0d` or `0x`, in either case) is
/// passed over, then digits are read as far as they go. A binary digit is
/// one bit, an octal digit three, a decimal or hexadecimal digit four; `x`
/// and `z` fill the width of their digit. A radix other than 8, 10 and 16
/// is read as binary. The result holds what is left of the input after the
/// digits, and the bits. Without a digit the input is refused.
pub fn parse_string_to_vector_of_values(input: &str, radix: u32) -> (r: Result<
    (&str, Vec<Value>),
    ParseError,
>)
    ensures
        match r {
            Ok((rest, values)) => bus_values(input@, radix) == Some(values@) && rest@
                == input@.skip(digits_end(input@, radix)),
            Err(_) => bus_values(input@, radix) is None,
        },
{
    let s = chars_of(input);
    let ghost pred = |c: char| is_radix_digit(c, radix);
    let from: usize = if s.len() >= 2 && s[0] == '0' && ((radix == 2 && (s[1] == 'b' || s[1]
        == 'B')) || (radix == 8 && (s[1] == 'o' || s[1] == 'O')) || (radix == 10 && (s[1] == 'd'
        || s[1] == 'D')) || (radix == 16 && (s[1] == 'x' || s[1] == 'X'))) {
        2
    } else {
        0
    };
    let mut values: Vec<Value> = Vec::new();
    let mut i: usize = from;
    while i < s.len() && is_radix_digit_char(s[i], radix)
        invariant
            from <= i <= s.len(),
            forall|k: int| from <= k < i ==> is_radix_digit(#[trigger] s@[k], radix),
            values@ == expand(s@.subrange(from as int, i as int), |c: char| digit_bits(c, radix)),
        decreases s.len() - i,
    {
        push_digit_bits(&mut values, s[i], radix);
        i += 1;
        proof {
            let t = s@.subrange(from as int, i as int);
            assert(t.drop_last() == s@.subrange(from as int, i - 1));
        }
    }
    proof {
        lemma_scan_while_unique(s@, from as int, i as int, pred);
    }
    if i == from {
        return Err(ParseError);
    }
    let rest = input.substring_char(i, s.len());
    Ok((rest, values))
}

impl WaveValue {
    /// The bits of a value: the one bit of a single-bit signal, or the
    /// bits that the text of a bus stands for in the given radix. A bus
    /// whose text does not start with a digit of that radix has no bits.
    pub fn values(&self, radix: u32) -> (r: Option<Vec<Value>>)
        ensures
            match *self {
                WaveValue::Binary(v) => r matches Some(bits) && bits@ == seq![v],
                WaveValue::Bus(s) => match r {
                    Some(bits) => bus_values(s@, radix) == Some(bits@),
                    None => bus_values(s@, radix) is None,
                },
            },
    {
        match self {
            WaveValue::Binary(v) => {
                let mut bits: Vec<Value> = Vec::new();
                bits.push(*v);
                Some(bits)
            },
            WaveValue::Bus(s) => match parse_string_to_vector_of_values(s.as_str(), radix) {
                Ok((_, values)) => Some(values),
                Err(_) => None,
            },
        }
    }
}

} // verus!
