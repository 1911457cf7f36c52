//! The canonical form of a fully defined bus value: its bits, written as an
//! upper-case hexadecimal number.

use crate::text::chars_of;
use crate::text::string_of;
use vstd::prelude::*;

verus! {

/// The input held a character that the grammar does not allow there.
#[derive(Debug, Clone, Copy, PartialEq, Eq, Structural)]
pub struct ParseError;

/// A binary digit.
pub open spec fn is_bit(c: char) -> bool {
    c == '0' || c == '1'
}

/// Whether every character of `s` is a binary digit.
pub open spec fn all_bits(s: Seq<char>) -> bool {
    forall|k: int| 0 <= k < s.len() ==> is_bit(#[trigger] s[k])
}

/// The number that a binary digit stands for.
pub open spec fn bit_of(c: char) -> int {
    if c == '1' {
        1
    } else {
        0
    }
}

/// How many zeros bring a run of `n` bits up to whole nibbles.
pub open spec fn nibble_pad(n: nat) -> nat {
    ((4 - n % 4) % 4) as nat
}

/// `bits` with zeros in front, so that its length is a multiple of four.
pub open spec fn padded_bits(bits: Seq<char>) -> Seq<char> {
    Seq::new(nibble_pad(bits.len()), |i: int| '0') + bits
}

/// The value of the `j`-th group of four bits of `p`, the first bit of the
/// group being the most significant.
pub open spec fn nibble_at(p: Seq<char>, j: int) -> int {
    8 * bit_of(p[4 * j]) + 4 * bit_of(p[4 * j + 1]) + 2 * bit_of(p[4 * j + 2]) + bit_of(
        p[4 * j + 3],
    )
}

/// The upper-case hexadecimal digit for a value from 0 to 15.
pub open spec fn hex_digit_upper(v: int) -> char {
    if v < 10 {
        ((48 + v) as u8) as char
    } else {
        ((55 + v) as u8) as char
    }
}

/// The hexadecimal form of a run of binary digits: zeros are put in front
/// up to a whole number of nibbles, and each nibble becomes one upper-case
/// digit.
pub open spec fn binary_to_hex(bits: Seq<char>) -> Seq<char> {
    let p = padded_bits(bits);
    Seq::new((p.len() / 4) as nat, |j: int| hex_digit_upper(nibble_at(p, j)))
}

/// The upper-case hexadecimal digit for `v`.
pub fn hex_digit_upper_char(v: u8) -> (c: char)
    requires
        v < 16,
    ensures
        c == hex_digit_upper(v as int),
{
    if v < 10 {
        (48u8 + v) as char
    } else {
        (55u8 + v) as char
    }
}

/// Tests whether every character of `s` is a binary digit.
pub fn is_all_bits(s: &Vec<char>) -> (b: bool)
    ensures
        b == all_bits(s@),
{
    let mut i: usize = 0;
    while i < s.len()
        invariant
            i <= s.len(),
            forall|k: int| 0 <= k < i ==> is_bit(#[trigger] s@[k]),
        decreases s.len() - i,
    {
        if !(s[i] == '0' || s[i] == '1') {
            return false;
        }
        i += 1;
    }
    true
}

/// The bit at position `k` of the `j`-th nibble of the padded form of
/// `bits`.
fn padded_bit(bits: &Vec<char>, pad: usize, j: usize, k: usize) -> (b: u8)
    requires
        pad == nibble_pad(bits@.len()),
        k < 4,
        4 * j + 4 <= padded_bits(bits@).len(),
    ensures
        b == bit_of(padded_bits(bits@)[4 * j + k]),
{
    // The padded form is at most three bits longer than `bits`, whose
    // length is a number that the machine can hold.
    let n = bits.len();
    assert(padded_bits(bits@).len() <= n + 3);
    let base: usize = 4 * j;
    if k >= pad {
        if bits[base + (k - pad)] == '1' {
            1
        } else {
            0
        }
    } else if base >= pad - k {
        if bits[base - (pad - k)] == '1' {
            1
        } else {
            0
        }
    } else {
        0
    }
}

/// Rewrites a run of binary digits as an upper-case hexadecimal number.
///
/// The digits are padded on the left with zeros to a whole number of
/// nibbles, so the empty run gives the empty number and `1` gives `1`.
/// A run that holds anything but `0` and `1` is refused. Nothing of the
/// input is ever left over: the first part of the result is empty.
pub fn parse_binary_to_hex(bin_str: &str) -> (r: Result<(&'static str, String), ParseError>)
    ensures
        all_bits(bin_str@) ==> (r matches Ok((rest, hex)) && rest@.len() == 0 && hex@
            == binary_to_hex(bin_str@)),
        !all_bits(bin_str@) ==> r is Err,
{
    let bits = chars_of(bin_str);
    match bits_to_hex(&bits) {
        Some(hex) => {
            proof {
                reveal_strlit("");
            }
            Ok(("", string_of(&hex)))
        },
        None => Err(ParseError),
    }
}

/// Rewrites a run of binary digits as an upper-case hexadecimal number, or
/// gives `None` when a character is no binary digit.
pub fn bits_to_hex(bits: &Vec<char>) -> (r: Option<Vec<char>>)
    ensures
        all_bits(bits@) ==> (r matches Some(hex) && hex@ == binary_to_hex(bits@)),
        !all_bits(bits@) ==> r is None,
{
    if !is_all_bits(bits) {
        return None;
    }
    let n = bits.len();
    let pad: usize = (4 - n % 4) % 4;
    let groups: usize = n / 4 + (if n % 4 != 0 {
        1usize
    } else {
        0usize
    });
    let ghost p = padded_bits(bits@);
    let mut out: Vec<char> = Vec::new();
    let mut j: usize = 0;
    while j < groups
        invariant
            j <= groups,
            p == padded_bits(bits@),
            p.len() == 4 * groups,
            pad == nibble_pad(bits@.len()),
            out@.len() == j,
            forall|i: int| 0 <= i < j ==> out@[i] == hex_digit_upper(nibble_at(p, i)),
        decreases groups - j,
    {
        let b0 = padded_bit(bits, pad, j, 0);
        let b1 = padded_bit(bits, pad, j, 1);
        let b2 = padded_bit(bits, pad, j, 2);
        let b3 = padded_bit(bits, pad, j, 3);
        out.push(hex_digit_upper_char(8 * b0 + 4 * b1 + 2 * b2 + b3));
        j += 1;
    }
    Some(out)
}

} // verus!
