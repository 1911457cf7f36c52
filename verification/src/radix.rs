//! Display of a value in binary, octal, decimal or hexadecimal.

use crate::bits::{expand, hex_value, hex_value_of, is_high_impedance, is_unknown};
use crate::hex::bit_of;
use crate::text::{
    chars_of, decimal, lemma_scan_while_unique, push_all, push_decimal, scan_while, string_of,
};
use crate::value::{Value, WaveValue, WaveValueView};
use vstd::prelude::*;

verus! {

/// Whether `c` is one of `x`, `X`, `z`, `Z`.
pub open spec fn is_undefined(c: char) -> bool {
    is_unknown(c) || is_high_impedance(c)
}

/// Whether `s` holds an undefined digit.
pub open spec fn has_undefined(s: Seq<char>) -> bool {
    exists|k: int| 0 <= k < s.len() && is_undefined(#[trigger] s[k])
}

/// Whether every character of `s` is a binary digit or an undefined one.
pub open spec fn all_logic(s: Seq<char>) -> bool {
    forall|k: int| 0 <= k < s.len() ==> Value::of_char(#[trigger] s[k]) is Some
}

/// `c` with an undefined digit put in the wanted case; any other character
/// stays as it is.
pub open spec fn cased(c: char, uppercase: bool) -> char {
    if is_unknown(c) {
        if uppercase {
            'X'
        } else {
            'x'
        }
    } else if is_high_impedance(c) {
        if uppercase {
            'Z'
        } else {
            'z'
        }
    } else {
        c
    }
}

/// `s` with its undefined digits put in the wanted case.
pub open spec fn cased_text(s: Seq<char>, uppercase: bool) -> Seq<char> {
    Seq::new(s.len(), |k: int| cased(s[k], uppercase))
}

/// The position in `s` after every copy of the two characters `a`, `b`
/// that stands, one behind the other, at position `from`.
pub open spec fn after_pairs(s: Seq<char>, from: int, a: char, b: char) -> int
    decreases s.len() - from,
{
    if 0 <= from && from + 2 <= s.len() && s[from] == a && s[from + 1] == b {
        after_pairs(s, from + 2, a, b)
    } else {
        from
    }
}

/// Where the digits of `s` begin once every leading `0x`, and then every
/// leading `0X`, is passed over.
pub open spec fn after_hex_prefix(s: Seq<char>) -> int {
    after_pairs(s, after_pairs(s, 0, '0', 'x'), '0', 'X')
}

/// The character for one bit.
pub open spec fn bit_char(q: int) -> char {
    if q % 2 == 1 {
        '1'
    } else {
        '0'
    }
}

/// What one character of a hexadecimal number becomes in binary: a digit
/// becomes its four bits, an undefined digit four copies of itself in the
/// wanted case, and any other character nothing.
pub open spec fn nibble_text(c: char, uppercase: bool) -> Seq<char> {
    if is_undefined(c) {
        let u = cased(c, uppercase);
        seq![u, u, u, u]
    } else {
        match hex_value(c) {
            Some(v) => seq![bit_char(v / 8), bit_char(v / 4), bit_char(v / 2), bit_char(v)],
            None => Seq::empty(),
        }
    }
}

/// `s` without the zeros at its start.
pub open spec fn without_leading_zeros(s: Seq<char>) -> Seq<char> {
    s.skip(scan_while(s, 0, |c: char| c == '0'))
}

/// `s`, or a single zero when `s` is empty.
pub open spec fn or_zero(s: Seq<char>) -> Seq<char> {
    if s.len() == 0 {
        seq!['0']
    } else {
        s
    }
}

/// The binary display of the text of a bus.
///
/// A text made of binary and undefined digits alone is shown as it is, its
/// undefined digits in the wanted case. Any other text is read as a
/// hexadecimal number: hexadecimal prefixes are dropped, each digit becomes
/// four bits, and leading zeros are removed, down to a single digit.
pub open spec fn binary_text(s: Seq<char>, uppercase: bool) -> Seq<char> {
    if all_logic(s) {
        cased_text(s, uppercase)
    } else {
        or_zero(
            without_leading_zeros(
                expand(s.skip(after_hex_prefix(s)), |c: char| nibble_text(c, uppercase)),
            ),
        )
    }
}

/// How many zeros bring a run of `n` digits up to whole groups of `width`.
pub open spec fn group_pad(n: nat, width: int) -> nat {
    if width == 3 {
        ((3 - n % 3) % 3) as nat
    } else {
        ((4 - n % 4) % 4) as nat
    }
}

/// `s` with zeros in front, up to whole groups of `width` digits.
pub open spec fn group_padded(s: Seq<char>, width: int) -> Seq<char> {
    Seq::new(group_pad(s.len(), width), |i: int| '0') + s
}

/// The number that a group of bits stands for, the first bit being the
/// most significant.
pub open spec fn group_number(g: Seq<char>) -> int
    decreases g.len(),
{
    if g.len() == 0 {
        0
    } else {
        2 * group_number(g.drop_last()) + bit_of(g.last())
    }
}

/// The digit for a value from 0 to 15, with letters in the wanted case.
pub open spec fn digit_symbol(v: int, uppercase: bool) -> char {
    if v < 10 {
        ((48 + v) as u8) as char
    } else if uppercase {
        ((55 + v) as u8) as char
    } else {
        ((87 + v) as u8) as char
    }
}

/// The digit that a group of bits becomes: `x` if any of them is unknown,
/// else `z` if any is high impedance, else the digit of the group's number.
pub open spec fn group_symbol(g: Seq<char>, uppercase: bool) -> char {
    if exists|k: int| 0 <= k < g.len() && is_unknown(#[trigger] g[k]) {
        cased('x', uppercase)
    } else if exists|k: int| 0 <= k < g.len() && is_high_impedance(#[trigger] g[k]) {
        cased('z', uppercase)
    } else {
        digit_symbol(group_number(g), uppercase)
    }
}

/// The digits of the groups of `width` bits that `p` is made of, from the
/// left.
pub open spec fn grouped(p: Seq<char>, width: int, uppercase: bool) -> Seq<char>
    decreases p.len(),
{
    if width <= 0 || p.len() < width {
        Seq::empty()
    } else {
        seq![group_symbol(p.take(width), uppercase)] + grouped(p.skip(width), width, uppercase)
    }
}

/// A binary number rewritten with one digit for every `width` bits, the
/// groups being counted from the right, without leading zeros.
pub open spec fn regrouped(b: Seq<char>, width: int, uppercase: bool) -> Seq<char> {
    or_zero(without_leading_zeros(grouped(group_padded(b, width), width, uppercase)))
}

/// The octal display of the text of a bus.
///
/// A text with an undefined digit is shown digit by digit as it is, its
/// undefined digits in the wanted case. Any other text is first brought
/// into binary and then regrouped by three bits.
pub open spec fn octal_text(s: Seq<char>, uppercase: bool) -> Seq<char> {
    if has_undefined(s) {
        cased_text(s, uppercase)
    } else {
        regrouped(binary_text(s, uppercase), 3, uppercase)
    }
}

/// The hexadecimal display of the text of a bus: the text is brought into
/// binary and regrouped by four bits, so that a group with an undefined bit
/// shows as `x` or `z`.
pub open spec fn hex_text(s: Seq<char>, uppercase: bool) -> Seq<char> {
    regrouped(binary_text(s, uppercase), 4, uppercase)
}

/// The number written by the hexadecimal digits of `s`, read from the left.
pub open spec fn hex_number(s: Seq<char>) -> nat
    decreases s.len(),
{
    if s.len() == 0 {
        0
    } else {
        (hex_number(s.drop_last()) * 16 + match hex_value(s.last()) {
            Some(v) => v,
            None => 0,
        }) as nat
    }
}

/// Whether every character of `s` is a hexadecimal digit.
pub open spec fn all_hex(s: Seq<char>) -> bool {
    forall|k: int| 0 <= k < s.len() ==> hex_value(#[trigger] s[k]) is Some
}

/// What a run of characters means as an unsigned 64-bit number in base
/// sixteen: one or more digits whose value fits in 64 bits.
pub open spec fn parsed_hex_digits(digits: Seq<char>) -> Option<u64> {
    if digits.len() > 0 && all_hex(digits) && hex_number(digits) <= u64::MAX {
        Some(hex_number(digits) as u64)
    } else {
        None
    }
}

/// What `s` means as an unsigned 64-bit number in base sixteen: an
/// optional `+`, then one or more digits whose value fits in 64 bits.
pub open spec fn parsed_hex_u64(s: Seq<char>) -> Option<u64> {
    if s.len() > 0 && s[0] == '+' {
        parsed_hex_digits(s.skip(1))
    } else {
        parsed_hex_digits(s)
    }
}

/// The decimal display of the text of a bus.
///
/// A text without an undefined digit that reads as a hexadecimal number
/// of at most 64 bits is shown in base ten. Any other text is shown
/// character by character as it is, its undefined digits in the wanted
/// case.
pub open spec fn decimal_text(s: Seq<char>, uppercase: bool) -> Seq<char> {
    if has_undefined(s) {
        cased_text(s, uppercase)
    } else {
        match parsed_hex_u64(s) {
            Some(n) => decimal(n as nat),
            None => cased_text(s, uppercase),
        }
    }
}

/// The prefix that marks the radix of a displayed number.
pub open spec fn radix_mark(radix: u32, uppercase: bool) -> Seq<char> {
    if radix == 2 {
        seq!['0', 'b']
    } else if radix == 8 {
        seq!['0', 'o']
    } else if radix == 10 {
        seq!['0', 'd']
    } else if radix == 16 {
        if uppercase {
            seq!['0', 'X']
        } else {
            seq!['0', 'x']
        }
    } else {
        Seq::empty()
    }
}

/// The display of the text of a bus in the given radix. A radix other than
/// 2, 8, 10 and 16 shows the text as it is.
pub open spec fn radix_text(s: Seq<char>, radix: u32, uppercase: bool) -> Seq<char> {
    if radix == 2 {
        binary_text(s, uppercase)
    } else if radix == 8 {
        octal_text(s, uppercase)
    } else if radix == 10 {
        decimal_text(s, uppercase)
    } else if radix == 16 {
        hex_text(s, uppercase)
    } else {
        s
    }
}

/// The display of a value: the character of a single bit whatever the
/// radix, or the text of a bus in the given radix, behind its radix mark
/// where one is asked for.
pub open spec fn display_text(v: WaveValueView, radix: u32, uppercase: bool, prefixed: bool) -> Seq<
    char,
> {
    match v {
        WaveValueView::Binary(b) => seq![b.symbol()],
        WaveValueView::Bus(s) => (if prefixed {
            radix_mark(radix, uppercase)
        } else {
            Seq::empty()
        }) + radix_text(s, radix, uppercase),
    }
}

/// Puts an undefined digit in the wanted case.
pub fn cased_char(c: char, uppercase: bool) -> (r: char)
    ensures
        r == cased(c, uppercase),
{
    if c == 'x' || c == 'X' {
        if uppercase {
            'X'
        } else {
            'x'
        }
    } else if c == 'z' || c == 'Z' {
        if uppercase {
            'Z'
        } else {
            'z'
        }
    } else {
        c
    }
}

/// Copies `s`, putting its undefined digits in the wanted case.
fn cased_chars(s: &Vec<char>, uppercase: bool) -> (r: Vec<char>)
    ensures
        r@ == cased_text(s@, uppercase),
{
    let mut r: Vec<char> = Vec::new();
    let mut i: usize = 0;
    while i < s.len()
        invariant
            i <= s.len(),
            r@.len() == i,
            forall|k: int| 0 <= k < i ==> r@[k] == cased(s@[k], uppercase),
        decreases s.len() - i,
    {
        r.push(cased_char(s[i], uppercase));
        i += 1;
    }
    r
}

/// Copies `s` from position `from` on.
fn tail(s: &Vec<char>, from: usize) -> (r: Vec<char>)
    requires
        from <= s.len(),
    ensures
        r@ == s@.skip(from as int),
{
    let mut r: Vec<char> = Vec::new();
    let mut i: usize = from;
    while i < s.len()
        invariant
            from <= i <= s.len(),
            r@.len() == i - from,
            forall|k: int| 0 <= k < i - from ==> r@[k] == s@[from + k],
        decreases s.len() - i,
    {
        r.push(s[i]);
        i += 1;
    }
    r
}

/// Passes over every copy of the pair `a`, `b` at position `from`.
fn skip_pairs(s: &Vec<char>, from: usize, a: char, b: char) -> (r: usize)
    requires
        from <= s.len(),
    ensures
        r == after_pairs(s@, from as int, a, b),
        from <= r <= s.len(),
{
    let mut i: usize = from;
    while s.len() - i >= 2 && s[i] == a && s[i + 1] == b
        invariant
            from <= i <= s.len(),
            after_pairs(s@, from as int, a, b) == after_pairs(s@, i as int, a, b),
        decreases s.len() - i,
    {
        i += 2;
    }
    i
}

/// Passes over the hexadecimal prefixes at the start of `s`.
fn skip_hex_prefix(s: &Vec<char>) -> (r: usize)
    ensures
        r == after_hex_prefix(s@),
        r <= s.len(),
{
    let i = skip_pairs(s, 0, '0', 'x');
    skip_pairs(s, i, '0', 'X')
}

/// Tests whether every character is a binary or an undefined digit.
fn is_all_logic(s: &Vec<char>) -> (b: bool)
    ensures
        b == all_logic(s@),
{
    let mut i: usize = 0;
    while i < s.len()
        invariant
            i <= s.len(),
            forall|k: int| 0 <= k < i ==> Value::of_char(#[trigger] s@[k]) is Some,
        decreases s.len() - i,
    {
        if Value::from_char(s[i]).is_none() {
            return false;
        }
        i += 1;
    }
    true
}

/// Tests whether a character is an undefined digit.
fn contains_undefined(s: &Vec<char>) -> (b: bool)
    ensures
        b == has_undefined(s@),
{
    let mut i: usize = 0;
    while i < s.len()
        invariant
            i <= s.len(),
            forall|k: int| 0 <= k < i ==> !is_undefined(#[trigger] s@[k]),
        decreases s.len() - i,
    {
        let c = s[i];
        if c == 'x' || c == 'X' || c == 'z' || c == 'Z' {
            return true;
        }
        i += 1;
    }
    false
}

/// Removes leading zeros, down to a single digit.
fn trim_zeros(s: &Vec<char>) -> (r: Vec<char>)
    ensures
        r@ == or_zero(without_leading_zeros(s@)),
{
    let ghost pred = |c: char| c == '0';
    let mut i: usize = 0;
    while i < s.len() && s[i] == '0'
        invariant
            i <= s.len(),
            forall|k: int| 0 <= k < i ==> s@[k] == '0',
        decreases s.len() - i,
    {
        i += 1;
    }
    proof {
        lemma_scan_while_unique(s@, 0, i as int, pred);
    }
    if i == s.len() {
        let mut r: Vec<char> = Vec::new();
        r.push('0');
        r
    } else {
        tail(s, i)
    }
}

/// The character for the lowest bit of `q`.
fn bit_char_of(q: u8) -> (c: char)
    ensures
        c == bit_char(q as int),
{
    if q % 2 == 1 {
        '1'
    } else {
        '0'
    }
}

/// Appends what one character of a hexadecimal number becomes in binary.
fn push_nibble_text(out: &mut Vec<char>, c: char, uppercase: bool)
    ensures
        final(out)@ == old(out)@ + nibble_text(c, uppercase),
{
    if c == 'x' || c == 'X' || c == 'z' || c == 'Z' {
        let u = cased_char(c, uppercase);
        out.push(u);
        out.push(u);
        out.push(u);
        out.push(u);
    } else {
        match hex_value_of(c) {
            Some(v) => {
                out.push(bit_char_of(v / 8));
                out.push(bit_char_of(v / 4));
                out.push(bit_char_of(v / 2));
                out.push(bit_char_of(v));
            },
            None => {
            },
        }
    }
}

/// The binary display of the characters of a bus.
fn binary_chars(s: &Vec<char>, uppercase: bool) -> (r: Vec<char>)
    ensures
        r@ == binary_text(s@, uppercase),
{
    if is_all_logic(s) {
        return cased_chars(s, uppercase);
    }
    let start = skip_hex_prefix(s);
    let t = tail(s, start);
    let mut bits: Vec<char> = Vec::new();
    let mut i: usize = 0;
    while i < t.len()
        invariant
            i <= t.len(),
            bits@ == expand(t@.take(i as int), |c: char| nibble_text(c, uppercase)),
        decreases t.len() - i,
    {
        push_nibble_text(&mut bits, t[i], uppercase);
        i += 1;
        proof {
            let u = t@.take(i as int);
            assert(u.drop_last() == t@.take(i - 1));
        }
    }
    assert(t@.take(t@.len() as int) == t@);
    trim_zeros(&bits)
}

/// The digit for a value from 0 to 15, with letters in the wanted case.
fn digit_symbol_of(v: u8, uppercase: bool) -> (c: char)
    requires
        v < 16,
    ensures
        c == digit_symbol(v as int, uppercase),
{
    if v < 10 {
        (48u8 + v) as char
    } else if uppercase {
        (55u8 + v) as char
    } else {
        (87u8 + v) as char
    }
}

/// Rewrites a binary number with one digit for every `width` bits.
fn regroup(b: &Vec<char>, width: usize, uppercase: bool) -> (r: Vec<char>)
    requires
        width == 3 || width == 4,
    ensures
        r@ == regrouped(b@, width as int, uppercase),
{
    let n = b.len();
    let pad: usize = (width - n % width) % width;
    let mut p: Vec<char> = Vec::new();
    let mut z: usize = 0;
    while z < pad
        invariant
            z <= pad,
            p@ == Seq::new(z as nat, |i: int| '0'),
        decreases pad - z,
    {
        p.push('0');
        z += 1;
    }
    push_all(&mut p, b);
    let total = p.len();
    let mut digits: Vec<char> = Vec::new();
    let mut start: usize = 0;
    proof {
        assert(p@.skip(0) == p@);
    }
    while total - start >= width
        invariant
            width == 3 || width == 4,
            start <= total == p.len(),
            digits@ + grouped(p@.skip(start as int), width as int, uppercase) == grouped(
                p@,
                width as int,
                uppercase,
            ),
        decreases total - start,
    {
        let ghost g = p@.skip(start as int).take(width as int);
        let mut number: u8 = 0;
        let mut unknown = false;
        let mut floating = false;
        let mut k: usize = 0;
        while k < width
            invariant
                width == 3 || width == 4,
                k <= width,
                start + width <= p.len(),
                g == p@.skip(start as int).take(width as int),
                number == group_number(g.take(k as int)),
                number < 16,
                k < 4 ==> number < 8,
                k < 3 ==> number < 4,
                k < 2 ==> number < 2,
                k < 1 ==> number < 1,
                unknown == (exists|j: int| 0 <= j < k && is_unknown(#[trigger] g[j])),
                floating == (exists|j: int| 0 <= j < k && is_high_impedance(#[trigger] g[j])),
            decreases width - k,
        {
            let c = p[start + k];
            assert(g[k as int] == c);
            proof {
                let u = g.take(k + 1);
                assert(u.drop_last() == g.take(k as int));
            }
            number = 2 * number + (if c == '1' {
                1u8
            } else {
                0u8
            });
            if c == 'x' || c == 'X' {
                unknown = true;
            }
            if c == 'z' || c == 'Z' {
                floating = true;
            }
            k += 1;
        }
        assert(g.take(width as int) == g);
        let symbol = if unknown {
            cased_char('x', uppercase)
        } else if floating {
            cased_char('z', uppercase)
        } else {
            digit_symbol_of(number, uppercase)
        };
        proof {
            assert(p@.skip(start as int).skip(width as int) == p@.skip(start + width));
        }
        digits.push(symbol);
        start += width;
    }
    trim_zeros(&digits)
}

/// The octal display of the characters of a bus.
fn octal_chars(s: &Vec<char>, uppercase: bool) -> (r: Vec<char>)
    ensures
        r@ == octal_text(s@, uppercase),
{
    if contains_undefined(s) {
        return cased_chars(s, uppercase);
    }
    let binary = binary_chars(s, uppercase);
    regroup(&binary, 3, uppercase)
}

/// The hexadecimal display of the characters of a bus.
fn hex_chars(s: &Vec<char>, uppercase: bool) -> (r: Vec<char>)
    ensures
        r@ == hex_text(s@, uppercase),
{
    let binary = binary_chars(s, uppercase);
    regroup(&binary, 4, uppercase)
}

/// The value of a digit string never shrinks when digits are appended.
proof fn lemma_hex_number_prefix(s: Seq<char>, n: int)
    requires
        0 <= n <= s.len(),
    ensures
        hex_number(s.take(n)) <= hex_number(s),
    decreases s.len() - n,
{
    if n < s.len() {
        lemma_hex_number_prefix(s, n + 1);
        let t = s.take(n + 1);
        assert(t.drop_last() == s.take(n));
    } else {
        assert(s.take(n) == s);
    }
}

/// Reads the digits `s[from..]` as an unsigned 64-bit number in base
/// sixteen.
fn parse_hex_digits(s: &Vec<char>, from: usize) -> (r: Option<u64>)
    requires
        from <= s.len(),
    ensures
        r == parsed_hex_digits(s@.skip(from as int)),
{
    let ghost digits = s@.skip(from as int);
    if from == s.len() {
        return None;
    }
    let mut acc: u64 = 0;
    let mut i: usize = from;
    while i < s.len()
        invariant
            from <= i <= s.len(),
            digits == s@.skip(from as int),
            forall|k: int| 0 <= k < i - from ==> hex_value(#[trigger] digits[k]) is Some,
            acc == hex_number(digits.take(i - from)),
        decreases s.len() - i,
    {
        let c = s[i];
        assert(digits[i - from] == c);
        proof {
            let t = digits.take(i - from + 1);
            assert(t.drop_last() == digits.take(i - from));
        }
        match hex_value_of(c) {
            None => {
                return None;
            },
            Some(d) => {
                if acc > (u64::MAX - d as u64) / 16 {
                    proof {
                        lemma_hex_number_prefix(digits, i - from + 1);
                    }
                    return None;
                }
                acc = acc * 16 + d as u64;
            },
        }
        i += 1;
    }
    assert(digits.take(i - from) == digits);
    Some(acc)
}

/// Reads `s` as an unsigned 64-bit number in base sixteen.
fn parse_hex_u64(s: &Vec<char>) -> (r: Option<u64>)
    ensures
        r == parsed_hex_u64(s@),
{
    if s.len() > 0 && s[0] == '+' {
        parse_hex_digits(s, 1)
    } else {
        assert(s@.skip(0) == s@);
        parse_hex_digits(s, 0)
    }
}

/// The decimal display of the characters of a bus.
fn decimal_chars(s: &Vec<char>, uppercase: bool) -> (r: Vec<char>)
    ensures
        r@ == decimal_text(s@, uppercase),
{
    if contains_undefined(s) {
        return cased_chars(s, uppercase);
    }
    match parse_hex_u64(s) {
        Some(n) => {
            let mut r: Vec<char> = Vec::new();
            push_decimal(&mut r, n);
            r
        },
        None => cased_chars(s, uppercase),
    }
}

impl WaveValue {
    /// The binary display of the text of a bus.
    pub fn format_string_as_binary(s: &str, uppercase: bool) -> (r: String)
        ensures
            r@ == binary_text(s@, uppercase),
    {
        string_of(&binary_chars(&chars_of(s), uppercase))
    }

    /// The octal display of the text of a bus.
    pub fn format_string_as_octal(s: &str, uppercase: bool) -> (r: String)
        ensures
            r@ == octal_text(s@, uppercase),
    {
        string_of(&octal_chars(&chars_of(s), uppercase))
    }

    /// The decimal display of the text of a bus.
    pub fn format_string_as_decimal(s: &str, uppercase: bool) -> (r: String)
        ensures
            r@ == decimal_text(s@, uppercase),
    {
        string_of(&decimal_chars(&chars_of(s), uppercase))
    }

    /// The hexadecimal display of the text of a bus.
    pub fn format_string_as_hex(s: &str, uppercase: bool) -> (r: String)
        ensures
            r@ == hex_text(s@, uppercase),
    {
        string_of(&hex_chars(&chars_of(s), uppercase))
    }

    /// The display of a value in the given radix.
    ///
    /// A single bit is shown as its one character whatever the radix. The
    /// text of a bus is shown in the radix asked for, with letters and
    /// undefined digits in upper case if `uppercase` is set, and behind a
    /// radix mark (`0b`, `0o`, `0d`, `0x` or `0X`) if `alternate` is set.
    pub fn format_bus(&self, radix: u32, uppercase: bool, alternate: bool) -> (r: String)
        ensures
            r@ == display_text(self@, radix, uppercase, alternate),
    {
        match self {
            WaveValue::Binary(v) => v.to_string(),
            WaveValue::Bus(text) => {
                let s = chars_of(text.as_str());
                let mut out: Vec<char> = Vec::new();
                if alternate {
                    if radix == 2 {
                        out.push('0');
                        out.push('b');
                    } else if radix == 8 {
                        out.push('0');
                        out.push('o');
                    } else if radix == 10 {
                        out.push('0');
                        out.push('d');
                    } else if radix == 16 {
                        out.push('0');
                        out.push(if uppercase {
                            'X'
                        } else {
                            'x'
                        });
                    }
                }
                let body = if radix == 2 {
                    binary_chars(&s, uppercase)
                } else if radix == 8 {
                    octal_chars(&s, uppercase)
                } else if radix == 10 {
                    decimal_chars(&s, uppercase)
                } else if radix == 16 {
                    hex_chars(&s, uppercase)
                } else {
                    s
                };
                push_all(&mut out, &body);
                string_of(&out)
            },
        }
    }

    /// The display of a value: a single bit as its character, the text of
    /// a bus in base ten.
    pub fn to_string(&self) -> (r: String)
        ensures
            r@ == display_text(self@, 10, false, false),
    {
        self.format_bus(10, false, false)
    }
}

} // verus!
