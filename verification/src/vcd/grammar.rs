//! The lines of a Value Change Dump: declarations, time stamps and value
//! changes.
//!
//! Every parser reads a line from its first character, and gives what it
//! read together with what is left of the line behind it.

use crate::hex::ParseError;
use crate::text::{
    chars_of, has_prefix, is_blank, is_blank_char, is_digit, is_digit_char, is_whitespace,
    is_whitespace_char, lemma_scan_while_unique, parse_digits, parsed_digits, scan_while,
    starts_with, string_of_range,
};
use crate::value::{Value, WaveValue, WaveValueView};
use vstd::prelude::*;

verus! {

/// A character that may stand in the identifier code of a variable: a
/// printable character other than the space and the backslash.
pub open spec fn is_identifier_char(c: char) -> bool {
    33 <= (c as u32) <= 126 && c != '\\'
}

/// Tests for a character of an identifier code.
pub fn is_identifier(c: char) -> (b: bool)
    ensures
        b == is_identifier_char(c),
{
    let u = c as u32;
    33 <= u && u <= 126 && c != '\\'
}

/// A character that ends a word of a declaration: a space, a tab or a
/// line feed.
pub open spec fn is_word_end(c: char) -> bool {
    c == ' ' || c == '\t' || c == '\n'
}

/// A character that ends a name: whitespace or a dollar sign.
pub open spec fn is_name_end(c: char) -> bool {
    is_whitespace(c) || c == '$'
}

/// A character of the literal of a real number.
pub open spec fn is_real_char(c: char) -> bool {
    is_digit(c) || c == '.' || c == 'e' || c == 'E' || c == '+' || c == '-'
}

/// The first position at or after `from` where `$end` stands in `s`.
pub open spec fn find_end(s: Seq<char>, from: int) -> Option<int>
    decreases s.len() - from,
{
    if from < 0 || from + 4 > s.len() {
        None
    } else if s[from] == '$' && s[from + 1] == 'e' && s[from + 2] == 'n' && s[from + 3] == 'd' {
        Some(from)
    } else {
        find_end(s, from + 1)
    }
}

/// The declaration of a variable.
pub struct VarDef {
    pub id: String,
    pub name: String,
    pub width: usize,
    pub var_type: String,
}

/// What a `VarDef` holds, with its texts as sequences of characters.
pub ghost struct VarDefView {
    pub id: Seq<char>,
    pub name: Seq<char>,
    pub width: usize,
    pub var_type: Seq<char>,
}

impl View for VarDef {
    type V = VarDefView;

    open spec fn view(&self) -> VarDefView {
        VarDefView { id: self.id@, name: self.name@, width: self.width, var_type: self.var_type@ }
    }
}

/// The end of a run of blanks that starts at `from`.
pub open spec fn blanks_end(s: Seq<char>, from: int) -> int {
    scan_while(s, from, |c: char| is_blank(c))
}

/// The end of the word that starts at `from`.
pub open spec fn word_end(s: Seq<char>, from: int) -> int {
    scan_while(s, from, |c: char| !is_word_end(c))
}

/// The end of the name that starts at `from`.
pub open spec fn name_end(s: Seq<char>, from: int) -> int {
    scan_while(s, from, |c: char| !is_name_end(c))
}

/// The end of the digits that start at `from`.
pub open spec fn digits_end(s: Seq<char>, from: int) -> int {
    scan_while(s, from, |c: char| is_digit(c))
}

/// The end of the identifier code that starts at `from`.
pub open spec fn identifier_end(s: Seq<char>, from: int) -> int {
    scan_while(s, from, |c: char| is_identifier_char(c))
}

/// What a scope declaration holds: the name of the scope, and where the
/// declaration ends.
///
/// The line reads `$scope`, blanks, the kind of scope, blanks, the name,
/// anything, and `$end`. The kind is a word; it is read and not kept. The
/// name runs up to whitespace or a dollar sign.
pub open spec fn scope_declaration(s: Seq<char>) -> Option<(Seq<char>, int)> {
    let kind = blanks_end(s, 6);
    let gap = word_end(s, kind);
    let name = blanks_end(s, gap);
    let after = name_end(s, name);
    if has_prefix(s, seq!['$', 's', 'c', 'o', 'p', 'e']) && kind > 6 && gap > kind && name > gap
        && after > name {
        match find_end(s, after) {
            Some(end) => Some((s.subrange(name, after), end + 4)),
            None => None,
        }
    } else {
        None
    }
}

/// What a variable declaration holds, and where the declaration ends.
///
/// The line reads `$var`, blanks, the type of variable, blanks, the width
/// in bits, blanks, the identifier code, blanks, the name, anything, and
/// `$end`. The type is a word; the width is a decimal number that fits the
/// machine's word; the identifier code is a single character; the name
/// runs up to whitespace or a dollar sign.
pub open spec fn var_declaration(s: Seq<char>) -> Option<(VarDefView, int)> {
    let kind = blanks_end(s, 4);
    let gap1 = word_end(s, kind);
    let width = blanks_end(s, gap1);
    let gap2 = digits_end(s, width);
    let id = blanks_end(s, gap2);
    let name = blanks_end(s, id + 1);
    let after = name_end(s, name);
    if has_prefix(s, seq!['$', 'v', 'a', 'r']) && kind > 4 && gap1 > kind && width > gap1 && id
        > gap2 && id < s.len() && is_identifier_char(s[id]) && name > id + 1 && after > name {
        match (parsed_digits(s.subrange(width, gap2)), find_end(s, after)) {
            (Some(w), Some(end)) => if w <= usize::MAX {
                Some(
                    (
                        VarDefView {
                            id: s.subrange(id, id + 1),
                            name: s.subrange(name, after),
                            width: w as usize,
                            var_type: s.subrange(kind, gap1),
                        },
                        end + 4,
                    ),
                )
            } else {
                None
            },
            _ => None,
        }
    } else {
        None
    }
}

/// What a time stamp holds: the time, and where the time stamp ends.
///
/// The line reads `#` and a decimal number that fits in 64 bits.
pub open spec fn time_stamp(s: Seq<char>) -> Option<(u64, int)> {
    if s.len() > 0 && s[0] == '#' {
        match parsed_digits(s.subrange(1, digits_end(s, 1))) {
            Some(t) => Some((t, digits_end(s, 1))),
            None => None,
        }
    } else {
        None
    }
}

/// What a value change holds: the new value, the identifier code of the
/// variable, and where the change ends.
///
/// A change of a single bit reads one of `0`, `1`, `x`, `X`, `z`, `Z` and,
/// directly behind it, the identifier code. A change of a bus reads `b` or
/// `B`, the bits, blanks if any, and the identifier code; the value is the
/// text of the bits. A change of a real number reads `r` or `R`, the
/// number, blanks if any, and the identifier code; the value is the text
/// `r` followed by the number.
pub open spec fn value_change(s: Seq<char>) -> Option<(WaveValueView, Seq<char>, int)> {
    if s.len() == 0 {
        None
    } else if Value::of_char(s[0]) is Some {
        let end = identifier_end(s, 1);
        if end > 1 {
            Some((WaveValueView::Binary(Value::of_char(s[0])->0), s.subrange(1, end), end))
        } else {
            None
        }
    } else if s[0] == 'b' || s[0] == 'B' {
        let bits = scan_while(s, 1, |c: char| Value::of_char(c) is Some);
        let id = blanks_end(s, bits);
        let end = identifier_end(s, id);
        if bits > 1 && end > id {
            Some((WaveValueView::Bus(s.subrange(1, bits)), s.subrange(id, end), end))
        } else {
            None
        }
    } else if s[0] == 'r' || s[0] == 'R' {
        let number = scan_while(s, 1, |c: char| is_real_char(c));
        let id = blanks_end(s, number);
        let end = identifier_end(s, id);
        if number > 1 && end > id {
            Some((WaveValueView::Bus(seq!['r'] + s.subrange(1, number)), s.subrange(id, end), end))
        } else {
            None
        }
    } else {
        None
    }
}

/// Passes over blanks.
fn skip_blanks(s: &Vec<char>, from: usize) -> (r: usize)
    requires
        from <= s.len(),
    ensures
        r == blanks_end(s@, from as int),
        from <= r <= s.len(),
{
    let mut i: usize = from;
    while i < s.len() && is_blank_char(s[i])
        invariant
            from <= i <= s.len(),
            forall|k: int| from <= k < i ==> is_blank(#[trigger] s@[k]),
        decreases s.len() - i,
    {
        i += 1;
    }
    proof {
        let pred = |c: char| is_blank(c);
        lemma_scan_while_unique(s@, from as int, i as int, pred);
    }
    i
}

/// Passes over a word.
fn skip_word(s: &Vec<char>, from: usize) -> (r: usize)
    requires
        from <= s.len(),
    ensures
        r == word_end(s@, from as int),
        from <= r <= s.len(),
{
    let mut i: usize = from;
    while i < s.len() && !(s[i] == ' ' || s[i] == '\t' || s[i] == '\n')
        invariant
            from <= i <= s.len(),
            forall|k: int| from <= k < i ==> !is_word_end(#[trigger] s@[k]),
        decreases s.len() - i,
    {
        i += 1;
    }
    proof {
        let pred = |c: char| !is_word_end(c);
        lemma_scan_while_unique(s@, from as int, i as int, pred);
    }
    i
}

/// Passes over a name.
fn skip_name(s: &Vec<char>, from: usize) -> (r: usize)
    requires
        from <= s.len(),
    ensures
        r == name_end(s@, from as int),
        from <= r <= s.len(),
{
    let mut i: usize = from;
    while i < s.len() && !(is_whitespace_char(s[i]) || s[i] == '$')
        invariant
            from <= i <= s.len(),
            forall|k: int| from <= k < i ==> !is_name_end(#[trigger] s@[k]),
        decreases s.len() - i,
    {
        i += 1;
    }
    proof {
        let pred = |c: char| !is_name_end(c);
        lemma_scan_while_unique(s@, from as int, i as int, pred);
    }
    i
}

/// Passes over decimal digits.
fn skip_digits(s: &Vec<char>, from: usize) -> (r: usize)
    requires
        from <= s.len(),
    ensures
        r == digits_end(s@, from as int),
        from <= r <= s.len(),
{
    let mut i: usize = from;
    while i < s.len() && is_digit_char(s[i])
        invariant
            from <= i <= s.len(),
            forall|k: int| from <= k < i ==> is_digit(#[trigger] s@[k]),
        decreases s.len() - i,
    {
        i += 1;
    }
    proof {
        let pred = |c: char| is_digit(c);
        lemma_scan_while_unique(s@, from as int, i as int, pred);
    }
    i
}

/// Passes over an identifier code.
fn skip_identifier(s: &Vec<char>, from: usize) -> (r: usize)
    requires
        from <= s.len(),
    ensures
        r == identifier_end(s@, from as int),
        from <= r <= s.len(),
{
    let mut i: usize = from;
    while i < s.len() && is_identifier(s[i])
        invariant
            from <= i <= s.len(),
            forall|k: int| from <= k < i ==> is_identifier_char(#[trigger] s@[k]),
        decreases s.len() - i,
    {
        i += 1;
    }
    proof {
        let pred = |c: char| is_identifier_char(c);
        lemma_scan_while_unique(s@, from as int, i as int, pred);
    }
    i
}

/// Passes over the bits of a bus.
fn skip_logic(s: &Vec<char>, from: usize) -> (r: usize)
    requires
        from <= s.len(),
    ensures
        r == scan_while(s@, from as int, |c: char| Value::of_char(c) is Some),
        from <= r <= s.len(),
{
    let mut i: usize = from;
    while i < s.len() && Value::from_char(s[i]).is_some()
        invariant
            from <= i <= s.len(),
            forall|k: int| from <= k < i ==> Value::of_char(#[trigger] s@[k]) is Some,
        decreases s.len() - i,
    {
        i += 1;
    }
    proof {
        let pred = |c: char| Value::of_char(c) is Some;
        lemma_scan_while_unique(s@, from as int, i as int, pred);
    }
    i
}

/// Passes over the literal of a real number.
fn skip_real(s: &Vec<char>, from: usize) -> (r: usize)
    requires
        from <= s.len(),
    ensures
        r == scan_while(s@, from as int, |c: char| is_real_char(c)),
        from <= r <= s.len(),
{
    let mut i: usize = from;
    while i < s.len() && (is_digit_char(s[i]) || s[i] == '.' || s[i] == 'e' || s[i] == 'E' || s[i]
        == '+' || s[i] == '-')
        invariant
            from <= i <= s.len(),
            forall|k: int| from <= k < i ==> is_real_char(#[trigger] s@[k]),
        decreases s.len() - i,
    {
        i += 1;
    }
    proof {
        let pred = |c: char| is_real_char(c);
        lemma_scan_while_unique(s@, from as int, i as int, pred);
    }
    i
}

/// Finds the first `$end` at or after `from`.
fn search_end(s: &Vec<char>, from: usize) -> (r: Option<usize>)
    requires
        from <= s.len(),
    ensures
        match r {
            Some(i) => find_end(s@, from as int) == Some(i as int) && from <= i && i + 4 <= s.len(),
            None => find_end(s@, from as int) is None,
        },
{
    let mut i: usize = from;
    while s.len() - i >= 4
        invariant
            from <= i <= s.len(),
            find_end(s@, from as int) == find_end(s@, i as int),
        decreases s.len() - i,
    {
        if s[i] == '$' && s[i + 1] == 'e' && s[i + 2] == 'n' && s[i + 3] == 'd' {
            return Some(i);
        }
        i += 1;
    }
    None
}

/// Reads the digits `s[from..to]` as a number.
fn number_between(s: &Vec<char>, from: usize, to: usize) -> (r: Option<u64>)
    requires
        from <= to <= s.len(),
    ensures
        r == parsed_digits(s@.subrange(from as int, to as int)),
{
    let mut digits: Vec<char> = Vec::new();
    let mut i: usize = from;
    while i < to
        invariant
            from <= i <= to <= s.len(),
            digits@ == s@.subrange(from as int, i as int),
        decreases to - i,
    {
        digits.push(s[i]);
        i += 1;
    }
    assert(digits@.skip(0) == digits@);
    parse_digits(&digits, 0)
}

/// Reads a scope declaration from a vector of characters.
pub fn scan_scope_declaration(s: &Vec<char>) -> (r: Option<(String, usize)>)
    ensures
        match r {
            Some((name, end)) => scope_declaration(s@) == Some((name@, end as int)) && end
                <= s.len(),
            None => scope_declaration(s@) is None,
        },
{
    if !starts_with(s, "$scope") {
        proof {
            reveal_strlit("$scope");
            assert("$scope"@ =~= seq!['$', 's', 'c', 'o', 'p', 'e']);
        }
        return None;
    }
    proof {
        reveal_strlit("$scope");
        assert("$scope"@ =~= seq!['$', 's', 'c', 'o', 'p', 'e']);
    }
    let kind = skip_blanks(s, 6);
    let gap = skip_word(s, kind);
    let name = skip_blanks(s, gap);
    let after = skip_name(s, name);
    if !(kind > 6 && gap > kind && name > gap && after > name) {
        return None;
    }
    match search_end(s, after) {
        Some(end) => Some((string_of_range(s, name, after), end + 4)),
        None => None,
    }
}

/// Reads a variable declaration from a vector of characters.
pub fn scan_var_declaration(s: &Vec<char>) -> (r: Option<(VarDef, usize)>)
    ensures
        match r {
            Some((def, end)) => var_declaration(s@) == Some((def@, end as int)) && end <= s.len(),
            None => var_declaration(s@) is None,
        },
{
    proof {
        reveal_strlit("$var");
        assert("$var"@ =~= seq!['$', 'v', 'a', 'r']);
    }
    if !starts_with(s, "$var") {
        return None;
    }
    let kind = skip_blanks(s, 4);
    let gap1 = skip_word(s, kind);
    let width = skip_blanks(s, gap1);
    let gap2 = skip_digits(s, width);
    let id = skip_blanks(s, gap2);
    if !(kind > 4 && gap1 > kind && width > gap1 && id > gap2 && id < s.len() && is_identifier(
        s[id],
    )) {
        return None;
    }
    let name = skip_blanks(s, id + 1);
    let after = skip_name(s, name);
    if !(name > id + 1 && after > name) {
        return None;
    }
    match (number_between(s, width, gap2), search_end(s, after)) {
        (Some(w), Some(end)) => {
            if w > usize::MAX as u64 {
                return None;
            }
            Some(
                (
                    VarDef {
                        id: string_of_range(s, id, id + 1),
                        name: string_of_range(s, name, after),
                        width: w as usize,
                        var_type: string_of_range(s, kind, gap1),
                    },
                    end + 4,
                ),
            )
        },
        _ => None,
    }
}

/// Reads a time stamp from a vector of characters.
pub fn scan_time_stamp(s: &Vec<char>) -> (r: Option<(u64, usize)>)
    ensures
        match r {
            Some((time, end)) => time_stamp(s@) == Some((time, end as int)) && end <= s.len(),
            None => time_stamp(s@) is None,
        },
{
    if !(s.len() > 0 && s[0] == '#') {
        return None;
    }
    let end = skip_digits(s, 1);
    match number_between(s, 1, end) {
        Some(time) => Some((time, end)),
        None => None,
    }
}

/// Reads a value change from a vector of characters.
pub fn scan_value_change(s: &Vec<char>) -> (r: Option<(WaveValue, String, usize)>)
    ensures
        match r {
            Some((value, id, end)) => value_change(s@) == Some((value@, id@, end as int)) && end
                <= s.len(),
            None => value_change(s@) is None,
        },
{
    if s.len() == 0 {
        return None;
    }
    let first = s[0];
    match Value::from_char(first) {
        Some(v) => {
            let end = skip_identifier(s, 1);
            if end > 1 {
                Some((WaveValue::Binary(v), string_of_range(s, 1, end), end))
            } else {
                None
            }
        },
        None => {
            if first == 'b' || first == 'B' {
                let bits = skip_logic(s, 1);
                let id = skip_blanks(s, bits);
                let end = skip_identifier(s, id);
                if bits > 1 && end > id {
                    Some(
                        (
                            WaveValue::Bus(string_of_range(s, 1, bits)),
                            string_of_range(s, id, end),
                            end,
                        ),
                    )
                } else {
                    None
                }
            } else if first == 'r' || first == 'R' {
                let number = skip_real(s, 1);
                let id = skip_blanks(s, number);
                let end = skip_identifier(s, id);
                if number > 1 && end > id {
                    let mut text: Vec<char> = Vec::new();
                    text.push('r');
                    let mut i: usize = 1;
                    while i < number
                        invariant
                            1 <= i <= number <= s.len(),
                            text@ == seq!['r'] + s@.subrange(1, i as int),
                        decreases number - i,
                    {
                        text.push(s[i]);
                        i += 1;
                    }
                    Some(
                        (
                            WaveValue::Bus(crate::text::string_of(&text)),
                            string_of_range(s, id, end),
                            end,
                        ),
                    )
                } else {
                    None
                }
            } else {
                None
            }
        },
    }
}

/// Reads a scope declaration: gives what is left of the line, and the
/// name of the scope.
pub fn parse_scope_declaration(input: &str) -> (r: Result<(&str, String), ParseError>)
    ensures
        match r {
            Ok((rest, name)) => scope_declaration(input@) == Some(
                (name@, input@.len() - rest@.len()),
            ) && rest@ == input@.skip(input@.len() - rest@.len()),
            Err(_) => scope_declaration(input@) is None,
        },
{
    let s = chars_of(input);
    match scan_scope_declaration(&s) {
        Some((name, end)) => {
            let rest = input.substring_char(end, s.len());
            Ok((rest, name))
        },
        None => Err(ParseError),
    }
}

/// Reads a variable declaration: gives what is left of the line, and the
/// declaration.
pub fn parse_var_declaration(input: &str) -> (r: Result<(&str, VarDef), ParseError>)
    ensures
        match r {
            Ok((rest, def)) => var_declaration(input@) == Some((def@, input@.len() - rest@.len()))
                && rest@ == input@.skip(input@.len() - rest@.len()),
            Err(_) => var_declaration(input@) is None,
        },
{
    let s = chars_of(input);
    match scan_var_declaration(&s) {
        Some((def, end)) => {
            let rest = input.substring_char(end, s.len());
            Ok((rest, def))
        },
        None => Err(ParseError),
    }
}

/// Reads a time stamp: gives what is left of the line, and the time.
pub fn parse_time_stamp(input: &str) -> (r: Result<(&str, u64), ParseError>)
    ensures
        match r {
            Ok((rest, time)) => time_stamp(input@) == Some((time, input@.len() - rest@.len()))
                && rest@ == input@.skip(input@.len() - rest@.len()),
            Err(_) => time_stamp(input@) is None,
        },
{
    let s = chars_of(input);
    match scan_time_stamp(&s) {
        Some((time, end)) => {
            let rest = input.substring_char(end, s.len());
            Ok((rest, time))
        },
        None => Err(ParseError),
    }
}

/// Reads a value change: gives what is left of the line, the new value
/// and the identifier code of the variable.
pub fn parse_value_change(input: &str) -> (r: Result<(&str, (WaveValue, String)), ParseError>)
    ensures
        match r {
            Ok((rest, (value, id))) => value_change(input@) == Some(
                (value@, id@, input@.len() - rest@.len()),
            ) && rest@ == input@.skip(input@.len() - rest@.len()),
            Err(_) => value_change(input@) is None,
        },
{
    let s = chars_of(input);
    match scan_value_change(&s) {
        Some((value, id, end)) => {
            let rest = input.substring_char(end, s.len());
            Ok((rest, (value, id)))
        },
        None => Err(ParseError),
    }
}

} // verus!
