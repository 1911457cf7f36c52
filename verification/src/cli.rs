//! What the command line of the program asks for.

use crate::text::{chars_of, same_chars};
use vstd::prelude::*;

verus! {

/// The arguments of the program.
pub struct CliArgs {
    /// The file to open, if one is named.
    pub file_name: Option<String>,
    /// The configuration file to read in the place of the usual one, if
    /// one is named.
    pub config_file: Option<String>,
}

/// Whether `s` ends with the characters of `suffix`.
pub open spec fn has_suffix(s: Seq<char>, suffix: Seq<char>) -> bool {
    suffix.len() <= s.len() && s.skip(s.len() - suffix.len()) == suffix
}

/// Tests whether `s` ends with `suffix`.
pub fn ends_with(s: &str, suffix: &str) -> (b: bool)
    ensures
        b == has_suffix(s@, suffix@),
{
    let text = chars_of(s);
    let end = chars_of(suffix);
    if end.len() > text.len() {
        return false;
    }
    let from = text.len() - end.len();
    let mut tail: Vec<char> = Vec::new();
    let mut i: usize = from;
    while i < text.len()
        invariant
            from <= i <= text.len(),
            tail@ == text@.subrange(from as int, i as int),
        decreases text.len() - i,
    {
        tail.push(text[i]);
        i += 1;
    }
    same_chars(&tail, &end)
}

impl CliArgs {
    /// Whether a file is named that is a Value Change Dump by its name:
    /// `None` without a file, else whether its name ends in `.vcd`.
    pub fn names_vcd_file(&self) -> (r: Option<bool>)
        ensures
            r == match self.file_name {
                Some(name) => Some(has_suffix(name@, ".vcd"@)),
                None => None,
            },
    {
        match &self.file_name {
            Some(name) => Some(ends_with(name.as_str(), ".vcd")),
            None => None,
        }
    }
}

} // verus!
