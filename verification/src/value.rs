//! The four-state logic value and the value of a signal at one moment.

use crate::text::{chars_of, string_of};
use vstd::prelude::*;

verus! {

/// One bit of four-state logic.
#[derive(Debug, Clone, Copy, PartialEq, Eq, Structural)]
pub enum Value {
    V0,
    V1,
    VX,
    VZ,
}

impl Value {
    /// The character a value is displayed as.
    pub open spec fn symbol(self) -> char {
        match self {
            Value::V0 => '0',
            Value::V1 => '1',
            Value::VX => 'X',
            Value::VZ => 'Z',
        }
    }

    /// The name of the variant.
    pub open spec fn variant_name(self) -> Seq<char> {
        match self {
            Value::V0 => "V0"@,
            Value::V1 => "V1"@,
            Value::VX => "VX"@,
            Value::VZ => "VZ"@,
        }
    }

    /// The character a value is displayed as: `0`, `1`, `X` or `Z`.
    pub fn to_char(&self) -> (c: char)
        ensures
            c == self.symbol(),
    {
        match self {
            Value::V0 => '0',
            Value::V1 => '1',
            Value::VX => 'X',
            Value::VZ => 'Z',
        }
    }

    /// The display form of a value: the one character `0`, `1`, `X` or `Z`.
    pub fn to_string(&self) -> (s: String)
        ensures
            s@ == seq![self.symbol()],
    {
        let mut v: Vec<char> = Vec::new();
        v.push(self.to_char());
        string_of(&v)
    }

    /// The name of the variant: `V0`, `V1`, `VX` or `VZ`.
    pub fn name(&self) -> (s: &'static str)
        ensures
            s@ == self.variant_name(),
    {
        match self {
            Value::V0 => "V0",
            Value::V1 => "V1",
            Value::VX => "VX",
            Value::VZ => "VZ",
        }
    }

    /// The logic value that a character of a dump stands for.
    pub open spec fn of_char(c: char) -> Option<Value> {
        if c == '0' {
            Some(Value::V0)
        } else if c == '1' {
            Some(Value::V1)
        } else if c == 'x' || c == 'X' {
            Some(Value::VX)
        } else if c == 'z' || c == 'Z' {
            Some(Value::VZ)
        } else {
            None
        }
    }

    /// Reads one of `0`, `1`, `x`, `X`, `z`, `Z` as a logic value.
    pub fn from_char(c: char) -> (r: Option<Value>)
        ensures
            r == Value::of_char(c),
    {
        if c == '0' {
            Some(Value::V0)
        } else if c == '1' {
            Some(Value::V1)
        } else if c == 'x' || c == 'X' {
            Some(Value::VX)
        } else if c == 'z' || c == 'Z' {
            Some(Value::VZ)
        } else {
            None
        }
    }
}

/// The value of a signal: one bit, or the text of a bus.
///
/// The text of a bus is one of three things: a run of binary digits with
/// `x` or `z` among them, as the dump wrote it; an upper-case hexadecimal
/// number, for a change whose bits are all defined; or `r` followed by a
/// real number.
#[derive(Debug)]
pub enum WaveValue {
    Binary(Value),
    Bus(String),
}

/// What a `WaveValue` holds, with the text of a bus as a sequence of
/// characters.
pub ghost enum WaveValueView {
    Binary(Value),
    Bus(Seq<char>),
}

impl View for WaveValue {
    type V = WaveValueView;

    open spec fn view(&self) -> WaveValueView {
        match self {
            WaveValue::Binary(v) => WaveValueView::Binary(*v),
            WaveValue::Bus(s) => WaveValueView::Bus(s@),
        }
    }
}

impl DeepView for WaveValue {
    type V = WaveValueView;

    open spec fn deep_view(&self) -> WaveValueView {
        self@
    }
}

impl Clone for WaveValue {
    fn clone(&self) -> (r: Self)
        ensures
            r == *self,
    {
        match self {
            WaveValue::Binary(v) => WaveValue::Binary(*v),
            WaveValue::Bus(s) => WaveValue::Bus(s.clone()),
        }
    }
}

impl PartialEq for WaveValue {
    fn eq(&self, other: &WaveValue) -> (r: bool) {
        match (self, other) {
            (WaveValue::Binary(a), WaveValue::Binary(b)) => *a == *b,
            (WaveValue::Bus(a), WaveValue::Bus(b)) => *a == *b,
            _ => false,
        }
    }
}

impl vstd::std_specs::cmp::PartialEqSpecImpl for WaveValue {
    open spec fn obeys_eq_spec() -> bool {
        true
    }

    open spec fn eq_spec(&self, other: &WaveValue) -> bool {
        self@ == other@
    }
}

impl WaveValue {
    /// A bus whose text is `text`.
    pub fn bus(text: &str) -> (r: WaveValue)
        ensures
            r@ == WaveValueView::Bus(text@),
    {
        WaveValue::Bus(string_of(&chars_of(text)))
    }
}

} // verus!
