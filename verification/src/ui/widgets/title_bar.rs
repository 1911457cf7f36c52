//! The title of the screen.

use crate::state::AppState;
use crate::text::{chars_of, decimal, push_decimal, push_decimal_wide, push_str_chars, string_of};
use vstd::prelude::*;

verus! {

/// The title of the screen.
#[derive(Debug, Clone, Copy, PartialEq, Eq, Structural)]
pub struct TitleBarWidget {}

impl Default for TitleBarWidget {
    fn default() -> (r: Self) {
        TitleBarWidget {  }
    }
}

/// How far two times lie apart.
pub open spec fn time_between(a: u64, b: u64) -> nat {
    if a > b {
        (a - b) as nat
    } else {
        (b - a) as nat
    }
}

/// What the title says of the markers: the time of each marker that is
/// set, and how far the two lie apart if both are.
pub open spec fn marker_text(primary: Option<u64>, secondary: Option<u64>) -> Seq<char> {
    (match primary {
        Some(p) => " | M1: "@ + decimal(p as nat),
        None => Seq::empty(),
    }) + (match secondary {
        Some(s) => " | M2: "@ + decimal(s as nat),
        None => Seq::empty(),
    }) + (match (primary, secondary) {
        (Some(p), Some(s)) => " | \u{394}: "@ + decimal(time_between(p, s)),
        _ => Seq::empty(),
    })
}

/// What the title says: the window, the end of the trace, and the
/// markers.
pub open spec fn title_text(state: AppState) -> Seq<char> {
    "DigiSurf | Time: "@ + decimal(state.time_start as nat) + " to "@ + decimal(
        (state.time_start + state.time_range) as nat,
    ) + " of "@ + decimal(state.waveform_data.max_time as nat) + marker_text(
        state.primary_marker,
        state.secondary_marker,
    )
}

impl TitleBarWidget {
    /// The title.
    pub fn title(&self, state: &AppState) -> (r: String)
        ensures
            r@ == title_text(*state),
    {
        let mut out = chars_of("DigiSurf | Time: ");
        push_decimal(&mut out, state.time_start);
        push_str_chars(&mut out, " to ");
        push_decimal_wide(&mut out, state.time_start as u128 + state.time_range as u128);
        push_str_chars(&mut out, " of ");
        push_decimal(&mut out, state.waveform_data.max_time);
        match state.primary_marker {
            Some(p) => {
                push_str_chars(&mut out, " | M1: ");
                push_decimal(&mut out, p);
            },
            None => {},
        }
        match state.secondary_marker {
            Some(s) => {
                push_str_chars(&mut out, " | M2: ");
                push_decimal(&mut out, s);
            },
            None => {},
        }
        match (state.primary_marker, state.secondary_marker) {
            (Some(p), Some(s)) => {
                push_str_chars(&mut out, " | \u{394}: ");
                push_decimal(
                    &mut out,
                    if p > s {
                        p - s
                    } else {
                        s - p
                    },
                );
            },
            _ => {},
        }
        string_of(&out)
    }
}

} // verus!
